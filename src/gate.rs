//! The authorization gate: a pure decision on the supplied accounts and claim,
//! made before any outbound call.
use vstd::prelude::*;
use crate::key::Key;
use crate::programs::{
    authority_record_address, authority_record_seeds, bubblegum_address, bubblegum_program_id,
    compression_address, compression_program_id, metadata_address, metadata_seeds, noop_address,
    noop_program_id, program_address_of, token_metadata_address, token_metadata_program_id,
    tree_config_address, tree_config_seeds,
};
use crate::request::{
    Claim, CollectionAccounts, MintAccounts, RequestError, TreeAuthority, VerifyAccounts,
};

verus! {

/// The accounts that every request needs are present and consistent: a signer, the
/// tree's authority account at the address derived from the tree, and the three
/// outside programs at their own addresses.
pub open spec fn base_accounts_ok(
    tree_authority: Option<TreeAuthority>,
    merkle_tree: Key,
    signer: Option<Key>,
    log_wrapper: Key,
    compression_program: Key,
    bubblegum_program: Key,
) -> bool {
    &&& signer is Some
    &&& tree_authority matches Some(ta)
        && program_address_of(tree_config_seeds(merkle_tree@), bubblegum_address()) == Some(ta.address@)
    &&& bubblegum_program@ == bubblegum_address()
    &&& compression_program@ == compression_address()
    &&& log_wrapper@ == noop_address()
}

pub open spec fn mint_accounts_ok(acc: MintAccounts) -> bool {
    base_accounts_ok(
        acc.tree_authority,
        acc.merkle_tree,
        acc.signer,
        acc.log_wrapper,
        acc.compression_program,
        acc.bubblegum_program,
    )
}

pub open spec fn verify_accounts_ok(acc: VerifyAccounts) -> bool {
    base_accounts_ok(
        acc.tree_authority,
        acc.merkle_tree,
        acc.signer,
        acc.log_wrapper,
        acc.compression_program,
        acc.bubblegum_program,
    )
}

/// The signer is the tree's update authority or its delegate; either suffices.
pub open spec fn holds_tree_role(signer: Key, ta: TreeAuthority) -> bool {
    signer@ == ta.tree_creator@ || signer@ == ta.tree_delegate@
}

/// The decision on a mint request.
pub open spec fn mint_decision(acc: MintAccounts) -> Result<(), RequestError> {
    if !mint_accounts_ok(acc) {
        Err(RequestError::MalformedRequest)
    } else if holds_tree_role(acc.signer.unwrap(), acc.tree_authority.unwrap()) {
        Ok(())
    } else {
        Err(RequestError::Unauthorized)
    }
}

/// The collection accounts belong to the collection of `mint`: the metadata account
/// sits at the address derived from the mint and records that mint, and the
/// token-metadata program is the real one.
pub open spec fn collection_accounts_ok(ca: CollectionAccounts, mint: Key) -> bool {
    &&& ca.collection_mint@ == mint@
    &&& ca.metadata_contents.mint@ == mint@
    &&& ca.token_metadata_program@ == token_metadata_address()
    &&& program_address_of(metadata_seeds(mint@), token_metadata_address()) == Some(ca.metadata@)
}

/// The signer is recognized as the collection's authority: its update authority, or a
/// delegate whose collection authority record was supplied.
pub open spec fn is_collection_authority(signer: Key, ca: CollectionAccounts) -> bool {
    ||| signer@ == ca.metadata_contents.update_authority@
    ||| ca.authority_record matches Some(r) && program_address_of(
        authority_record_seeds(ca.collection_mint@, signer@),
        token_metadata_address(),
    ) == Some(r@)
}

/// The decision on a claim, once the common accounts are known to be in order: an
/// account that the claim names must be supplied before the signer's role counts.
pub open spec fn claim_decision(
    signer: Key,
    creator_account: Option<Key>,
    collection: Option<CollectionAccounts>,
    claim: Claim,
) -> Result<(), RequestError> {
    match claim {
        Claim::Creator { creator, .. } => match creator_account {
            None => Err(RequestError::MalformedRequest),
            Some(k) => if k@ != creator@ {
                Err(RequestError::MalformedRequest)
            } else if signer@ == creator@ {
                Ok(())
            } else {
                Err(RequestError::Unauthorized)
            },
        },
        Claim::Collection { collection_mint, .. } => match collection {
            None => Err(RequestError::MalformedRequest),
            Some(ca) => if !collection_accounts_ok(ca, collection_mint) {
                Err(RequestError::MalformedRequest)
            } else if is_collection_authority(signer, ca) {
                Ok(())
            } else {
                Err(RequestError::Unauthorized)
            },
        },
    }
}

/// The decision on a verify request.
pub open spec fn verify_decision(acc: VerifyAccounts, claim: Claim) -> Result<(), RequestError> {
    if !verify_accounts_ok(acc) {
        Err(RequestError::MalformedRequest)
    } else {
        claim_decision(acc.signer.unwrap(), acc.creator, acc.collection, claim)
    }
}

/// Checks the accounts that every request needs.
pub fn check_base_accounts(
    tree_authority: &Option<TreeAuthority>,
    merkle_tree: &Key,
    signer: &Option<Key>,
    log_wrapper: &Key,
    compression_program: &Key,
    bubblegum_program: &Key,
) -> (r: bool)
    ensures
        r == base_accounts_ok(
            *tree_authority,
            *merkle_tree,
            *signer,
            *log_wrapper,
            *compression_program,
            *bubblegum_program,
        ),
{
    if signer.is_none() {
        return false;
    }
    let ta = match tree_authority {
        None => {
            return false;
        },
        Some(ta) => ta,
    };
    let bubblegum = bubblegum_program_id();
    let derived = match tree_config_address(merkle_tree) {
        None => {
            return false;
        },
        Some(a) => a,
    };
    derived.same_as(&ta.address) && bubblegum_program.same_as(&bubblegum)
        && compression_program.same_as(&compression_program_id())
        && log_wrapper.same_as(&noop_program_id())
}

/// Decides a mint request: missing or inconsistent accounts first, then the
/// signer's role on the tree.
pub fn authorize_mint(accounts: &MintAccounts) -> (r: Result<(), RequestError>)
    ensures
        r == mint_decision(*accounts),
{
    if !check_base_accounts(
        &accounts.tree_authority,
        &accounts.merkle_tree,
        &accounts.signer,
        &accounts.log_wrapper,
        &accounts.compression_program,
        &accounts.bubblegum_program,
    ) {
        return Err(RequestError::MalformedRequest);
    }
    let signer = accounts.signer.unwrap();
    let ta = accounts.tree_authority.unwrap();
    if signer.same_as(&ta.tree_creator) || signer.same_as(&ta.tree_delegate) {
        Ok(())
    } else {
        Err(RequestError::Unauthorized)
    }
}

/// Checks that the collection accounts belong to the collection of `mint`.
pub fn check_collection_accounts(ca: &CollectionAccounts, mint: &Key) -> (r: bool)
    ensures
        r == collection_accounts_ok(*ca, *mint),
{
    if !ca.collection_mint.same_as(mint) || !ca.metadata_contents.mint.same_as(mint)
        || !ca.token_metadata_program.same_as(&token_metadata_program_id()) {
        return false;
    }
    match metadata_address(mint) {
        None => false,
        Some(m) => m.same_as(&ca.metadata),
    }
}

/// Checks whether the signer is recognized as the collection's authority.
pub fn check_collection_authority(signer: &Key, ca: &CollectionAccounts) -> (r: bool)
    ensures
        r == is_collection_authority(*signer, *ca),
{
    if signer.same_as(&ca.metadata_contents.update_authority) {
        return true;
    }
    match ca.authority_record {
        None => false,
        Some(rec) => match authority_record_address(&ca.collection_mint, signer) {
            None => false,
            Some(a) => a.same_as(&rec),
        },
    }
}

/// Decides a claim for the given signer, creator account and collection accounts.
pub fn authorize_claim(
    signer: &Key,
    creator_account: &Option<Key>,
    collection: &Option<CollectionAccounts>,
    claim: &Claim,
) -> (r: Result<(), RequestError>)
    ensures
        r == claim_decision(*signer, *creator_account, *collection, *claim),
{
    match claim {
        Claim::Creator { creator, .. } => match creator_account {
            None => Err(RequestError::MalformedRequest),
            Some(k) => if !k.same_as(creator) {
                Err(RequestError::MalformedRequest)
            } else if signer.same_as(creator) {
                Ok(())
            } else {
                Err(RequestError::Unauthorized)
            },
        },
        Claim::Collection { collection_mint, .. } => match collection {
            None => Err(RequestError::MalformedRequest),
            Some(ca) => if !check_collection_accounts(ca, collection_mint) {
                Err(RequestError::MalformedRequest)
            } else if check_collection_authority(signer, ca) {
                Ok(())
            } else {
                Err(RequestError::Unauthorized)
            },
        },
    }
}

/// Decides a verify request: missing or inconsistent accounts first, then whether
/// the signer may attest the claim.
pub fn authorize_verify(accounts: &VerifyAccounts, claim: &Claim) -> (r: Result<(), RequestError>)
    ensures
        r == verify_decision(*accounts, *claim),
{
    if !check_base_accounts(
        &accounts.tree_authority,
        &accounts.merkle_tree,
        &accounts.signer,
        &accounts.log_wrapper,
        &accounts.compression_program,
        &accounts.bubblegum_program,
    ) {
        return Err(RequestError::MalformedRequest);
    }
    let signer = accounts.signer.unwrap();
    authorize_claim(&signer, &accounts.creator, &accounts.collection, claim)
}

} // verus!
