//! Properties of authorization and actuation taken together.
use vstd::prelude::*;
use crate::actuator::{mint_completion, mint_response, verify_response};
use crate::gate::{
    collection_accounts_ok, holds_tree_role, is_collection_authority, mint_accounts_ok, mint_decision,
    verify_accounts_ok,
};
use crate::request::{
    Claim, CollectionAccounts, MintAccounts, MintParams, RequestError, TreeAuthority, VerifyAccounts,
    VerifyParams,
};

verus! {

/// A mint request whose accounts are in order, but whose signer is neither the
/// tree's update authority nor its delegate, is refused as unauthorized and yields
/// no call.
pub proof fn mint_without_tree_role_is_refused(acc: MintAccounts, params: MintParams)
    requires
        mint_accounts_ok(acc),
        !holds_tree_role(acc.signer.unwrap(), acc.tree_authority.unwrap()),
    ensures
        mint_response(acc, params) == Err::<crate::actuator::MintCall, RequestError>(
            RequestError::Unauthorized,
        ),
{
}

/// A mint request without a signer or without the tree's authority account is
/// malformed, whoever signs it and whatever roles the tree names.
pub proof fn mint_missing_account_is_malformed(acc: MintAccounts, params: MintParams)
    requires
        acc.signer is None || acc.tree_authority is None,
    ensures
        mint_response(acc, params) == Err::<crate::actuator::MintCall, RequestError>(
            RequestError::MalformedRequest,
        ),
{
}

/// A verify request without a signer or without the tree's authority account, or
/// whose claim names an account that was not supplied (a creator without its
/// account, a collection without its accounts), is malformed, whoever signs it.
pub proof fn verify_missing_account_is_malformed(acc: VerifyAccounts, params: VerifyParams)
    requires
        acc.signer is None || acc.tree_authority is None || (params.claim matches Claim::Creator {
            creator,
            ..
        } && !(acc.creator matches Some(k) && k@ == creator@)) || (params.claim is Collection
            && acc.collection is None),
    ensures
        verify_response(acc, params) == Err::<crate::actuator::VerifyCall, RequestError>(
            RequestError::MalformedRequest,
        ),
{
}

/// A creator claim signed by the creator it names, with that creator's account
/// supplied, is permitted, and the call it yields is the same whatever collection
/// accounts come with it.
pub proof fn creator_self_attestation_is_permitted(acc: VerifyAccounts, params: VerifyParams)
    requires
        verify_accounts_ok(acc),
        params.claim matches Claim::Creator { creator, .. } && creator@ == acc.signer.unwrap()@,
        acc.creator matches Some(k) && k@ == acc.signer.unwrap()@,
    ensures
        verify_response(acc, params) is Ok,
        forall|c: Option<CollectionAccounts>|
            (#[trigger] verify_response(VerifyAccounts { collection: c, ..acc }, params))
                == verify_response(acc, params),
{
}

/// A collection claim whose collection accounts are supplied and belong to the
/// collection is permitted exactly when the signer is recognized as the collection's
/// authority (update authority or recorded delegate), whatever creators the leaf
/// names and whatever creator account comes with it.
pub proof fn collection_claim_needs_collection_authority(acc: VerifyAccounts, params: VerifyParams)
    requires
        verify_accounts_ok(acc),
        params.claim matches Claim::Collection { collection_mint, .. } && acc.collection matches Some(
            ca,
        ) && collection_accounts_ok(ca, collection_mint),
    ensures
        verify_response(acc, params) is Ok <==> is_collection_authority(
            acc.signer.unwrap(),
            acc.collection.unwrap(),
        ),
        !(verify_response(acc, params) is Ok) ==> verify_response(acc, params) == Err::<
            crate::actuator::VerifyCall,
            RequestError,
        >(RequestError::Unauthorized),
        forall|m: crate::request::LeafContent, k: Option<crate::key::Key>|
            (#[trigger] verify_response(
                VerifyAccounts { creator: k, ..acc },
                VerifyParams { message: m, ..params },
            )) is Ok <==> verify_response(acc, params) is Ok,
{
}

/// The same permitted mint request, issued again once the first has appended its
/// leaf, is permitted again and dispatches the same call; no deduplication happens
/// here, and the two leaves get distinct nonces.
pub proof fn repeated_mint_appends_distinct_leaves(acc: MintAccounts, params: MintParams)
    requires
        mint_decision(acc) is Ok,
        acc.tree_authority.unwrap().num_minted < u64::MAX,
    ensures
        ({
            let ta = acc.tree_authority.unwrap();
            let after = MintAccounts {
                tree_authority: Some(TreeAuthority { num_minted: (ta.num_minted + 1) as u64, ..ta }),
                ..acc
            };
            &&& mint_response(after, params) is Ok
            &&& mint_response(after, params) == mint_response(acc, params)
            &&& mint_completion(ta, Ok(())) is Ok
            &&& mint_completion(after.tree_authority.unwrap(), Ok(())) is Ok
            &&& mint_completion(ta, Ok(())) != mint_completion(after.tree_authority.unwrap(), Ok(()))
        }),
{
}

} // verus!
