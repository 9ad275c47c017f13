//! The actuator: the single outbound call that a permitted request turns into, and
//! how its outcome is surfaced.
use vstd::prelude::*;
use crate::gate::{authorize_mint, authorize_verify, mint_accounts_ok, mint_decision, verify_accounts_ok, verify_decision};
use crate::key::Key;
use crate::request::{
    Claim, CollectionAccounts, LeafContent, MintAccounts, MintParams, RequestError, TreeAuthority, VerifyAccounts,
    VerifyParams,
};

verus! {

/// The leaf-append call into the metadata program.
#[derive(Clone, Debug)]
pub struct MintCall {
    pub tree_config: Key,
    pub leaf_owner: Key,
    pub leaf_delegate: Key,
    pub merkle_tree: Key,
    pub payer: Key,
    pub tree_creator_or_delegate: Key,
    pub log_wrapper: Key,
    pub compression_program: Key,
    pub metadata: LeafContent,
}

/// The leaf-replace call that sets a claim's verified flag.
#[derive(Clone, Debug)]
pub struct VerifyCall {
    pub tree_config: Key,
    pub leaf_owner: Key,
    pub leaf_delegate: Key,
    pub merkle_tree: Key,
    pub payer: Key,
    /// The signer attesting the claim.
    pub attester: Key,
    /// The collection accounts, for a collection claim only.
    pub collection: Option<CollectionAccounts>,
    pub log_wrapper: Key,
    pub compression_program: Key,
    pub root: [u8; 32],
    pub data_hash: [u8; 32],
    pub creator_hash: [u8; 32],
    pub nonce: u64,
    pub index: u32,
    pub message: LeafContent,
    pub claim: Claim,
    pub proof: Vec<Key>,
}

/// The call that a well-formed mint request turns into.
pub open spec fn mint_call_of(acc: MintAccounts, params: MintParams) -> MintCall
    recommends
        mint_accounts_ok(acc),
{
    MintCall {
        tree_config: acc.tree_authority.unwrap().address,
        leaf_owner: acc.leaf_owner,
        leaf_delegate: acc.leaf_delegate,
        merkle_tree: acc.merkle_tree,
        payer: acc.payer,
        tree_creator_or_delegate: acc.signer.unwrap(),
        log_wrapper: acc.log_wrapper,
        compression_program: acc.compression_program,
        metadata: params.metadata,
    }
}

/// The call that a well-formed verify request turns into.
pub open spec fn verify_call_of(acc: VerifyAccounts, params: VerifyParams) -> VerifyCall
    recommends
        verify_accounts_ok(acc),
{
    VerifyCall {
        tree_config: acc.tree_authority.unwrap().address,
        leaf_owner: acc.leaf_owner,
        leaf_delegate: acc.leaf_delegate,
        merkle_tree: acc.merkle_tree,
        payer: acc.payer,
        attester: acc.signer.unwrap(),
        collection: match params.claim {
            Claim::Creator { .. } => None,
            Claim::Collection { .. } => acc.collection,
        },
        log_wrapper: acc.log_wrapper,
        compression_program: acc.compression_program,
        root: params.root,
        data_hash: params.data_hash,
        creator_hash: params.creator_hash,
        nonce: params.nonce,
        index: params.index,
        message: params.message,
        claim: params.claim,
        proof: acc.proof,
    }
}

/// What a mint request yields: the call to dispatch, or the refusal.
pub open spec fn mint_response(acc: MintAccounts, params: MintParams) -> Result<MintCall, RequestError> {
    match mint_decision(acc) {
        Ok(()) => Ok(mint_call_of(acc, params)),
        Err(e) => Err(e),
    }
}

/// What a verify request yields: the call to dispatch, or the refusal.
pub open spec fn verify_response(acc: VerifyAccounts, params: VerifyParams) -> Result<VerifyCall, RequestError> {
    match verify_decision(acc, params.claim) {
        Ok(()) => Ok(verify_call_of(acc, params)),
        Err(e) => Err(e),
    }
}

/// What the caller of a dispatched mint receives: on success, the nonce of the
/// appended leaf, which is the tree's mint count read before the call.
pub open spec fn mint_completion(ta: TreeAuthority, outcome: Result<(), u64>) -> Result<u64, RequestError> {
    match outcome {
        Ok(()) => Ok(ta.num_minted),
        Err(code) => Err(RequestError::ExternalFailure(code)),
    }
}

/// What the caller receives once the outbound call has returned `outcome`.
pub open spec fn outcome_result(outcome: Result<(), u64>) -> Result<(), RequestError> {
    match outcome {
        Ok(()) => Ok(()),
        Err(code) => Err(RequestError::ExternalFailure(code)),
    }
}

/// Assembles the leaf-append call of a well-formed mint request.
pub fn build_mint_call(accounts: &MintAccounts, params: MintParams) -> (r: MintCall)
    requires
        mint_accounts_ok(*accounts),
    ensures
        r == mint_call_of(*accounts, params),
{
    MintCall {
        tree_config: accounts.tree_authority.unwrap().address,
        leaf_owner: accounts.leaf_owner,
        leaf_delegate: accounts.leaf_delegate,
        merkle_tree: accounts.merkle_tree,
        payer: accounts.payer,
        tree_creator_or_delegate: accounts.signer.unwrap(),
        log_wrapper: accounts.log_wrapper,
        compression_program: accounts.compression_program,
        metadata: params.metadata,
    }
}

/// Assembles the leaf-replace call of a well-formed verify request.
pub fn build_verify_call(accounts: VerifyAccounts, params: VerifyParams) -> (r: VerifyCall)
    requires
        verify_accounts_ok(accounts),
    ensures
        r == verify_call_of(accounts, params),
{
    VerifyCall {
        tree_config: accounts.tree_authority.unwrap().address,
        leaf_owner: accounts.leaf_owner,
        leaf_delegate: accounts.leaf_delegate,
        merkle_tree: accounts.merkle_tree,
        payer: accounts.payer,
        attester: accounts.signer.unwrap(),
        collection: match params.claim {
            Claim::Creator { .. } => None,
            Claim::Collection { .. } => accounts.collection,
        },
        log_wrapper: accounts.log_wrapper,
        compression_program: accounts.compression_program,
        root: params.root,
        data_hash: params.data_hash,
        creator_hash: params.creator_hash,
        nonce: params.nonce,
        index: params.index,
        message: params.message,
        claim: params.claim,
        proof: accounts.proof,
    }
}

/// Handles a mint request: authorization decides, and only a permitted request yields
/// the call to dispatch.
pub fn mint(accounts: &MintAccounts, params: MintParams) -> (r: Result<MintCall, RequestError>)
    ensures
        r == mint_response(*accounts, params),
{
    match authorize_mint(accounts) {
        Ok(()) => Ok(build_mint_call(accounts, params)),
        Err(e) => Err(e),
    }
}

/// Handles a verify request: authorization decides, and only a permitted request yields
/// the call to dispatch.
pub fn verify(accounts: VerifyAccounts, params: VerifyParams) -> (r: Result<VerifyCall, RequestError>)
    ensures
        r == verify_response(accounts, params),
{
    match authorize_verify(&accounts, &params.claim) {
        Ok(()) => Ok(build_verify_call(accounts, params)),
        Err(e) => Err(e),
    }
}

/// Surfaces the outcome of the outbound call: success, or its failure unchanged.
pub fn complete(outcome: Result<(), u64>) -> (r: Result<(), RequestError>)
    ensures
        r == outcome_result(outcome),
{
    match outcome {
        Ok(()) => Ok(()),
        Err(code) => Err(RequestError::ExternalFailure(code)),
    }
}

/// Surfaces the outcome of a dispatched mint call on the tree whose authority
/// account read `tree_authority` before the call.
pub fn complete_mint(tree_authority: &TreeAuthority, outcome: Result<(), u64>) -> (r: Result<u64, RequestError>)
    ensures
        r == mint_completion(*tree_authority, outcome),
{
    match complete(outcome) {
        Ok(()) => Ok(tree_authority.num_minted),
        Err(e) => Err(e),
    }
}

} // verus!
