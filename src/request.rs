//! Requests, the accounts supplied with them, and the calls they turn into.
use vstd::prelude::*;
use crate::key::Key;

verus! {

/// Why a request did not succeed.
#[derive(Clone, Copy, Debug, PartialEq, Eq, Structural)]
pub enum RequestError {
    /// The signer lacks the role that the requested mutation needs.
    Unauthorized,
    /// A required account is absent, or an account does not match the request.
    MalformedRequest,
    /// The outbound call failed; its error code is carried unchanged.
    ExternalFailure(u64),
}

/// The tree's authority account, as read at call time from the metadata program.
#[derive(Clone, Copy, Debug)]
pub struct TreeAuthority {
    /// Address of the account.
    pub address: Key,
    /// The tree's update authority.
    pub tree_creator: Key,
    /// The tree's delegate.
    pub tree_delegate: Key,
    /// Number of leaves minted so far; the next leaf gets this as its nonce.
    pub num_minted: u64,
}

/// A creator listed in a leaf's content.
#[derive(Clone, Copy, Debug)]
pub struct Creator {
    pub address: Key,
    pub verified: bool,
    /// Share of royalties, in percent.
    pub share: u8,
}

/// The collection a leaf belongs to.
#[derive(Clone, Copy, Debug)]
pub struct Collection {
    pub verified: bool,
    pub key: Key,
}

/// The kind of token a leaf stands for.
#[derive(Clone, Copy, Debug, PartialEq, Eq, Structural)]
pub enum TokenStandard {
    NonFungible,
    FungibleAsset,
    Fungible,
    NonFungibleEdition,
}

/// How uses of a token are consumed.
#[derive(Clone, Copy, Debug, PartialEq, Eq, Structural)]
pub enum UseMethod {
    Burn,
    Multiple,
    Single,
}

/// The uses left on a token.
#[derive(Clone, Copy, Debug, PartialEq, Eq, Structural)]
pub struct Uses {
    pub use_method: UseMethod,
    pub remaining: u64,
    pub total: u64,
}

/// The token program a leaf's token would live under.
#[derive(Clone, Copy, Debug, PartialEq, Eq, Structural)]
pub enum TokenProgramVersion {
    Original,
    Token2022,
}

/// The content descriptor of a leaf.
#[derive(Clone, Debug)]
pub struct LeafContent {
    pub name: String,
    pub symbol: String,
    pub uri: String,
    pub seller_fee_basis_points: u16,
    pub primary_sale_happened: bool,
    pub is_mutable: bool,
    pub edition_nonce: Option<u8>,
    pub token_standard: Option<TokenStandard>,
    pub collection: Option<Collection>,
    pub uses: Option<Uses>,
    pub token_program_version: TokenProgramVersion,
    pub creators: Vec<Creator>,
}

/// Payload of a mint request.
#[derive(Clone, Debug)]
pub struct MintParams {
    pub metadata: LeafContent,
}

/// Accounts supplied with a mint request.
#[derive(Clone, Debug)]
pub struct MintAccounts {
    pub tree_authority: Option<TreeAuthority>,
    pub merkle_tree: Key,
    pub leaf_owner: Key,
    pub leaf_delegate: Key,
    pub payer: Key,
    /// The acting signer.
    pub signer: Option<Key>,
    pub log_wrapper: Key,
    pub compression_program: Key,
    pub bubblegum_program: Key,
}

/// The claim that a verify request asserts, with the verified flag it sets.
#[derive(Clone, Copy, Debug)]
pub enum Claim {
    /// The named creator attests itself.
    Creator { creator: Key, verified: bool },
    /// The leaf belongs to the collection of the given mint.
    Collection { collection_mint: Key, verified: bool },
}

/// What a collection's metadata account records, read at call time.
#[derive(Clone, Copy, Debug)]
pub struct CollectionMetadata {
    pub update_authority: Key,
    pub mint: Key,
}

/// The accounts of a collection that a collection claim needs.
#[derive(Clone, Copy, Debug)]
pub struct CollectionAccounts {
    pub collection_mint: Key,
    /// Address of the collection's metadata account.
    pub metadata: Key,
    /// Contents of the collection's metadata account.
    pub metadata_contents: CollectionMetadata,
    pub edition: Key,
    /// Address of a collection authority record, where one is supplied.
    pub authority_record: Option<Key>,
    pub bubblegum_signer: Key,
    pub token_metadata_program: Key,
}

/// Payload of a verify request: the leaf as it stands, and the claim.
#[derive(Clone, Debug)]
pub struct VerifyParams {
    pub root: [u8; 32],
    pub data_hash: [u8; 32],
    pub creator_hash: [u8; 32],
    pub nonce: u64,
    pub index: u32,
    pub message: LeafContent,
    pub claim: Claim,
}

/// Accounts supplied with a verify request.
#[derive(Clone, Debug)]
pub struct VerifyAccounts {
    pub tree_authority: Option<TreeAuthority>,
    pub merkle_tree: Key,
    pub leaf_owner: Key,
    pub leaf_delegate: Key,
    pub payer: Key,
    /// The acting signer.
    pub signer: Option<Key>,
    /// The creator account, where the claim is a creator claim.
    pub creator: Option<Key>,
    /// The collection accounts, where the claim is a collection claim.
    pub collection: Option<CollectionAccounts>,
    /// The Merkle proof path, one node per account.
    pub proof: Vec<Key>,
    pub log_wrapper: Key,
    pub compression_program: Key,
    pub bubblegum_program: Key,
}

} // verus!
