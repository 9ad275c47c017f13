//! Reading the accounts whose contents a request depends on: the tree's authority
//! account and a collection's metadata account.
use vstd::prelude::*;
use crate::key::Key;
use crate::request::{CollectionMetadata, TreeAuthority};

verus! {

/// The unsigned integer whose little-endian encoding is the 8 bytes of `data` at `start`.
pub open spec fn u64_le_at(data: Seq<u8>, start: int) -> int {
    data[start] + 0x100 * data[start + 1] + 0x1_0000 * data[start + 2] + 0x100_0000 * data[start + 3]
        + 0x1_0000_0000 * data[start + 4] + 0x100_0000_0000 * data[start + 5] + 0x1_0000_0000_0000
        * data[start + 6] + 0x100_0000_0000_0000 * data[start + 7]
}

/// `data` decodes as a tree authority account: an 8-byte discriminator, the update
/// authority, the delegate, the mint capacity, the mint count, then a flag and a
/// two-valued state, each one byte that is 0 or 1.
pub open spec fn is_tree_config(data: Seq<u8>) -> bool {
    data.len() >= 90 && data[88] <= 1 && data[89] <= 1
}

/// The tree authority account at `address` whose contents are `data`.
pub open spec fn tree_config_of(address: Key, data: Seq<u8>, t: TreeAuthority) -> bool {
    &&& t.address == address
    &&& t.tree_creator@ == key_bytes_at(data, 8)
    &&& t.tree_delegate@ == key_bytes_at(data, 40)
    &&& t.num_minted == u64_le_at(data, 80)
}

/// Relies on `mpl_bubblegum::accounts::TreeConfig::from_bytes`, a borsh decoding of
/// the fields in order, which fails exactly when the input is too short or a
/// one-byte bool or enum holds a value above 1.
#[verifier::external_body]
fn decode_tree_config(address: &Key, data: &[u8]) -> (r: Option<TreeAuthority>)
    ensures
        r is Some <==> is_tree_config(data@),
        r matches Some(t) ==> tree_config_of(*address, data@, t),
{
    mpl_bubblegum::accounts::TreeConfig::from_bytes(data).ok().map(|c| TreeAuthority {
        address: *address,
        tree_creator: Key { bytes: c.tree_creator.to_bytes() },
        tree_delegate: Key { bytes: c.tree_delegate.to_bytes() },
        num_minted: c.num_minted,
    })
}

/// The tree authority account at `address`, read from its contents.
pub fn tree_authority_from_account(address: &Key, data: &[u8]) -> (r: Option<TreeAuthority>)
    ensures
        r is Some <==> is_tree_config(data@),
        r matches Some(t) ==> tree_config_of(*address, data@, t),
{
    decode_tree_config(address, data)
}

/// First byte of a version-one metadata account.
pub const METADATA_V1_TAG: u8 = 4;

/// The 32 bytes of `data` that start at `start`.
pub open spec fn key_bytes_at(data: Seq<u8>, start: int) -> Seq<u8> {
    data.subrange(start, start + 32)
}

/// `data` starts like a version-one metadata account: the tag, the update
/// authority, then the mint.
pub open spec fn is_metadata_account(data: Seq<u8>) -> bool {
    data.len() >= 65 && data[0] == METADATA_V1_TAG
}

fn read_key(data: &[u8], start: usize) -> (r: Key)
    requires
        start + 32 <= data@.len(),
    ensures
        r@ == key_bytes_at(data@, start as int),
{
    let n: usize = data.len();
    let mut bytes = [0u8; 32];
    let mut i: usize = 0;
    while i < 32
        invariant
            i <= 32,
            start + 32 <= n,
            n == data@.len(),
            bytes@.len() == 32,
            forall|j: int| 0 <= j < i ==> bytes@[j] == data@[start + j],
        decreases 32 - i,
    {
        bytes.set(i, data[start + i]);
        i = i + 1;
    }
    assert(bytes@ =~= key_bytes_at(data@, start as int));
    Key { bytes }
}

/// The update authority and mint recorded in a collection's metadata account.
pub fn collection_metadata_from_account(data: &[u8]) -> (r: Option<CollectionMetadata>)
    ensures
        r is Some <==> is_metadata_account(data@),
        r matches Some(c) ==> c.update_authority@ == key_bytes_at(data@, 1) && c.mint@
            == key_bytes_at(data@, 33),
{
    if data.len() < 65 || data[0] != METADATA_V1_TAG {
        return None;
    }
    Some(CollectionMetadata { update_authority: read_key(data, 1), mint: read_key(data, 33) })
}

/// First byte of a collection authority record.
pub const AUTHORITY_RECORD_TAG: u8 = 9;

/// The address of a supplied collection authority record, where its contents
/// are one.
pub fn authority_record_from_account(address: &Key, data: &[u8]) -> (r: Option<Key>)
    ensures
        r is Some <==> (data@.len() >= 1 && data@[0] == AUTHORITY_RECORD_TAG),
        r matches Some(k) ==> k == *address,
{
    if data.len() >= 1 && data[0] == AUTHORITY_RECORD_TAG {
        Some(*address)
    } else {
        None
    }
}

} // verus!
