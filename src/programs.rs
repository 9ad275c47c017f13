//! Addresses of the outside programs that requests are forwarded to.
use vstd::prelude::*;
use crate::key::Key;

verus! {

/// The metadata program's address, `BGUMAp9Gq7iTEuizy4pqaxsTyUCBK68MDfK752saRPUY`.
pub open spec fn bubblegum_address() -> Seq<u8> {
    seq![
        152u8, 139, 128, 235, 121, 53, 40, 105, 178, 36, 116, 95, 89, 221, 191, 138,
        38, 88, 202, 19, 220, 104, 129, 33, 38, 53, 28, 174, 7, 193, 165, 165,
    ]
}

/// The compression program's address, `cmtDvXumGCrqC1Age74AVPhSRVXJMd8PJS91L8KbNCK`.
pub open spec fn compression_address() -> Seq<u8> {
    seq![
        9u8, 42, 19, 238, 149, 196, 28, 186, 8, 166, 127, 90, 198, 126, 141, 247,
        225, 218, 17, 98, 94, 29, 100, 19, 127, 143, 79, 35, 131, 3, 127, 20,
    ]
}

/// The log wrapper program's address, `noopb9bkMVfRPU8AsbpTUg8AQkHtKwMYZiFUjNRtMmV`.
pub open spec fn noop_address() -> Seq<u8> {
    seq![
        11u8, 188, 15, 192, 187, 71, 202, 47, 116, 196, 17, 46, 148, 171, 19, 207,
        163, 198, 52, 229, 220, 23, 234, 203, 3, 205, 26, 35, 205, 126, 120, 124,
    ]
}

/// The token-metadata program's address, `metaqbxxUerdq28cj1RbAWkYQm3ybzjb6a8bt518x1s`,
/// the program that the metadata program's collection instructions call.
pub open spec fn token_metadata_address() -> Seq<u8> {
    seq![
        11u8, 112, 101, 177, 227, 209, 124, 69, 56, 157, 82, 127, 107, 4, 195, 205,
        88, 184, 108, 115, 26, 160, 253, 181, 73, 182, 209, 188, 3, 248, 41, 70,
    ]
}

/// What `Pubkey::try_find_program_address(seeds, program)` returns, as address bytes.
pub uninterp spec fn program_address_of(seeds: Seq<Seq<u8>>, program: Seq<u8>) -> Option<Seq<u8>>;

/// Relies on `mpl_bubblegum::ID`, declared as `BGUMAp9Gq7iTEuizy4pqaxsTyUCBK68MDfK752saRPUY`.
#[verifier::external_body]
pub(crate) fn bubblegum_program_id() -> (r: Key)
    ensures
        r@ == bubblegum_address(),
{
    Key { bytes: mpl_bubblegum::ID.to_bytes() }
}

/// Relies on `spl_account_compression::ID`, declared as
/// `cmtDvXumGCrqC1Age74AVPhSRVXJMd8PJS91L8KbNCK`.
#[verifier::external_body]
pub(crate) fn compression_program_id() -> (r: Key)
    ensures
        r@ == compression_address(),
{
    Key { bytes: spl_account_compression::ID.to_bytes() }
}

/// Relies on `<spl_account_compression::Noop as anchor_lang::Id>::id`, which returns
/// `spl_noop::id()`, declared as `noopb9bkMVfRPU8AsbpTUg8AQkHtKwMYZiFUjNRtMmV`.
#[verifier::external_body]
pub(crate) fn noop_program_id() -> (r: Key)
    ensures
        r@ == noop_address(),
{
    Key { bytes: <spl_account_compression::Noop as anchor_lang::Id>::id().to_bytes() }
}

/// Relies on `solana_program::pubkey::Pubkey::try_find_program_address`: the address
/// depends on the seeds and the program alone; too many or too long seeds give `None`.
#[verifier::external_body]
pub(crate) fn find_program_address(seeds: &Vec<Vec<u8>>, program: &Key) -> (r: Option<Key>)
    ensures
        r matches Some(k) ==> program_address_of(seeds.deep_view(), program@) == Some(k@),
        r is None ==> program_address_of(seeds.deep_view(), program@) is None,
{
    let p = solana_program::pubkey::Pubkey::new_from_array(program.bytes);
    let s: Vec<&[u8]> = seeds.iter().map(|v| v.as_slice()).collect();
    solana_program::pubkey::Pubkey::try_find_program_address(&s, &p)
        .map(|(a, _)| Key { bytes: a.to_bytes() })
}

/// The token-metadata program's address.
pub fn token_metadata_program_id() -> (r: Key)
    ensures
        r@ == token_metadata_address(),
{
    let r = Key { bytes: [
        11u8, 112, 101, 177, 227, 209, 124, 69, 56, 157, 82, 127, 107, 4, 195, 205,
        88, 184, 108, 115, 26, 160, 253, 181, 73, 182, 209, 188, 3, 248, 41, 70,
    ] };
    assert(r@ =~= token_metadata_address());
    r
}

/// First seed of every token-metadata address: `metadata`.
pub open spec fn metadata_seed() -> Seq<u8> {
    seq![109u8, 101, 116, 97, 100, 97, 116, 97]
}

/// Seed that marks a collection authority record: `collection_authority`.
pub open spec fn collection_authority_seed() -> Seq<u8> {
    seq![99u8, 111, 108, 108, 101, 99, 116, 105, 111, 110, 95, 97, 117, 116, 104, 111, 114, 105, 116, 121]
}

/// Seeds of the tree's authority account, under the metadata program.
pub open spec fn tree_config_seeds(tree: Seq<u8>) -> Seq<Seq<u8>> {
    seq![tree]
}

/// Seeds of a mint's metadata account, under the token-metadata program.
pub open spec fn metadata_seeds(mint: Seq<u8>) -> Seq<Seq<u8>> {
    seq![metadata_seed(), token_metadata_address(), mint]
}

/// Seeds of the record that makes `authority` a delegate of the collection `mint`,
/// under the token-metadata program.
pub open spec fn authority_record_seeds(mint: Seq<u8>, authority: Seq<u8>) -> Seq<Seq<u8>> {
    seq![metadata_seed(), token_metadata_address(), mint, collection_authority_seed(), authority]
}

/// The address of the tree's authority account.
pub fn tree_config_address(tree: &Key) -> (r: Option<Key>)
    ensures
        r matches Some(k) ==> program_address_of(tree_config_seeds(tree@), bubblegum_address()) == Some(k@),
        r is None ==> program_address_of(tree_config_seeds(tree@), bubblegum_address()) is None,
{
    let seeds: Vec<Vec<u8>> = vec![tree.to_vec()];
    assert(seeds@[0].deep_view() =~= tree@);
    assert(seeds.deep_view() =~= tree_config_seeds(tree@));
    find_program_address(&seeds, &bubblegum_program_id())
}

/// The address of a mint's metadata account.
pub fn metadata_address(mint: &Key) -> (r: Option<Key>)
    ensures
        r matches Some(k) ==> program_address_of(metadata_seeds(mint@), token_metadata_address()) == Some(k@),
        r is None ==> program_address_of(metadata_seeds(mint@), token_metadata_address()) is None,
{
    let tm = token_metadata_program_id();
    let seeds: Vec<Vec<u8>> = vec![
        vec![109u8, 101, 116, 97, 100, 97, 116, 97],
        tm.to_vec(),
        mint.to_vec(),
    ];
    assert(seeds@[0].deep_view() =~= metadata_seed());
    assert(seeds@[1].deep_view() =~= tm@);
    assert(seeds@[2].deep_view() =~= mint@);
    assert(seeds.deep_view() =~= metadata_seeds(mint@));
    find_program_address(&seeds, &tm)
}

/// The address of the record that would make `authority` a delegate of the
/// collection `mint`.
pub fn authority_record_address(mint: &Key, authority: &Key) -> (r: Option<Key>)
    ensures
        r matches Some(k) ==> program_address_of(authority_record_seeds(mint@, authority@), token_metadata_address()) == Some(k@),
        r is None ==> program_address_of(authority_record_seeds(mint@, authority@), token_metadata_address()) is None,
{
    let tm = token_metadata_program_id();
    let seeds: Vec<Vec<u8>> = vec![
        vec![109u8, 101, 116, 97, 100, 97, 116, 97],
        tm.to_vec(),
        mint.to_vec(),
        vec![99u8, 111, 108, 108, 101, 99, 116, 105, 111, 110, 95, 97, 117, 116, 104, 111, 114, 105, 116, 121],
        authority.to_vec(),
    ];
    assert(seeds@[0].deep_view() =~= metadata_seed());
    assert(seeds@[1].deep_view() =~= tm@);
    assert(seeds@[2].deep_view() =~= mint@);
    assert(seeds@[3].deep_view() =~= collection_authority_seed());
    assert(seeds@[4].deep_view() =~= authority@);
    assert(seeds.deep_view() =~= authority_record_seeds(mint@, authority@));
    find_program_address(&seeds, &tm)
}

/// The metadata program's identity.
#[derive(Clone, Copy, Debug)]
pub struct MplBubblegum;

impl MplBubblegum {
    /// The metadata program's address.
    pub fn id() -> (r: Key)
        ensures
            r@ == bubblegum_address(),
    {
        bubblegum_program_id()
    }
}

} // verus!
