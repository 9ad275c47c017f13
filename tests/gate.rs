use compressed_nft::accounts::{
    authority_record_from_account, collection_metadata_from_account, tree_authority_from_account,
};
use compressed_nft::actuator::{complete, complete_mint, mint, verify};
use compressed_nft::gate::{authorize_mint, authorize_verify};
use compressed_nft::key::Key;
use compressed_nft::programs::{token_metadata_program_id, MplBubblegum};
use compressed_nft::request::{
    Claim, Collection, CollectionAccounts, CollectionMetadata, Creator, LeafContent, MintAccounts, MintParams,
    RequestError, TokenProgramVersion, TokenStandard, TreeAuthority, VerifyAccounts, VerifyParams,
};
use mpl_bubblegum::types::{MetadataArgs, TokenProgramVersion as Tpv};
use solana_program::pubkey::Pubkey;

const TREE: [u8; 32] = [7; 32];
const CREATOR: [u8; 32] = [1; 32];
const DELEGATE: [u8; 32] = [2; 32];
const OWNER: [u8; 32] = [3; 32];
const PAYER: [u8; 32] = [4; 32];
const STRANGER: [u8; 32] = [5; 32];
const ARTIST: [u8; 32] = [6; 32];
const COLLECTION_MINT: [u8; 32] = [8; 32];
const COLLECTION_AUTHORITY: [u8; 32] = [9; 32];
const COLLECTION_DELEGATE: [u8; 32] = [15; 32];

/// The token-metadata program that bubblegum's own instructions default to.
fn token_metadata() -> Pubkey {
    let k = Pubkey::new_from_array([20; 32]);
    let ix = mpl_bubblegum::instructions::DecompressV1Builder::new()
        .voucher(k)
        .leaf_owner(k)
        .token_account(k)
        .mint(k)
        .mint_authority(k)
        .metadata_account(k)
        .master_edition(k)
        .metadata(MetadataArgs {
            name: String::new(),
            symbol: String::new(),
            uri: String::new(),
            seller_fee_basis_points: 0,
            primary_sale_happened: false,
            is_mutable: false,
            edition_nonce: None,
            token_standard: None,
            collection: None,
            uses: None,
            token_program_version: Tpv::Original,
            creators: vec![],
        })
        .instruction();
    ix.accounts[9].pubkey
}

fn collection_metadata_address() -> Key {
    let tm = token_metadata();
    let (a, _) = Pubkey::find_program_address(&[b"metadata", tm.as_ref(), &COLLECTION_MINT[..]], &tm);
    Key::new(a.to_bytes())
}

fn authority_record(authority: [u8; 32]) -> Key {
    let tm = token_metadata();
    let seeds: [&[u8]; 5] =
        [b"metadata", tm.as_ref(), &COLLECTION_MINT[..], b"collection_authority", &authority[..]];
    let (a, _) = Pubkey::find_program_address(&seeds, &tm);
    Key::new(a.to_bytes())
}

fn tree_config_address() -> Key {
    let (a, _) = Pubkey::find_program_address(&[&TREE[..]], &mpl_bubblegum::ID);
    Key::new(a.to_bytes())
}

fn tree_authority(num_minted: u64) -> TreeAuthority {
    TreeAuthority {
        address: tree_config_address(),
        tree_creator: Key::new(CREATOR),
        tree_delegate: Key::new(DELEGATE),
        num_minted,
    }
}

fn compression_id() -> Key {
    Key::new(spl_account_compression::ID.to_bytes())
}

fn noop_id() -> Key {
    Key::new(<spl_account_compression::Noop as anchor_lang::Id>::id().to_bytes())
}

fn bubblegum_id() -> Key {
    Key::new(mpl_bubblegum::ID.to_bytes())
}

fn mint_accounts(signer: [u8; 32]) -> MintAccounts {
    MintAccounts {
        tree_authority: Some(tree_authority(0)),
        merkle_tree: Key::new(TREE),
        leaf_owner: Key::new(OWNER),
        leaf_delegate: Key::new(OWNER),
        payer: Key::new(PAYER),
        signer: Some(Key::new(signer)),
        log_wrapper: noop_id(),
        compression_program: compression_id(),
        bubblegum_program: bubblegum_id(),
    }
}

fn content() -> LeafContent {
    LeafContent {
        name: "Leaf".to_string(),
        symbol: "LF".to_string(),
        uri: "https://example.com/leaf.json".to_string(),
        seller_fee_basis_points: 500,
        primary_sale_happened: false,
        is_mutable: true,
        edition_nonce: None,
        token_standard: Some(TokenStandard::NonFungible),
        collection: Some(Collection { verified: false, key: Key::new(COLLECTION_MINT) }),
        uses: None,
        token_program_version: TokenProgramVersion::Original,
        creators: vec![Creator { address: Key::new(ARTIST), verified: false, share: 100 }],
    }
}

fn verify_accounts(
    signer: [u8; 32],
    creator: Option<[u8; 32]>,
    collection: Option<CollectionAccounts>,
) -> VerifyAccounts {
    VerifyAccounts {
        tree_authority: Some(tree_authority(3)),
        merkle_tree: Key::new(TREE),
        leaf_owner: Key::new(OWNER),
        leaf_delegate: Key::new(OWNER),
        payer: Key::new(PAYER),
        signer: Some(Key::new(signer)),
        creator: creator.map(Key::new),
        collection,
        proof: vec![Key::new([10; 32]), Key::new([11; 32])],
        log_wrapper: noop_id(),
        compression_program: compression_id(),
        bubblegum_program: bubblegum_id(),
    }
}

fn verify_params(claim: Claim) -> VerifyParams {
    VerifyParams {
        root: [12; 32],
        data_hash: [13; 32],
        creator_hash: [14; 32],
        nonce: 2,
        index: 2,
        message: content(),
        claim,
    }
}

fn creator_claim() -> Claim {
    Claim::Creator { creator: Key::new(ARTIST), verified: true }
}

fn collection_claim() -> Claim {
    Claim::Collection { collection_mint: Key::new(COLLECTION_MINT), verified: true }
}

fn collection_accounts(record: Option<Key>) -> CollectionAccounts {
    CollectionAccounts {
        collection_mint: Key::new(COLLECTION_MINT),
        metadata: collection_metadata_address(),
        metadata_contents: CollectionMetadata {
            update_authority: Key::new(COLLECTION_AUTHORITY),
            mint: Key::new(COLLECTION_MINT),
        },
        edition: Key::new([16; 32]),
        authority_record: record,
        bubblegum_signer: Key::new([17; 32]),
        token_metadata_program: Key::new(token_metadata().to_bytes()),
    }
}

#[test]
fn mint_by_tree_delegate_dispatches_and_appends() {
    let accounts = mint_accounts(DELEGATE);
    let call = mint(&accounts, MintParams { metadata: content() }).unwrap();
    assert_eq!(call.tree_config.to_bytes(), tree_config_address().to_bytes());
    assert_eq!(call.tree_creator_or_delegate.to_bytes(), DELEGATE);
    assert_eq!(call.merkle_tree.to_bytes(), TREE);
    assert_eq!(call.leaf_owner.to_bytes(), OWNER);
    assert_eq!(call.payer.to_bytes(), PAYER);
    assert_eq!(call.metadata.name, "Leaf");
    assert_eq!(complete_mint(&accounts.tree_authority.unwrap(), Ok(())), Ok(0));
}

#[test]
fn mint_by_tree_creator_is_permitted() {
    assert_eq!(authorize_mint(&mint_accounts(CREATOR)), Ok(()));
}

#[test]
fn mint_by_unrelated_key_is_unauthorized() {
    let r = mint(&mint_accounts(STRANGER), MintParams { metadata: content() });
    assert!(matches!(r, Err(RequestError::Unauthorized)));
}

#[test]
fn mint_without_signer_is_malformed() {
    let mut accounts = mint_accounts(DELEGATE);
    accounts.signer = None;
    assert_eq!(authorize_mint(&accounts), Err(RequestError::MalformedRequest));
}

#[test]
fn mint_without_tree_authority_is_malformed() {
    let mut accounts = mint_accounts(STRANGER);
    accounts.tree_authority = None;
    assert_eq!(authorize_mint(&accounts), Err(RequestError::MalformedRequest));
}

#[test]
fn mint_with_foreign_tree_authority_is_malformed() {
    let mut accounts = mint_accounts(DELEGATE);
    let mut ta = tree_authority(0);
    ta.address = Key::new(TREE);
    accounts.tree_authority = Some(ta);
    assert_eq!(authorize_mint(&accounts), Err(RequestError::MalformedRequest));
}

#[test]
fn mint_with_wrong_programs_is_malformed() {
    let mut a = mint_accounts(DELEGATE);
    a.compression_program = noop_id();
    assert_eq!(authorize_mint(&a), Err(RequestError::MalformedRequest));
    let mut b = mint_accounts(DELEGATE);
    b.log_wrapper = compression_id();
    assert_eq!(authorize_mint(&b), Err(RequestError::MalformedRequest));
    let mut c = mint_accounts(DELEGATE);
    c.bubblegum_program = Key::new(STRANGER);
    assert_eq!(authorize_mint(&c), Err(RequestError::MalformedRequest));
}

#[test]
fn mint_failure_outside_is_surfaced_unchanged() {
    assert_eq!(complete_mint(&tree_authority(4), Err(6001)), Err(RequestError::ExternalFailure(6001)));
}

#[test]
fn same_mint_twice_appends_two_distinct_leaves() {
    let first = mint_accounts(DELEGATE);
    let call1 = mint(&first, MintParams { metadata: content() }).unwrap();
    let leaf1 = complete_mint(&first.tree_authority.unwrap(), Ok(())).unwrap();
    let mut second = mint_accounts(DELEGATE);
    second.tree_authority = Some(tree_authority(1));
    let call2 = mint(&second, MintParams { metadata: content() }).unwrap();
    let leaf2 = complete_mint(&second.tree_authority.unwrap(), Ok(())).unwrap();
    assert_eq!(call1.tree_config.to_bytes(), call2.tree_config.to_bytes());
    assert_eq!(call1.metadata.uri, call2.metadata.uri);
    assert_eq!(leaf1, 0);
    assert_eq!(leaf2, 1);
    assert_ne!(leaf1, leaf2);
}

#[test]
fn verify_creator_self_attestation_dispatches() {
    let accounts = verify_accounts(ARTIST, Some(ARTIST), None);
    let call = verify(accounts, verify_params(creator_claim())).unwrap();
    assert_eq!(call.attester.to_bytes(), ARTIST);
    assert_eq!(call.proof.len(), 2);
    assert_eq!(call.proof[1].to_bytes(), [11; 32]);
    assert_eq!(call.root, [12; 32]);
    assert_eq!(call.nonce, 2);
    assert!(call.collection.is_none());
    assert!(matches!(call.claim, Claim::Creator { verified: true, .. }));
    assert_eq!(complete(Ok(())), Ok(()));
}

#[test]
fn verify_with_stale_proof_is_external_failure() {
    let r = verify(verify_accounts(ARTIST, Some(ARTIST), None), verify_params(creator_claim()));
    assert!(r.is_ok());
    assert_eq!(complete(Err(6005)), Err(RequestError::ExternalFailure(6005)));
}

#[test]
fn verify_creator_by_other_signer_is_unauthorized() {
    let r = authorize_verify(&verify_accounts(STRANGER, Some(ARTIST), None), &creator_claim());
    assert_eq!(r, Err(RequestError::Unauthorized));
}

#[test]
fn verify_creator_without_its_account_is_malformed() {
    let absent = authorize_verify(&verify_accounts(ARTIST, None, None), &creator_claim());
    assert_eq!(absent, Err(RequestError::MalformedRequest));
    let other = authorize_verify(&verify_accounts(ARTIST, Some(STRANGER), None), &creator_claim());
    assert_eq!(other, Err(RequestError::MalformedRequest));
    let unsigned = authorize_verify(&verify_accounts(STRANGER, None, None), &creator_claim());
    assert_eq!(unsigned, Err(RequestError::MalformedRequest));
}

#[test]
fn verify_creator_ignores_collection_state() {
    let with = verify_accounts(ARTIST, Some(ARTIST), Some(collection_accounts(None)));
    let without = verify_accounts(ARTIST, Some(ARTIST), None);
    let call1 = verify(with, verify_params(creator_claim())).unwrap();
    let call2 = verify(without, verify_params(creator_claim())).unwrap();
    assert!(call1.collection.is_none());
    assert!(call2.collection.is_none());
    assert_eq!(call1.attester.to_bytes(), call2.attester.to_bytes());
    assert_eq!(call1.tree_config.to_bytes(), call2.tree_config.to_bytes());
}

#[test]
fn verify_collection_by_its_authority_is_permitted() {
    let accounts = verify_accounts(COLLECTION_AUTHORITY, None, Some(collection_accounts(None)));
    let call = verify(accounts, verify_params(collection_claim())).unwrap();
    let c = call.collection.unwrap();
    assert_eq!(c.collection_mint.to_bytes(), COLLECTION_MINT);
    assert_eq!(c.metadata.to_bytes(), collection_metadata_address().to_bytes());
    assert_eq!(call.attester.to_bytes(), COLLECTION_AUTHORITY);
}

#[test]
fn verify_collection_by_recorded_delegate_is_permitted() {
    let record = Some(authority_record(COLLECTION_DELEGATE));
    let accounts = verify_accounts(COLLECTION_DELEGATE, None, Some(collection_accounts(record)));
    assert_eq!(authorize_verify(&accounts, &collection_claim()), Ok(()));
}

#[test]
fn verify_collection_with_record_of_another_is_unauthorized() {
    let record = Some(authority_record(COLLECTION_DELEGATE));
    let accounts = verify_accounts(STRANGER, None, Some(collection_accounts(record)));
    assert_eq!(authorize_verify(&accounts, &collection_claim()), Err(RequestError::Unauthorized));
    let none = verify_accounts(COLLECTION_DELEGATE, None, Some(collection_accounts(None)));
    assert_eq!(authorize_verify(&none, &collection_claim()), Err(RequestError::Unauthorized));
}

#[test]
fn verify_collection_by_creator_is_unauthorized() {
    let accounts = verify_accounts(ARTIST, Some(ARTIST), Some(collection_accounts(None)));
    assert_eq!(authorize_verify(&accounts, &collection_claim()), Err(RequestError::Unauthorized));
}

#[test]
fn verify_collection_without_its_accounts_is_malformed() {
    let r = authorize_verify(&verify_accounts(COLLECTION_AUTHORITY, None, None), &collection_claim());
    assert_eq!(r, Err(RequestError::MalformedRequest));
    let mut other_mint = collection_accounts(None);
    other_mint.collection_mint = Key::new(STRANGER);
    let r2 = authorize_verify(&verify_accounts(COLLECTION_AUTHORITY, None, Some(other_mint)), &collection_claim());
    assert_eq!(r2, Err(RequestError::MalformedRequest));
}

#[test]
fn verify_collection_with_foreign_metadata_is_malformed() {
    let mut wrong_address = collection_accounts(None);
    wrong_address.metadata = Key::new(COLLECTION_MINT);
    let a = verify_accounts(COLLECTION_AUTHORITY, None, Some(wrong_address));
    assert_eq!(authorize_verify(&a, &collection_claim()), Err(RequestError::MalformedRequest));
    let mut wrong_mint = collection_accounts(None);
    wrong_mint.metadata_contents.mint = Key::new(STRANGER);
    let b = verify_accounts(COLLECTION_AUTHORITY, None, Some(wrong_mint));
    assert_eq!(authorize_verify(&b, &collection_claim()), Err(RequestError::MalformedRequest));
    let mut wrong_program = collection_accounts(None);
    wrong_program.token_metadata_program = bubblegum_id();
    let c = verify_accounts(COLLECTION_AUTHORITY, None, Some(wrong_program));
    assert_eq!(authorize_verify(&c, &collection_claim()), Err(RequestError::MalformedRequest));
}

#[test]
fn verify_without_signer_is_malformed() {
    let mut accounts = verify_accounts(ARTIST, Some(ARTIST), None);
    accounts.signer = None;
    assert_eq!(authorize_verify(&accounts, &creator_claim()), Err(RequestError::MalformedRequest));
}

#[test]
fn bubblegum_id_matches_program() {
    assert_eq!(MplBubblegum::id().to_bytes(), mpl_bubblegum::ID.to_bytes());
}

#[test]
fn keys_compare_by_bytes() {
    let mut b = CREATOR;
    assert!(Key::new(CREATOR).same_as(&Key::new(b)));
    b[31] = 0;
    assert!(!Key::new(CREATOR).same_as(&Key::new(b)));
}

#[test]
fn tree_authority_is_read_from_account_bytes() {
    let mut data = vec![0u8; 96];
    data[8..40].copy_from_slice(&CREATOR);
    data[40..72].copy_from_slice(&DELEGATE);
    data[72..80].copy_from_slice(&1024u64.to_le_bytes());
    data[80..88].copy_from_slice(&0x0102u64.to_le_bytes());
    let ta = tree_authority_from_account(&tree_config_address(), &data).unwrap();
    assert_eq!(ta.tree_creator.to_bytes(), CREATOR);
    assert_eq!(ta.tree_delegate.to_bytes(), DELEGATE);
    assert_eq!(ta.num_minted, 0x0102);
    assert_eq!(ta.address.to_bytes(), tree_config_address().to_bytes());
}

#[test]
fn tree_authority_with_bad_bytes_is_absent() {
    assert!(tree_authority_from_account(&Key::new(TREE), &[0u8; 89]).is_none());
    let mut data = vec![0u8; 96];
    data[88] = 2;
    assert!(tree_authority_from_account(&Key::new(TREE), &data).is_none());
    data[88] = 1;
    data[89] = 1;
    assert!(tree_authority_from_account(&Key::new(TREE), &data).is_some());
}

#[test]
fn collection_metadata_is_read_from_account() {
    let mut data = vec![0u8; 120];
    data[0] = 4;
    data[1..33].copy_from_slice(&COLLECTION_AUTHORITY);
    data[33..65].copy_from_slice(&COLLECTION_MINT);
    let c = collection_metadata_from_account(&data).unwrap();
    assert_eq!(c.update_authority.to_bytes(), COLLECTION_AUTHORITY);
    assert_eq!(c.mint.to_bytes(), COLLECTION_MINT);
    data[0] = 5;
    assert!(collection_metadata_from_account(&data).is_none());
    assert!(collection_metadata_from_account(&[4u8; 64]).is_none());
}

#[test]
fn authority_record_is_recognized_by_its_tag() {
    let address = authority_record(COLLECTION_DELEGATE);
    let r = authority_record_from_account(&address, &[9, 255, 0]).unwrap();
    assert_eq!(r.to_bytes(), address.to_bytes());
    assert!(authority_record_from_account(&address, &[4, 255, 0]).is_none());
    assert!(authority_record_from_account(&address, &[]).is_none());
}

#[test]
fn token_metadata_id_matches_bubblegum_default() {
    assert_eq!(token_metadata_program_id().to_bytes(), token_metadata().to_bytes());
    let expected = "metaqbxxUerdq28cj1RbAWkYQm3ybzjb6a8bt518x1s";
    assert_eq!(token_metadata().to_string(), expected);
}
