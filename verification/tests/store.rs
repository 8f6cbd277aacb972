use nft_program::{
    Address, CollectionData, CollectionInfo, CollectionVerified, CreateCollection, CreatorData,
    MintNFT, MintingOutcome, NftData, NftError, NftInfo, RegistryStore, VerificationReply,
};

fn key(tag: u8) -> Address {
    Address::new([tag; 32])
}

fn collection_data(name: &str) -> CollectionData {
    CollectionData {
        name: String::from(name),
        symbol: String::from("ART"),
        uri: String::from("https://x/1.json"),
        seller_fee_basis_points: 500,
        creators: vec![CreatorData { address: key(0xA), verified: false, share: 100 }],
    }
}

fn nft_data(name: &str) -> NftData {
    NftData {
        name: String::from(name),
        symbol: String::from("PCE"),
        uri: String::from("https://x/2.json"),
        seller_fee_basis_points: 500,
        creators: vec![CreatorData { address: key(0xA), verified: false, share: 100 }],
    }
}

fn creating(mint: u8) -> CreateCollection {
    CreateCollection { user: key(1), mint: key(mint), bump: 254 }
}

fn minting(mint: u8, collection: u8) -> MintNFT {
    MintNFT { owner: key(3), mint: key(mint), collection_mint: key(collection), bump: 253 }
}

fn collection_record(mint: u8, count: u64) -> CollectionInfo {
    CollectionInfo {
        mint: key(mint),
        name: [0; 32],
        symbol: [0; 10],
        uri: [0; 200],
        creator: key(1),
        number_of_nfts: count,
        created_at: 0,
        bump: 0,
    }
}

fn nft_record(mint: u8, collection: u8, verified: bool) -> NftInfo {
    NftInfo {
        mint: key(mint),
        collection_mint: key(collection),
        name: [0; 32],
        symbol: [0; 10],
        uri: [0; 200],
        owner: key(3),
        verified,
        minted_at: 0,
        bump: 0,
    }
}

/// A store with the collections 20 and 21 and the assets 40 and 41 under 20
/// and 42 under 21, none verified.
fn stocked() -> RegistryStore {
    let mut store = RegistryStore::new();
    store.create_collection(&creating(20), collection_data("Art"), MintingOutcome::Completed, 1).unwrap();
    store.create_collection(&creating(21), collection_data("Craft"), MintingOutcome::Completed, 2).unwrap();
    store.mint_nft(&minting(40, 20), nft_data("One"), MintingOutcome::Completed, 3).unwrap();
    store.mint_nft(&minting(41, 20), nft_data("Two"), MintingOutcome::Completed, 4).unwrap();
    store.mint_nft(&minting(42, 21), nft_data("Three"), MintingOutcome::Completed, 5).unwrap();
    store
}

fn snapshot(store: &RegistryStore) -> (Vec<Option<CollectionInfo>>, Vec<Option<NftInfo>>) {
    let collections = (0..=255u8).map(|tag| store.collection(&key(tag))).collect();
    let nfts = (0..=255u8).map(|tag| store.nft(&key(tag))).collect();
    (collections, nfts)
}

#[test]
fn new_store_holds_nothing() {
    let store = RegistryStore::new();
    assert_eq!(store.collection(&key(1)), None);
    assert_eq!(store.nft(&key(1)), None);
}

#[test]
fn record_is_kept_under_its_mint() {
    let mut store = RegistryStore::new();
    assert_eq!(store.create_collection_record(collection_record(7, 3)), Ok(()));
    assert_eq!(store.create_nft_record(nft_record(8, 7, false)), Ok(()));
    assert_eq!(store.collection(&key(7)), Some(collection_record(7, 3)));
    assert_eq!(store.nft(&key(8)), Some(nft_record(8, 7, false)));
    assert_eq!(store.collection(&key(8)), None);
    assert_eq!(store.nft(&key(7)), None);
}

#[test]
fn record_is_created_once() {
    let mut store = RegistryStore::new();
    assert_eq!(store.create_collection_record(collection_record(7, 3)), Ok(()));
    assert_eq!(
        store.create_collection_record(collection_record(7, 9)),
        Err(NftError::RecordAlreadyExists)
    );
    assert_eq!(store.collection(&key(7)), Some(collection_record(7, 3)));
    assert_eq!(store.create_nft_record(nft_record(8, 7, false)), Ok(()));
    assert_eq!(
        store.create_nft_record(nft_record(8, 6, true)),
        Err(NftError::RecordAlreadyExists)
    );
    assert_eq!(store.nft(&key(8)), Some(nft_record(8, 7, false)));
}

#[test]
fn collection_and_asset_may_share_a_mint() {
    let mut store = RegistryStore::new();
    assert_eq!(store.create_collection_record(collection_record(7, 0)), Ok(()));
    assert_eq!(store.create_nft_record(nft_record(7, 7, false)), Ok(()));
    assert_eq!(store.collection(&key(7)), Some(collection_record(7, 0)));
    assert_eq!(store.nft(&key(7)), Some(nft_record(7, 7, false)));
}

#[test]
fn scenario_create_mint_verify_verify() {
    let mut store = RegistryStore::new();
    let data = CollectionData {
        name: String::from("Art"),
        symbol: String::from("ART"),
        uri: String::from("https://x/1.json"),
        seller_fee_basis_points: 500,
        creators: vec![CreatorData { address: key(0xA), verified: false, share: 100 }],
    };
    let created = store.create_collection(&creating(20), data, MintingOutcome::Completed, 10);
    assert!(created.is_ok());
    assert_eq!(store.collection(&key(20)).unwrap().number_of_nfts, 0);

    let minted = store.mint_nft(&minting(40, 20), nft_data("One"), MintingOutcome::Completed, 11);
    assert!(minted.is_ok());
    assert!(!store.nft(&key(40)).unwrap().verified);

    let verified = store.verify_collection(key(5), key(40), key(20), VerificationReply::Confirmed, 12);
    assert_eq!(
        verified,
        Ok(CollectionVerified {
            nft_mint: key(40),
            collection_mint: key(20),
            authority: key(5),
            verified_at: 12,
        })
    );
    assert!(store.nft(&key(40)).unwrap().verified);
    assert_eq!(store.collection(&key(20)).unwrap().number_of_nfts, 1);

    let again = store.verify_collection(key(5), key(40), key(20), VerificationReply::Confirmed, 13);
    assert!(again.is_ok());
    assert!(store.nft(&key(40)).unwrap().verified);
    assert_eq!(store.collection(&key(20)).unwrap().number_of_nfts, 1);
}

#[test]
fn creating_a_collection_twice_is_refused() {
    let mut store = stocked();
    let before = snapshot(&store);
    assert_eq!(
        store.create_collection(&creating(20), collection_data("Again"), MintingOutcome::Completed, 9),
        Err(NftError::RecordAlreadyExists)
    );
    // The existing record is found before the submission is looked at.
    assert_eq!(
        store.create_collection(&creating(20), collection_data(""), MintingOutcome::MintFailed, 9),
        Err(NftError::RecordAlreadyExists)
    );
    assert_eq!(snapshot(&store), before);
}

#[test]
fn minting_an_asset_twice_is_refused() {
    let mut store = stocked();
    let before = snapshot(&store);
    assert_eq!(
        store.mint_nft(&minting(40, 21), nft_data("Again"), MintingOutcome::Completed, 9),
        Err(NftError::RecordAlreadyExists)
    );
    assert_eq!(snapshot(&store), before);
}

#[test]
fn refused_submission_leaves_no_record() {
    let mut store = stocked();
    let before = snapshot(&store);
    assert_eq!(
        store.create_collection(&creating(22), collection_data(""), MintingOutcome::Completed, 9),
        Err(NftError::InvalidName)
    );
    assert_eq!(
        store.create_collection(&creating(22), collection_data("Art"), MintingOutcome::MetadataFailed, 9),
        Err(NftError::InvalidUri)
    );
    assert_eq!(
        store.mint_nft(&minting(43, 20), nft_data(&"n".repeat(33)), MintingOutcome::Completed, 9),
        Err(NftError::InvalidName)
    );
    assert_eq!(
        store.mint_nft(&minting(43, 20), nft_data("Four"), MintingOutcome::MintFailed, 9),
        Err(NftError::InvalidName)
    );
    assert_eq!(snapshot(&store), before);
    assert_eq!(store.collection(&key(22)), None);
    assert_eq!(store.nft(&key(43)), None);
}

#[test]
fn asset_can_be_minted_under_a_collection_without_a_record() {
    let mut store = RegistryStore::new();
    assert!(store.mint_nft(&minting(40, 99), nft_data("One"), MintingOutcome::Completed, 1).is_ok());
    assert_eq!(store.nft(&key(40)).unwrap().collection_mint, key(99));
    let before = snapshot(&store);
    assert_eq!(
        store.verify_collection(key(5), key(40), key(99), VerificationReply::Confirmed, 2),
        Err(NftError::InvalidCollectionMint)
    );
    assert_eq!(snapshot(&store), before);
}

#[test]
fn verifying_an_unknown_asset_is_refused() {
    let mut store = stocked();
    let before = snapshot(&store);
    assert_eq!(
        store.verify_collection(key(5), key(77), key(20), VerificationReply::Confirmed, 9),
        Err(NftError::RecordNotFound)
    );
    assert_eq!(snapshot(&store), before);
}

#[test]
fn verifying_under_another_collection_is_refused() {
    let mut store = stocked();
    let before = snapshot(&store);
    for reply in [VerificationReply::Confirmed, VerificationReply::Refused] {
        // 21 has a record but is not the collection of 40; 99 has none.
        assert_eq!(
            store.verify_collection(key(5), key(40), key(21), reply, 9),
            Err(NftError::InvalidCollectionMint)
        );
        assert_eq!(
            store.verify_collection(key(5), key(40), key(99), reply, 9),
            Err(NftError::InvalidCollectionMint)
        );
    }
    assert_eq!(snapshot(&store), before);
}

#[test]
fn refusal_of_the_service_leaves_the_store_as_it_was() {
    let mut store = stocked();
    let before = snapshot(&store);
    assert_eq!(
        store.verify_collection(key(5), key(40), key(20), VerificationReply::Refused, 9),
        Err(NftError::InvalidUri)
    );
    assert_eq!(snapshot(&store), before);
}

#[test]
fn each_asset_is_counted_once_in_its_own_collection() {
    let mut store = stocked();
    for _ in 0..3 {
        assert!(store.verify_collection(key(5), key(40), key(20), VerificationReply::Confirmed, 9).is_ok());
    }
    assert_eq!(store.collection(&key(20)).unwrap().number_of_nfts, 1);
    assert_eq!(store.collection(&key(21)).unwrap().number_of_nfts, 0);
    assert!(store.verify_collection(key(6), key(41), key(20), VerificationReply::Confirmed, 10).is_ok());
    assert!(store.verify_collection(key(6), key(42), key(21), VerificationReply::Confirmed, 11).is_ok());
    assert!(store.verify_collection(key(7), key(41), key(20), VerificationReply::Confirmed, 12).is_ok());
    assert_eq!(store.collection(&key(20)).unwrap().number_of_nfts, 2);
    assert_eq!(store.collection(&key(21)).unwrap().number_of_nfts, 1);
    assert!(store.nft(&key(40)).unwrap().verified);
    assert!(store.nft(&key(41)).unwrap().verified);
    assert!(store.nft(&key(42)).unwrap().verified);
}

#[test]
fn verification_touches_only_its_two_records() {
    let mut store = stocked();
    let (collections_before, nfts_before) = snapshot(&store);
    assert!(store.verify_collection(key(5), key(41), key(20), VerificationReply::Confirmed, 9).is_ok());
    let (collections_after, nfts_after) = snapshot(&store);
    for tag in 0..=255usize {
        if tag == 20 {
            let mut expected = collections_before[tag].unwrap();
            expected.number_of_nfts = 1;
            assert_eq!(collections_after[tag], Some(expected));
        } else {
            assert_eq!(collections_after[tag], collections_before[tag]);
        }
        if tag == 41 {
            let mut expected = nfts_before[tag].unwrap();
            expected.verified = true;
            assert_eq!(nfts_after[tag], Some(expected));
        } else {
            assert_eq!(nfts_after[tag], nfts_before[tag]);
        }
    }
}

#[test]
fn full_count_refuses_a_new_member() {
    let mut store = RegistryStore::new();
    store.create_collection_record(collection_record(20, u64::MAX)).unwrap();
    store.create_nft_record(nft_record(40, 20, false)).unwrap();
    store.create_nft_record(nft_record(41, 20, true)).unwrap();
    let before = snapshot(&store);
    assert_eq!(
        store.verify_collection(key(5), key(40), key(20), VerificationReply::Confirmed, 9),
        Err(NftError::CounterOverflow)
    );
    assert_eq!(snapshot(&store), before);
    assert!(store.verify_collection(key(5), key(41), key(20), VerificationReply::Confirmed, 9).is_ok());
    assert_eq!(snapshot(&store), before);
}
