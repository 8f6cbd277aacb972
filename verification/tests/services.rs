use nft_program::services::{check_minting, copy_creators};
use nft_program::{Address, CollectionData, CreatorData, MintingOutcome, NftData, NftError};

fn creator(tag: u8, share: u8) -> CreatorData {
    CreatorData { address: Address::new([tag; 32]), verified: tag % 2 == 0, share }
}

#[test]
fn completed_minting_is_no_error() {
    assert_eq!(check_minting(MintingOutcome::Completed), Ok(()));
}

#[test]
fn each_failure_has_its_error() {
    assert_eq!(check_minting(MintingOutcome::MintFailed), Err(NftError::InvalidName));
    assert_eq!(check_minting(MintingOutcome::MetadataFailed), Err(NftError::InvalidUri));
    assert_eq!(check_minting(MintingOutcome::MasterEditionFailed), Err(NftError::InvalidUri));
}

#[test]
fn creators_are_copied_in_their_order() {
    assert_eq!(copy_creators(&[]), vec![]);
    let creators = [creator(1, 10), creator(2, 20), creator(3, 70)];
    assert_eq!(copy_creators(&creators), creators.to_vec());
}

#[test]
fn copy_of_a_submission_holds_the_same_data() {
    let data = CollectionData {
        name: String::from("Art"),
        symbol: String::from("ART"),
        uri: String::from("https://x/1.json"),
        seller_fee_basis_points: 500,
        creators: vec![creator(1, 60), creator(2, 40)],
    };
    let copy = data.clone();
    assert_eq!(copy.name, "Art");
    assert_eq!(copy.symbol, "ART");
    assert_eq!(copy.uri, "https://x/1.json");
    assert_eq!(copy.seller_fee_basis_points, 500);
    assert_eq!(copy.creators, vec![creator(1, 60), creator(2, 40)]);

    let asset = NftData {
        name: String::from("Piece"),
        symbol: String::from("PCE"),
        uri: String::from("https://x/2.json"),
        seller_fee_basis_points: 250,
        creators: vec![creator(3, 100)],
    };
    let copy = asset.clone();
    assert_eq!(copy.name, "Piece");
    assert_eq!(copy.symbol, "PCE");
    assert_eq!(copy.uri, "https://x/2.json");
    assert_eq!(copy.seller_fee_basis_points, 250);
    assert_eq!(copy.creators, vec![creator(3, 100)]);
}
