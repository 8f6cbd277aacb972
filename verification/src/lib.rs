//! A registry of token collections and of the assets minted under them, with
//! the rules that admit a submission, the fixed-width text encoding of the
//! stored records, and the one-way verification of an asset's membership in
//! its collection.
//!
//! The registry mints no token and keeps no metadata itself. It says what it
//! asks of the services that do (`services::TokenRequest`), and each operation
//! takes what they reported as an argument.

pub mod address;
pub mod codec;
pub mod errors;
pub mod events;
pub mod instructions;
pub mod registry;
pub mod services;
pub mod states;
pub mod store;
pub mod validation;

pub use crate::address::Address;
pub use crate::codec::NftUtils;
pub use crate::errors::NftError;
pub use crate::events::{CollectionCreated, CollectionVerified, NftMinted};
pub use crate::instructions::create_collection::{
    create_collection, CollectionData, CreateCollection,
};
pub use crate::instructions::mint_nft::{mint_nft, MintNFT, NftData};
pub use crate::instructions::verify_collection::{verify_collection, VerifyCollectionMint};
pub use crate::registry::RegistryState;
pub use crate::services::{CollectionLink, MintingOutcome, TokenRequest, VerificationReply};
pub use crate::states::collection_info::CollectionInfo;
pub use crate::states::nft_info::NftInfo;
pub use crate::store::RegistryStore;
pub use crate::validation::{
    validate_creators, validate_name, validate_seller_fee_basis_points, validate_symbol,
    CreatorData, ValidatableData,
};
