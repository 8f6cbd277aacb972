//! The three operations of the registry.

pub mod create_collection;
pub mod mint_nft;
pub mod verify_collection;
