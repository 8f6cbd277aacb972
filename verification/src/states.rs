//! The records that the registry keeps.

pub mod collection_info;
pub mod nft_info;
