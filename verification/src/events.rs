//! What a successful operation announces.

use vstd::prelude::*;

use crate::address::Address;

verus! {

/// A collection was created.
#[derive(Debug, PartialEq, Eq)]
pub struct CollectionCreated {
    pub mint: Address,
    pub name: String,
    pub symbol: String,
    pub uri: String,
    pub creator: Address,
    pub created_at: i64,
}

/// An asset was minted under a collection.
#[derive(Debug, PartialEq, Eq)]
pub struct NftMinted {
    pub mint: Address,
    pub collection_mint: Address,
    pub name: String,
    pub symbol: String,
    pub uri: String,
    pub owner: Address,
    pub minted_at: i64,
}

/// An asset's membership in a collection was verified.
#[derive(Clone, Copy, Debug, PartialEq, Eq)]
pub struct CollectionVerified {
    pub nft_mint: Address,
    pub collection_mint: Address,
    pub authority: Address,
    pub verified_at: i64,
}

} // verus!
