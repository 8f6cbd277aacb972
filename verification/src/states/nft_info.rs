//! The record of an asset.

use vstd::prelude::*;

use crate::address::Address;

verus! {

/// What the registry keeps of an asset. It is written once, when the asset is
/// minted, with `verified` unset; after that `verified` is set once and
/// nothing else changes.
#[derive(Clone, Copy, Debug, PartialEq, Eq)]
pub struct NftInfo {
    /// The asset's mint, which identifies it.
    pub mint: Address,
    /// The mint of the collection that the asset was minted under.
    pub collection_mint: Address,
    /// The name, zero-padded.
    pub name: [u8; 32],
    /// The symbol, zero-padded.
    pub symbol: [u8; 10],
    /// The URI, zero-padded.
    pub uri: [u8; 200],
    /// Who the asset was minted to.
    pub owner: Address,
    /// Whether the asset's membership in its collection has been verified.
    pub verified: bool,
    /// When the asset was minted.
    pub minted_at: i64,
    /// The nonce of the slot that the record is kept in.
    pub bump: u8,
}

} // verus!
