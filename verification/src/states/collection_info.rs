//! The record of a collection.

use vstd::prelude::*;

use crate::address::Address;

verus! {

/// What the registry keeps of a collection. It is written once, when the
/// collection is created; after that only `number_of_nfts` changes, and only
/// upwards.
#[derive(Clone, Copy, Debug, PartialEq, Eq)]
pub struct CollectionInfo {
    /// The collection's mint, which identifies it.
    pub mint: Address,
    /// The name, zero-padded.
    pub name: [u8; 32],
    /// The symbol, zero-padded.
    pub symbol: [u8; 10],
    /// The URI, zero-padded.
    pub uri: [u8; 200],
    /// Who created the collection.
    pub creator: Address,
    /// How many assets have been verified as members.
    pub number_of_nfts: u64,
    /// When the collection was created.
    pub created_at: i64,
    /// The nonce of the slot that the record is kept in.
    pub bump: u8,
}

} // verus!
