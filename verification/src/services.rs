//! What the registry asks of the services that mint tokens and keep their
//! metadata, and what it hears back from them.

use vstd::prelude::*;

use crate::address::Address;
use crate::errors::NftError;
use crate::validation::{check_submission, CreatorData, Submission};

verus! {

/// The collection that a token's metadata points to.
#[derive(Clone, Copy, Debug, PartialEq, Eq)]
pub struct CollectionLink {
    /// Whether the membership has been verified.
    pub verified: bool,
    /// The collection's mint.
    pub key: Address,
}

/// What is asked for a new token: the units to mint, the metadata to create
/// for it, and the supply of its master edition.
#[derive(Debug, PartialEq, Eq)]
pub struct TokenRequest {
    /// How many units are minted to the owner.
    pub amount: u64,
    pub name: String,
    pub symbol: String,
    pub uri: String,
    pub seller_fee_basis_points: u16,
    pub creators: Vec<CreatorData>,
    /// The collection that the token is said to belong to, if any.
    pub collection: Option<CollectionLink>,
    /// Whether the metadata can be changed later.
    pub is_mutable: bool,
    /// For a token that is itself a collection, the size that it starts with.
    pub collection_size: Option<u64>,
    /// How many prints the master edition allows.
    pub max_supply: Option<u64>,
}

/// How far the services got with a `TokenRequest`. They are asked in this
/// order, and the first failure ends it.
#[derive(Clone, Copy, Debug, PartialEq, Eq, Structural)]
pub enum MintingOutcome {
    /// The token was minted and its metadata and master edition were created.
    Completed,
    /// The token could not be minted.
    MintFailed,
    /// The metadata could not be created.
    MetadataFailed,
    /// The master edition could not be created.
    MasterEditionFailed,
}

/// What the metadata service said to the request to verify an asset's
/// membership in a collection.
#[derive(Clone, Copy, Debug, PartialEq, Eq, Structural)]
pub enum VerificationReply {
    /// The collection's authority stands behind the membership.
    Confirmed,
    /// The service refused.
    Refused,
}

/// The error that a failure of the services is reported as, if they failed.
pub open spec fn minting_refusal(outcome: MintingOutcome) -> Option<NftError> {
    match outcome {
        MintingOutcome::Completed => None,
        MintingOutcome::MintFailed => Some(NftError::InvalidName),
        MintingOutcome::MetadataFailed => Some(NftError::InvalidUri),
        MintingOutcome::MasterEditionFailed => Some(NftError::InvalidUri),
    }
}

/// Whether a new token is admitted: the rules on the submission decide first,
/// and a submission that they accept is admitted if the services completed
/// their part.
pub open spec fn admission(submission: Submission, outcome: MintingOutcome) -> Result<(), NftError> {
    match check_submission(submission) {
        Err(error) => Err(error),
        Ok(_) => match minting_refusal(outcome) {
            Some(error) => Err(error),
            None => Ok(()),
        },
    }
}

/// Reports a failure of the services as the error that stands for it.
pub fn check_minting(outcome: MintingOutcome) -> (result: Result<(), NftError>)
    ensures
        result == match minting_refusal(outcome) {
            Some(error) => Err::<(), NftError>(error),
            None => Ok::<(), NftError>(()),
        },
{
    match outcome {
        MintingOutcome::Completed => Ok(()),
        MintingOutcome::MintFailed => Err(NftError::InvalidName),
        MintingOutcome::MetadataFailed => Err(NftError::InvalidUri),
        MintingOutcome::MasterEditionFailed => Err(NftError::InvalidUri),
    }
}

/// A copy of the creators, in their order.
pub fn copy_creators(creators: &[CreatorData]) -> (copy: Vec<CreatorData>)
    ensures
        copy@ == creators@,
{
    let mut copy: Vec<CreatorData> = Vec::new();
    let mut i: usize = 0;
    while i < creators.len()
        invariant
            i <= creators@.len(),
            copy@ == creators@.take(i as int),
        decreases creators@.len() - i,
    {
        copy.push(creators[i]);
        assert(creators@.take(i + 1) =~= creators@.take(i as int).push(creators@[i as int]));
        i += 1;
    }
    assert(creators@.take(i as int) =~= creators@);
    copy
}

} // verus!
