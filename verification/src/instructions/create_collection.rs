//! Creating a collection: the submission is checked, the collection's token is
//! minted by the services, and the collection's record is made.

use vstd::prelude::*;
use vstd::utf8::encode_utf8;

use crate::address::Address;
use crate::codec::{fixed_width, NftUtils};
use crate::errors::NftError;
use crate::events::CollectionCreated;
use crate::services::{admission, check_minting, copy_creators, MintingOutcome, TokenRequest};
use crate::states::collection_info::CollectionInfo;
use crate::validation::{check_submission, CreatorData, Submission, ValidatableData};

verus! {

/// What is submitted to create a collection.
#[derive(Debug)]
pub struct CollectionData {
    pub name: String,
    pub symbol: String,
    pub uri: String,
    pub seller_fee_basis_points: u16,
    pub creators: Vec<CreatorData>,
}

/// Who creates a collection, and where.
#[derive(Clone, Copy, Debug, PartialEq, Eq)]
pub struct CreateCollection {
    /// Who creates the collection and pays for it.
    pub user: Address,
    /// The collection's new mint.
    pub mint: Address,
    /// The nonce of the slot that the record goes to.
    pub bump: u8,
}

impl Clone for CollectionData {
    fn clone(&self) -> (copy: CollectionData)
        ensures
            copy.name@ == self.name@,
            copy.symbol@ == self.symbol@,
            copy.uri@ == self.uri@,
            copy.seller_fee_basis_points == self.seller_fee_basis_points,
            copy.creators@ == self.creators@,
    {
        CollectionData {
            name: self.name.clone(),
            symbol: self.symbol.clone(),
            uri: self.uri.clone(),
            seller_fee_basis_points: self.seller_fee_basis_points,
            creators: copy_creators(self.creators.as_slice()),
        }
    }
}

impl ValidatableData for CollectionData {
    open spec fn submission(&self) -> Submission {
        Submission {
            name: self.name@,
            symbol: self.symbol@,
            seller_fee_basis_points: self.seller_fee_basis_points,
            creators: self.creators@,
        }
    }

    fn name(&self) -> &str {
        self.name.as_str()
    }

    fn symbol(&self) -> &str {
        self.symbol.as_str()
    }

    fn seller_fee_basis_points(&self) -> u16 {
        self.seller_fee_basis_points
    }

    fn creators(&self) -> &[CreatorData] {
        self.creators.as_slice()
    }
}

impl NftUtils for CreateCollection {

}

impl CreateCollection {
    /// Whether `record` is the record of the collection that `self` creates
    /// from a submission with the given texts at the time `now`: the texts in
    /// their fixed widths, and no member counted yet.
    pub open spec fn makes_record(
        self,
        record: CollectionInfo,
        name: Seq<char>,
        symbol: Seq<char>,
        uri: Seq<char>,
        now: i64,
    ) -> bool {
        &&& record.mint == self.mint
        &&& record.name@ == fixed_width(encode_utf8(name), 32)
        &&& record.symbol@ == fixed_width(encode_utf8(symbol), 10)
        &&& record.uri@ == fixed_width(encode_utf8(uri), 200)
        &&& record.creator == self.user
        &&& record.number_of_nfts == 0
        &&& record.created_at == now
        &&& record.bump == self.bump
    }

    /// Whether `event` announces the collection that `self` creates from a
    /// submission with the given texts at the time `now`.
    pub open spec fn makes_event(
        self,
        event: CollectionCreated,
        name: Seq<char>,
        symbol: Seq<char>,
        uri: Seq<char>,
        now: i64,
    ) -> bool {
        &&& event.mint == self.mint
        &&& event.name@ == name
        &&& event.symbol@ == symbol
        &&& event.uri@ == uri
        &&& event.creator == self.user
        &&& event.created_at == now
    }

    /// Applies the rules to the submission.
    pub fn validate_collection_data(&self, collection_data: &CollectionData) -> (result: Result<
        (),
        NftError,
    >)
        ensures
            result == check_submission(collection_data.submission()),
    {
        collection_data.validate()
    }

    /// What the services are asked for: one unit of the new token, metadata
    /// that can be changed later, carries the submitted data and marks the
    /// token as a collection of no members yet, and a master edition without
    /// prints.
    pub fn token_request(&self, collection_data: &CollectionData) -> (request: TokenRequest)
        ensures
            request.amount == 1,
            request.name@ == collection_data.name@,
            request.symbol@ == collection_data.symbol@,
            request.uri@ == collection_data.uri@,
            request.seller_fee_basis_points == collection_data.seller_fee_basis_points,
            request.creators@ == collection_data.creators@,
            request.collection is None,
            request.is_mutable,
            request.collection_size == Some(0u64),
            request.max_supply == Some(0u64),
    {
        TokenRequest {
            amount: 1,
            name: collection_data.name.clone(),
            symbol: collection_data.symbol.clone(),
            uri: collection_data.uri.clone(),
            seller_fee_basis_points: collection_data.seller_fee_basis_points,
            creators: copy_creators(collection_data.creators.as_slice()),
            collection: None,
            is_mutable: true,
            collection_size: Some(0),
            max_supply: Some(0),
        }
    }
}

/// Creates a collection, given what the services reported and the time.
///
/// A submission that breaks a rule is refused with that rule's error,
/// whatever the services reported. One that the rules accept is refused if
/// the services failed: with `InvalidName` if the token was not minted, with
/// `InvalidUri` if its metadata or master edition was not created. Otherwise
/// the collection's record and the event that announces it are returned.
pub fn create_collection(
    ctx: &CreateCollection,
    collection_data: CollectionData,
    outcome: MintingOutcome,
    now: i64,
) -> (result: Result<(CollectionInfo, CollectionCreated), NftError>)
    ensures
        match admission(collection_data.submission(), outcome) {
            Ok(_) => result matches Ok((record, event)) && ctx.makes_record(
                record,
                collection_data.name@,
                collection_data.symbol@,
                collection_data.uri@,
                now,
            ) && ctx.makes_event(
                event,
                collection_data.name@,
                collection_data.symbol@,
                collection_data.uri@,
                now,
            ),
            Err(error) => result == Err::<(CollectionInfo, CollectionCreated), NftError>(error),
        },
{
    ctx.validate_collection_data(&collection_data)?;
    check_minting(outcome)?;
    let collection_info = CollectionInfo {
        mint: ctx.mint,
        name: ctx.string_to_bytes::<32>(collection_data.name.as_str()),
        symbol: ctx.string_to_bytes::<10>(collection_data.symbol.as_str()),
        uri: ctx.string_to_bytes::<200>(collection_data.uri.as_str()),
        creator: ctx.user,
        number_of_nfts: 0,
        created_at: now,
        bump: ctx.bump,
    };
    let event = CollectionCreated {
        mint: ctx.mint,
        name: collection_data.name,
        symbol: collection_data.symbol,
        uri: collection_data.uri,
        creator: ctx.user,
        created_at: now,
    };
    Ok((collection_info, event))
}

} // verus!
