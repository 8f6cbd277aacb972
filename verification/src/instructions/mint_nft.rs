//! Minting an asset under a collection: the submission is checked, the
//! asset's token is minted by the services, and the asset's record is made,
//! not yet verified.

use vstd::prelude::*;
use vstd::utf8::encode_utf8;

use crate::address::Address;
use crate::codec::{fixed_width, NftUtils};
use crate::errors::NftError;
use crate::events::NftMinted;
use crate::services::{
    admission,
    check_minting,
    copy_creators,
    CollectionLink,
    MintingOutcome,
    TokenRequest,
};
use crate::states::nft_info::NftInfo;
use crate::validation::{check_submission, CreatorData, Submission, ValidatableData};

verus! {

/// What is submitted to mint an asset.
#[derive(Debug)]
pub struct NftData {
    pub name: String,
    pub symbol: String,
    pub uri: String,
    pub seller_fee_basis_points: u16,
    pub creators: Vec<CreatorData>,
}

/// Who mints an asset, where, and under which collection.
#[derive(Clone, Copy, Debug, PartialEq, Eq)]
pub struct MintNFT {
    /// Who the asset is minted to, and who pays for it.
    pub owner: Address,
    /// The asset's new mint.
    pub mint: Address,
    /// The mint of the collection that the asset is minted under.
    pub collection_mint: Address,
    /// The nonce of the slot that the record goes to.
    pub bump: u8,
}

impl Clone for NftData {
    fn clone(&self) -> (copy: NftData)
        ensures
            copy.name@ == self.name@,
            copy.symbol@ == self.symbol@,
            copy.uri@ == self.uri@,
            copy.seller_fee_basis_points == self.seller_fee_basis_points,
            copy.creators@ == self.creators@,
    {
        NftData {
            name: self.name.clone(),
            symbol: self.symbol.clone(),
            uri: self.uri.clone(),
            seller_fee_basis_points: self.seller_fee_basis_points,
            creators: copy_creators(self.creators.as_slice()),
        }
    }
}

impl ValidatableData for NftData {
    open spec fn submission(&self) -> Submission {
        Submission {
            name: self.name@,
            symbol: self.symbol@,
            seller_fee_basis_points: self.seller_fee_basis_points,
            creators: self.creators@,
        }
    }

    fn name(&self) -> &str {
        self.name.as_str()
    }

    fn symbol(&self) -> &str {
        self.symbol.as_str()
    }

    fn seller_fee_basis_points(&self) -> u16 {
        self.seller_fee_basis_points
    }

    fn creators(&self) -> &[CreatorData] {
        self.creators.as_slice()
    }
}

impl NftUtils for MintNFT {

}

impl MintNFT {
    /// Whether `record` is the record of the asset that `self` mints from a
    /// submission with the given texts at the time `now`: the texts in their
    /// fixed widths, the collection as named, and not verified.
    pub open spec fn makes_record(
        self,
        record: NftInfo,
        name: Seq<char>,
        symbol: Seq<char>,
        uri: Seq<char>,
        now: i64,
    ) -> bool {
        &&& record.mint == self.mint
        &&& record.collection_mint == self.collection_mint
        &&& record.name@ == fixed_width(encode_utf8(name), 32)
        &&& record.symbol@ == fixed_width(encode_utf8(symbol), 10)
        &&& record.uri@ == fixed_width(encode_utf8(uri), 200)
        &&& record.owner == self.owner
        &&& !record.verified
        &&& record.minted_at == now
        &&& record.bump == self.bump
    }

    /// Whether `event` announces the asset that `self` mints from a
    /// submission with the given texts at the time `now`.
    pub open spec fn makes_event(
        self,
        event: NftMinted,
        name: Seq<char>,
        symbol: Seq<char>,
        uri: Seq<char>,
        now: i64,
    ) -> bool {
        &&& event.mint == self.mint
        &&& event.collection_mint == self.collection_mint
        &&& event.name@ == name
        &&& event.symbol@ == symbol
        &&& event.uri@ == uri
        &&& event.owner == self.owner
        &&& event.minted_at == now
    }

    /// Applies the rules to the submission.
    pub fn validate_nft_data(&self, nft_data: &NftData) -> (result: Result<(), NftError>)
        ensures
            result == check_submission(nft_data.submission()),
    {
        nft_data.validate()
    }

    /// What the services are asked for: one unit of the new token, metadata
    /// that can be changed later, carries the submitted data and points to
    /// the collection without calling the membership verified, and a master
    /// edition without prints.
    pub fn token_request(&self, nft_data: &NftData) -> (request: TokenRequest)
        ensures
            request.amount == 1,
            request.name@ == nft_data.name@,
            request.symbol@ == nft_data.symbol@,
            request.uri@ == nft_data.uri@,
            request.seller_fee_basis_points == nft_data.seller_fee_basis_points,
            request.creators@ == nft_data.creators@,
            request.collection == Some(
                (CollectionLink { verified: false, key: self.collection_mint }),
            ),
            request.is_mutable,
            request.collection_size is None,
            request.max_supply == Some(0u64),
    {
        TokenRequest {
            amount: 1,
            name: nft_data.name.clone(),
            symbol: nft_data.symbol.clone(),
            uri: nft_data.uri.clone(),
            seller_fee_basis_points: nft_data.seller_fee_basis_points,
            creators: copy_creators(nft_data.creators.as_slice()),
            collection: Some(CollectionLink { verified: false, key: self.collection_mint }),
            is_mutable: true,
            collection_size: None,
            max_supply: Some(0),
        }
    }
}

/// Mints an asset, given what the services reported and the time.
///
/// A submission that breaks a rule is refused with that rule's error,
/// whatever the services reported. One that the rules accept is refused if
/// the services failed: with `InvalidName` if the token was not minted, with
/// `InvalidUri` if its metadata or master edition was not created. Otherwise
/// the asset's record, which is not verified, and the event that announces it
/// are returned.
pub fn mint_nft(ctx: &MintNFT, nft_data: NftData, outcome: MintingOutcome, now: i64) -> (result:
    Result<(NftInfo, NftMinted), NftError>)
    ensures
        match admission(nft_data.submission(), outcome) {
            Ok(_) => result matches Ok((record, event)) && ctx.makes_record(
                record,
                nft_data.name@,
                nft_data.symbol@,
                nft_data.uri@,
                now,
            ) && ctx.makes_event(event, nft_data.name@, nft_data.symbol@, nft_data.uri@, now),
            Err(error) => result == Err::<(NftInfo, NftMinted), NftError>(error),
        },
{
    ctx.validate_nft_data(&nft_data)?;
    check_minting(outcome)?;
    let nft_info = NftInfo {
        mint: ctx.mint,
        collection_mint: ctx.collection_mint,
        name: ctx.string_to_bytes::<32>(nft_data.name.as_str()),
        symbol: ctx.string_to_bytes::<10>(nft_data.symbol.as_str()),
        uri: ctx.string_to_bytes::<200>(nft_data.uri.as_str()),
        owner: ctx.owner,
        verified: false,
        minted_at: now,
        bump: ctx.bump,
    };
    let event = NftMinted {
        mint: ctx.mint,
        collection_mint: ctx.collection_mint,
        name: nft_data.name,
        symbol: nft_data.symbol,
        uri: nft_data.uri,
        owner: ctx.owner,
        minted_at: now,
    };
    Ok((nft_info, event))
}

} // verus!
