//! Verifying that an asset belongs to its collection: a one-way step of the
//! asset's record from unverified to verified, which the collection counts
//! exactly once.

use vstd::prelude::*;

use crate::address::Address;
use crate::codec::NftUtils;
use crate::errors::NftError;
use crate::events::CollectionVerified;
use crate::services::VerificationReply;
use crate::states::collection_info::CollectionInfo;
use crate::states::nft_info::NftInfo;

verus! {

/// A request to verify an asset's membership, with the two records that it is
/// about.
#[derive(Clone, Copy, Debug, PartialEq, Eq)]
pub struct VerifyCollectionMint {
    /// Who asks.
    pub authority: Address,
    /// The asset's mint.
    pub mint: Address,
    /// The asset's record.
    pub nft_info: NftInfo,
    /// The mint of the collection that the request names.
    pub collection_mint: Address,
    /// The record of that collection.
    pub collection_info: CollectionInfo,
}

impl NftUtils for VerifyCollectionMint {

}

impl VerifyCollectionMint {
    /// Whether the request names the collection that the asset was minted
    /// under.
    pub open spec fn names_own_collection(self) -> bool {
        self.nft_info.collection_mint == self.collection_mint
    }

    /// The request with the asset's record set to verified and the
    /// collection's count one higher.
    pub open spec fn committed(self) -> VerifyCollectionMint {
        VerifyCollectionMint {
            nft_info: NftInfo { verified: true, ..self.nft_info },
            collection_info: CollectionInfo {
                number_of_nfts: (self.collection_info.number_of_nfts + 1) as u64,
                ..self.collection_info
            },
            ..self
        }
    }

    /// What becomes of the request once the metadata service has replied: the
    /// records as they are to be kept, or the reason why nothing changes.
    ///
    /// A request that names another collection than the asset's own is
    /// refused whatever the service said. If the service refused, so does the
    /// registry. An asset that is verified already stays as it is, and so does
    /// its collection. Otherwise the asset becomes verified and the collection
    /// counts it, unless the count is at its maximum.
    pub open spec fn step(self, reply: VerificationReply) -> Result<VerifyCollectionMint, NftError> {
        if !self.names_own_collection() {
            Err(NftError::InvalidCollectionMint)
        } else if reply == VerificationReply::Refused {
            Err(NftError::InvalidUri)
        } else if self.nft_info.verified {
            Ok(self)
        } else if self.collection_info.number_of_nfts == u64::MAX {
            Err(NftError::CounterOverflow)
        } else {
            Ok(self.committed())
        }
    }

    /// What a verification announces.
    pub open spec fn event(self, now: i64) -> CollectionVerified {
        CollectionVerified {
            nft_mint: self.mint,
            collection_mint: self.collection_mint,
            authority: self.authority,
            verified_at: now,
        }
    }

    /// What there is to remark on a request that is otherwise in order: that
    /// the asset is verified already. This is a notice and no failure; the
    /// request is carried out all the same, and changes nothing.
    pub fn notice(&self) -> (notice: Option<NftError>)
        ensures
            self.nft_info.verified ==> notice == Some(NftError::AlreadyVerified),
            !self.nft_info.verified ==> notice is None,
    {
        if self.nft_info.verified {
            Some(NftError::AlreadyVerified)
        } else {
            None
        }
    }

    /// Accepts the request if it names the collection that the asset was
    /// minted under. That the asset is verified already is no obstacle.
    pub fn validate_collection_relationship(&self) -> (result: Result<(), NftError>)
        ensures
            self.names_own_collection() ==> result == Ok::<(), NftError>(()),
            !self.names_own_collection() ==> result == Err::<(), NftError>(
                NftError::InvalidCollectionMint,
            ),
    {
        if self.nft_info.collection_mint != self.collection_mint {
            return Err(NftError::InvalidCollectionMint);
        }
        Ok(())
    }
}

/// Carries out a verification request, given the reply of the metadata
/// service and the time.
///
/// On success the records in `ctx` are as `step` says and the event is
/// returned. On failure `ctx` is unchanged.
pub fn verify_collection(ctx: &mut VerifyCollectionMint, reply: VerificationReply, now: i64) -> (result:
    Result<CollectionVerified, NftError>)
    ensures
        match old(ctx).step(reply) {
            Ok(after) => *final(ctx) == after && result == Ok::<CollectionVerified, NftError>(
                old(ctx).event(now),
            ),
            Err(error) => *final(ctx) == *old(ctx) && result == Err::<CollectionVerified, NftError>(
                error,
            ),
        },
{
    ctx.validate_collection_relationship()?;
    match reply {
        VerificationReply::Confirmed => {},
        VerificationReply::Refused => {
            return Err(NftError::InvalidUri);
        },
    }
    if !ctx.nft_info.verified {
        let number_of_nfts = match ctx.collection_info.number_of_nfts.checked_add(1) {
            Some(count) => count,
            None => {
                return Err(NftError::CounterOverflow);
            },
        };
        ctx.nft_info.verified = true;
        ctx.collection_info.number_of_nfts = number_of_nfts;
    }
    Ok(
        CollectionVerified {
            nft_mint: ctx.mint,
            collection_mint: ctx.collection_mint,
            authority: ctx.authority,
            verified_at: now,
        },
    )
}

/// Once a verification has succeeded, the same request succeeds again and
/// changes nothing: the asset is verified after the first, and over both the
/// collection's count went up by one if the asset was unverified before, and
/// not at all if it was verified.
pub proof fn lemma_verification_is_idempotent(
    before: VerifyCollectionMint,
    first: VerificationReply,
)
    requires
        before.step(first) is Ok,
    ensures
        ({
            let after = before.step(first)->Ok_0;
            &&& after.nft_info.verified
            &&& after.step(VerificationReply::Confirmed) == Ok::<VerifyCollectionMint, NftError>(
                after,
            )
            &&& after.collection_info.number_of_nfts == before.collection_info.number_of_nfts + (
            if before.nft_info.verified {
                0int
            } else {
                1int
            })
        }),
{
}

/// A request that names another collection than the one that the asset was
/// minted under is refused as such, whatever the service replied.
pub proof fn lemma_foreign_collection_refused(before: VerifyCollectionMint, reply: VerificationReply)
    requires
        before.nft_info.collection_mint != before.collection_mint,
    ensures
        before.step(reply) == Err::<VerifyCollectionMint, NftError>(
            NftError::InvalidCollectionMint,
        ),
{
}

/// A verification changes nothing but the asset's `verified`, which it only
/// ever sets, and the collection's count, which it only ever raises, by one at
/// most.
pub proof fn lemma_verification_only_advances(before: VerifyCollectionMint, reply: VerificationReply)
    requires
        before.step(reply) is Ok,
    ensures
        ({
            let after = before.step(reply)->Ok_0;
            &&& after.nft_info == (NftInfo { verified: true, ..before.nft_info })
            &&& after.collection_info == (CollectionInfo {
                number_of_nfts: after.collection_info.number_of_nfts,
                ..before.collection_info
            })
            &&& before.collection_info.number_of_nfts <= after.collection_info.number_of_nfts
                <= before.collection_info.number_of_nfts + 1
            &&& after.authority == before.authority
            &&& after.mint == before.mint
            &&& after.collection_mint == before.collection_mint
        }),
{
}

} // verus!
