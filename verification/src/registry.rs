//! What a registry holds, as a mathematical value, and how the operations
//! change it.

use vstd::prelude::*;

use crate::address::Address;
use crate::errors::NftError;
use crate::instructions::verify_collection::VerifyCollectionMint;
use crate::services::VerificationReply;
use crate::states::collection_info::CollectionInfo;
use crate::states::nft_info::NftInfo;

verus! {

/// What a registry holds: the record of each collection and of each asset,
/// under its mint.
pub struct RegistryState {
    pub collections: Map<Address, CollectionInfo>,
    pub nfts: Map<Address, NftInfo>,
}

impl RegistryState {
    /// The state of a registry that holds nothing.
    pub open spec fn empty() -> RegistryState {
        RegistryState { collections: Map::empty(), nfts: Map::empty() }
    }

    /// The record of the collection with the given mint, if there is one.
    pub open spec fn collection(self, mint: Address) -> Option<CollectionInfo> {
        if self.collections.contains_key(mint) {
            Some(self.collections[mint])
        } else {
            None
        }
    }

    /// The record of the asset with the given mint, if there is one.
    pub open spec fn nft(self, mint: Address) -> Option<NftInfo> {
        if self.nfts.contains_key(mint) {
            Some(self.nfts[mint])
        } else {
            None
        }
    }

    /// The state with `record` kept as the record of its collection.
    pub open spec fn with_collection(self, record: CollectionInfo) -> RegistryState {
        RegistryState { collections: self.collections.insert(record.mint, record), ..self }
    }

    /// The state with `record` kept as the record of its asset.
    pub open spec fn with_nft(self, record: NftInfo) -> RegistryState {
        RegistryState { nfts: self.nfts.insert(record.mint, record), ..self }
    }

    /// The request to verify the asset `mint` as a member of `collection_mint`,
    /// with the two records as the registry holds them.
    pub open spec fn verification(
        self,
        authority: Address,
        mint: Address,
        collection_mint: Address,
    ) -> VerifyCollectionMint {
        VerifyCollectionMint {
            authority,
            mint,
            nft_info: self.nfts[mint],
            collection_mint,
            collection_info: self.collections[collection_mint],
        }
    }

    /// What becomes of the registry when the asset `mint` is to be verified as
    /// a member of `collection_mint` and the metadata service has replied: the
    /// new state, or the reason why the state stays as it is.
    ///
    /// An asset without a record is not found. A collection without a record
    /// is refused like one that is not the asset's own. Otherwise the two
    /// records take the step that `VerifyCollectionMint::step` describes.
    pub open spec fn verify(
        self,
        authority: Address,
        mint: Address,
        collection_mint: Address,
        reply: VerificationReply,
    ) -> Result<RegistryState, NftError> {
        if !self.nfts.contains_key(mint) {
            Err(NftError::RecordNotFound)
        } else if !self.collections.contains_key(collection_mint) {
            Err(NftError::InvalidCollectionMint)
        } else {
            match self.verification(authority, mint, collection_mint).step(reply) {
                Ok(after) => Ok(
                    RegistryState {
                        collections: self.collections.insert(
                            collection_mint,
                            after.collection_info,
                        ),
                        nfts: self.nfts.insert(mint, after.nft_info),
                    },
                ),
                Err(error) => Err(error),
            }
        }
    }

    /// Whether `later` can be a later state of the registry that is in the
    /// state `self` now. Every record is still there. A collection's record
    /// differs at most in its count, which is no lower. An asset's record
    /// differs at most in `verified`, which is not unset again.
    pub open spec fn precedes(self, later: RegistryState) -> bool {
        &&& forall|mint: Address| #[trigger]
            self.collections.contains_key(mint) ==> {
                &&& later.collections.contains_key(mint)
                &&& later.collections[mint] == (CollectionInfo {
                    number_of_nfts: later.collections[mint].number_of_nfts,
                    ..self.collections[mint]
                })
                &&& self.collections[mint].number_of_nfts
                    <= later.collections[mint].number_of_nfts
            }
        &&& forall|mint: Address| #[trigger]
            self.nfts.contains_key(mint) ==> {
                &&& later.nfts.contains_key(mint)
                &&& later.nfts[mint] == (NftInfo {
                    verified: later.nfts[mint].verified,
                    ..self.nfts[mint]
                })
                &&& self.nfts[mint].verified ==> later.nfts[mint].verified
            }
    }

    /// The assets that are verified as members of the given collection.
    pub open spec fn members(self, collection_mint: Address) -> Set<Address> {
        Set::new(
            |mint: Address|
                self.nfts.contains_key(mint) && self.nfts[mint].verified
                    && self.nfts[mint].collection_mint == collection_mint,
        )
    }

    /// Whether every collection's count is the number of its verified
    /// members, and every verified asset's collection has a record.
    pub open spec fn counts_members(self) -> bool {
        &&& self.nfts.dom().finite()
        &&& forall|mint: Address| #[trigger]
            self.collections.contains_key(mint) ==> self.collections[mint].number_of_nfts
                == self.members(mint).len()
        &&& forall|mint: Address| #[trigger]
            self.nfts.contains_key(mint) && self.nfts[mint].verified
                ==> self.collections.contains_key(self.nfts[mint].collection_mint)
    }
}

/// Every state can stay as it is, and what can come after a later state can
/// come after an earlier one.
pub proof fn lemma_precedes_is_a_preorder(
    first: RegistryState,
    second: RegistryState,
    third: RegistryState,
)
    ensures
        first.precedes(first),
        first.precedes(second) && second.precedes(third) ==> first.precedes(third),
{
    if first.precedes(second) && second.precedes(third) {
        assert forall|mint: Address| #[trigger] first.collections.contains_key(mint) implies {
            &&& third.collections.contains_key(mint)
            &&& third.collections[mint] == (CollectionInfo {
                number_of_nfts: third.collections[mint].number_of_nfts,
                ..first.collections[mint]
            })
            &&& first.collections[mint].number_of_nfts <= third.collections[mint].number_of_nfts
        } by {
            assert(second.collections.contains_key(mint));
        }
        assert forall|mint: Address| #[trigger] first.nfts.contains_key(mint) implies {
            &&& third.nfts.contains_key(mint)
            &&& third.nfts[mint] == (NftInfo {
                verified: third.nfts[mint].verified,
                ..first.nfts[mint]
            })
            &&& first.nfts[mint].verified ==> third.nfts[mint].verified
        } by {
            assert(second.nfts.contains_key(mint));
        }
    }
}

/// A verification that succeeds touches the asset's record and the
/// collection's, and no other: every other record is as it was, and no record
/// is added.
pub proof fn lemma_verification_touches_two_records(
    before: RegistryState,
    authority: Address,
    mint: Address,
    collection_mint: Address,
    reply: VerificationReply,
)
    requires
        before.verify(authority, mint, collection_mint, reply) is Ok,
    ensures
        ({
            let after = before.verify(authority, mint, collection_mint, reply)->Ok_0;
            &&& after.nfts.dom() == before.nfts.dom()
            &&& after.collections.dom() == before.collections.dom()
            &&& after.nfts.remove(mint) == before.nfts.remove(mint)
            &&& after.collections.remove(collection_mint) == before.collections.remove(
                collection_mint,
            )
            &&& before.precedes(after)
        }),
{
    let after = before.verify(authority, mint, collection_mint, reply)->Ok_0;
    assert(after.nfts.dom() =~= before.nfts.dom());
    assert(after.collections.dom() =~= before.collections.dom());
    assert(after.nfts.remove(mint) =~= before.nfts.remove(mint));
    assert(after.collections.remove(collection_mint) =~= before.collections.remove(
        collection_mint,
    ));
}

/// Once an asset has been verified as a member of a collection, verifying it
/// again succeeds, whoever asks, and leaves the registry as it is. Over both,
/// the collection's count went up by one if the asset was unverified before
/// the first, and not at all if it was verified.
pub proof fn lemma_second_verification_changes_nothing(
    before: RegistryState,
    authority: Address,
    mint: Address,
    collection_mint: Address,
    first: VerificationReply,
    second_authority: Address,
)
    requires
        before.verify(authority, mint, collection_mint, first) is Ok,
    ensures
        ({
            let after = before.verify(authority, mint, collection_mint, first)->Ok_0;
            &&& after.nfts[mint].verified
            &&& after.verify(second_authority, mint, collection_mint, VerificationReply::Confirmed)
                == Ok::<RegistryState, NftError>(after)
            &&& after.collections[collection_mint].number_of_nfts
                == before.collections[collection_mint].number_of_nfts + (if before.nfts[mint].verified {
                0int
            } else {
                1int
            })
        }),
{
    let after = before.verify(authority, mint, collection_mint, first)->Ok_0;
    let again = after.verify(second_authority, mint, collection_mint, VerificationReply::Confirmed);
    assert(again is Ok);
    assert(again->Ok_0.nfts =~= after.nfts);
    assert(again->Ok_0.collections =~= after.collections);
}

/// A verification that names another collection than the one that the asset
/// was minted under is refused as such, whatever the service replied and
/// whether or not the named collection has a record.
pub proof fn lemma_registry_refuses_foreign_collection(
    before: RegistryState,
    authority: Address,
    mint: Address,
    collection_mint: Address,
    reply: VerificationReply,
)
    requires
        before.nfts.contains_key(mint),
        before.nfts[mint].collection_mint != collection_mint,
    ensures
        before.verify(authority, mint, collection_mint, reply) == Err::<RegistryState, NftError>(
            NftError::InvalidCollectionMint,
        ),
{
}

/// An empty registry counts its members rightly.
pub proof fn lemma_empty_counts_members()
    ensures
        RegistryState::empty().counts_members(),
{
}

/// A registry that counts its members rightly still does so when a new
/// collection is added with a count of zero.
pub proof fn lemma_new_collection_keeps_counts(before: RegistryState, record: CollectionInfo)
    requires
        before.counts_members(),
        !before.collections.contains_key(record.mint),
        record.number_of_nfts == 0,
    ensures
        before.with_collection(record).counts_members(),
{
    let after = before.with_collection(record);
    assert forall|mint: Address| #[trigger] after.collections.contains_key(mint) implies after.collections[mint].number_of_nfts
        == after.members(mint).len() by {
        if mint == record.mint {
            assert(after.members(mint) =~= Set::<Address>::empty());
        } else {
            assert(before.collections.contains_key(mint));
            assert(after.members(mint) =~= before.members(mint));
        }
    }
}

/// A registry that counts its members rightly still does so when a new asset
/// is added that is not verified.
pub proof fn lemma_new_nft_keeps_counts(before: RegistryState, record: NftInfo)
    requires
        before.counts_members(),
        !before.nfts.contains_key(record.mint),
        !record.verified,
    ensures
        before.with_nft(record).counts_members(),
{
    let after = before.with_nft(record);
    assert(after.nfts.dom() =~= before.nfts.dom().insert(record.mint));
    assert forall|mint: Address| #[trigger] after.collections.contains_key(mint) implies after.collections[mint].number_of_nfts
        == after.members(mint).len() by {
        assert(before.collections.contains_key(mint));
        assert(after.members(mint) =~= before.members(mint));
    }
    assert forall|mint: Address| #[trigger]
        after.nfts.contains_key(mint) && after.nfts[mint].verified implies after.collections.contains_key(
        after.nfts[mint].collection_mint,
    ) by {
        assert(before.nfts.contains_key(mint));
    }
}

/// A registry that counts its members rightly still does so after a
/// verification.
pub proof fn lemma_verification_keeps_counts(
    before: RegistryState,
    authority: Address,
    mint: Address,
    collection_mint: Address,
    reply: VerificationReply,
)
    requires
        before.counts_members(),
        before.verify(authority, mint, collection_mint, reply) is Ok,
    ensures
        before.verify(authority, mint, collection_mint, reply)->Ok_0.counts_members(),
{
    let after = before.verify(authority, mint, collection_mint, reply)->Ok_0;
    assert(after.nfts.dom() =~= before.nfts.dom());
    if before.nfts[mint].verified {
        assert(after.nfts =~= before.nfts);
        assert(after.collections =~= before.collections);
    } else {
        assert forall|other: Address| #[trigger] after.collections.contains_key(other) implies after.collections[other].number_of_nfts
            == after.members(other).len() by {
            assert(before.collections.contains_key(other));
            if other == collection_mint {
                assert(after.members(other) =~= before.members(other).insert(mint));
                assert(before.members(other).subset_of(before.nfts.dom()));
                vstd::set_lib::lemma_len_subset(before.members(other), before.nfts.dom());
            } else {
                assert(after.members(other) =~= before.members(other));
            }
        }
        assert forall|other: Address| #[trigger]
            after.nfts.contains_key(other) && after.nfts[other].verified implies after.collections.contains_key(
            after.nfts[other].collection_mint,
        ) by {
            if other != mint {
                assert(before.nfts.contains_key(other));
            }
        }
    }
}

} // verus!
