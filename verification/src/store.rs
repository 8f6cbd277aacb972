//! The store of the registry's records: one record per collection and one per
//! asset, each kept under its mint, created once and never removed.

use vstd::prelude::*;

use crate::address::Address;
use crate::errors::NftError;
use crate::events::{CollectionCreated, CollectionVerified, NftMinted};
use crate::instructions::create_collection::{create_collection, CollectionData, CreateCollection};
use crate::instructions::mint_nft::{mint_nft, MintNFT, NftData};
use crate::instructions::verify_collection::{verify_collection, VerifyCollectionMint};
use crate::registry::{
    lemma_new_collection_keeps_counts, lemma_new_nft_keeps_counts,
    lemma_verification_keeps_counts, RegistryState,
};
use crate::services::{admission, MintingOutcome, VerificationReply};
use crate::states::collection_info::CollectionInfo;
use crate::states::nft_info::NftInfo;
use crate::validation::ValidatableData;

verus! {

/// The mints of the given collection records, in their order.
spec fn collection_mints(records: Seq<CollectionInfo>) -> Seq<Address> {
    records.map_values(|record: CollectionInfo| record.mint)
}

/// The mints of the given asset records, in their order.
spec fn nft_mints(records: Seq<NftInfo>) -> Seq<Address> {
    records.map_values(|record: NftInfo| record.mint)
}

/// The records, each under the mint at its place in `mints`.
spec fn by_mint<R>(mints: Seq<Address>, records: Seq<R>) -> Map<Address, R> {
    Map::new(|mint: Address| mints.contains(mint), |mint: Address| records[mints.index_of(mint)])
}

/// With no mint twice, the record under a mint is the one at the mint's place.
proof fn lemma_by_mint_at<R>(mints: Seq<Address>, records: Seq<R>, i: int)
    requires
        mints.no_duplicates(),
        0 <= i < mints.len(),
    ensures
        by_mint(mints, records).contains_key(mints[i]),
        by_mint(mints, records)[mints[i]] == records[i],
{
}

/// A record appended under a new mint is one more entry.
proof fn lemma_by_mint_push<R>(mints: Seq<Address>, records: Seq<R>, mint: Address, record: R)
    requires
        mints.no_duplicates(),
        mints.len() == records.len(),
        !mints.contains(mint),
    ensures
        mints.push(mint).no_duplicates(),
        by_mint(mints.push(mint), records.push(record)) == by_mint(mints, records).insert(
            mint,
            record,
        ),
{
    let longer = mints.push(mint);
    assert forall|id: Address| #[trigger] longer.contains(id) <==> (id == mint || mints.contains(id)) by {
        if mints.contains(id) {
            let i = mints.index_of(id);
            assert(longer[i] == id);
        }
        if id == mint {
            assert(longer[mints.len() as int] == mint);
        }
    }
    assert forall|id: Address| #[trigger] longer.contains(id) implies by_mint(
        longer,
        records.push(record),
    )[id] == by_mint(mints, records).insert(mint, record)[id] by {
        if id != mint {
            let i = mints.index_of(id);
            assert(longer[i] == id);
        }
    }
    assert(by_mint(longer, records.push(record)) =~= by_mint(mints, records).insert(mint, record));
}

/// A record put in the place of another under the same mint replaces that
/// entry.
proof fn lemma_by_mint_update<R>(mints: Seq<Address>, records: Seq<R>, i: int, record: R)
    requires
        mints.no_duplicates(),
        mints.len() == records.len(),
        0 <= i < mints.len(),
    ensures
        by_mint(mints, records.update(i, record)) == by_mint(mints, records).insert(
            mints[i],
            record,
        ),
{
    assert(by_mint(mints, records.update(i, record)) =~= by_mint(mints, records).insert(
        mints[i],
        record,
    ));
}

/// A store of records. No two collections in it have the same mint, and no
/// two assets.
pub struct RegistryStore {
    collections: Vec<CollectionInfo>,
    nfts: Vec<NftInfo>,
}

impl View for RegistryStore {
    type V = RegistryState;

    closed spec fn view(&self) -> RegistryState {
        RegistryState {
            collections: by_mint(collection_mints(self.collections@), self.collections@),
            nfts: by_mint(nft_mints(self.nfts@), self.nfts@),
        }
    }
}

impl RegistryStore {
    #[verifier::type_invariant]
    spec fn mints_are_unique(self) -> bool {
        &&& collection_mints(self.collections@).no_duplicates()
        &&& nft_mints(self.nfts@).no_duplicates()
    }

    /// A store that holds nothing.
    pub fn new() -> (store: RegistryStore)
        ensures
            store@ == RegistryState::empty(),
            store@.counts_members(),
    {
        let store = RegistryStore { collections: Vec::new(), nfts: Vec::new() };
        assert(store@.collections =~= Map::empty());
        assert(store@.nfts =~= Map::empty());
        store
    }

    /// The place of the collection's record, if it has one.
    fn find_collection(&self, mint: &Address) -> (place: Option<usize>)
        ensures
            match place {
                Some(i) => i < self.collections@.len() && self.collections@[i as int].mint == *mint
                    && self@.collection(*mint) == Some(self.collections@[i as int]),
                None => self@.collection(*mint) is None,
            },
    {
        proof {
            use_type_invariant(self);
        }
        let ghost mints = collection_mints(self.collections@);
        let mut i: usize = 0;
        while i < self.collections.len()
            invariant
                i <= self.collections@.len(),
                mints == collection_mints(self.collections@),
                mints.no_duplicates(),
                forall|j: int| 0 <= j < i ==> mints[j] != *mint,
            decreases self.collections@.len() - i,
        {
            if self.collections[i].mint == *mint {
                proof {
                    assert(mints[i as int] == *mint);
                    lemma_by_mint_at(mints, self.collections@, i as int);
                }
                return Some(i);
            }
            i += 1;
        }
        None
    }

    /// The place of the asset's record, if it has one.
    fn find_nft(&self, mint: &Address) -> (place: Option<usize>)
        ensures
            match place {
                Some(i) => i < self.nfts@.len() && self.nfts@[i as int].mint == *mint
                    && self@.nft(*mint) == Some(self.nfts@[i as int]),
                None => self@.nft(*mint) is None,
            },
    {
        proof {
            use_type_invariant(self);
        }
        let ghost mints = nft_mints(self.nfts@);
        let mut i: usize = 0;
        while i < self.nfts.len()
            invariant
                i <= self.nfts@.len(),
                mints == nft_mints(self.nfts@),
                mints.no_duplicates(),
                forall|j: int| 0 <= j < i ==> mints[j] != *mint,
            decreases self.nfts@.len() - i,
        {
            if self.nfts[i].mint == *mint {
                proof {
                    assert(mints[i as int] == *mint);
                    lemma_by_mint_at(mints, self.nfts@, i as int);
                }
                return Some(i);
            }
            i += 1;
        }
        None
    }

    /// The record of the collection with the given mint, if there is one.
    pub fn collection(&self, mint: &Address) -> (record: Option<CollectionInfo>)
        ensures
            record == self@.collection(*mint),
    {
        match self.find_collection(mint) {
            Some(i) => Some(self.collections[i]),
            None => None,
        }
    }

    /// The record of the asset with the given mint, if there is one.
    pub fn nft(&self, mint: &Address) -> (record: Option<NftInfo>)
        ensures
            record == self@.nft(*mint),
    {
        match self.find_nft(mint) {
            Some(i) => Some(self.nfts[i]),
            None => None,
        }
    }

    /// Keeps `record` as the record of its collection, unless the collection
    /// has a record already: a record is created once and not overwritten.
    pub fn create_collection_record(&mut self, record: CollectionInfo) -> (result: Result<
        (),
        NftError,
    >)
        ensures
            old(self)@.precedes(final(self)@),
            old(self)@.collections.contains_key(record.mint) ==> final(self)@ == old(self)@
                && result == Err::<(), NftError>(NftError::RecordAlreadyExists),
            !old(self)@.collections.contains_key(record.mint) ==> final(self)@ == old(
                self,
            )@.with_collection(record) && result == Ok::<(), NftError>(()),
            old(self)@.counts_members() && record.number_of_nfts == 0
                ==> final(self)@.counts_members(),
    {
        proof {
            use_type_invariant(&*self);
        }
        if self.find_collection(&record.mint).is_some() {
            return Err(NftError::RecordAlreadyExists);
        }
        let ghost before = self.collections@;
        let mut collections: Vec<CollectionInfo> = Vec::new();
        std::mem::swap(&mut collections, &mut self.collections);
        collections.push(record);
        proof {
            lemma_by_mint_push(collection_mints(before), before, record.mint, record);
            assert(collection_mints(before.push(record)) =~= collection_mints(before).push(
                record.mint,
            ));
        }
        self.collections = collections;
        proof {
            if old(self)@.counts_members() && record.number_of_nfts == 0 {
                lemma_new_collection_keeps_counts(old(self)@, record);
            }
        }
        Ok(())
    }

    /// Keeps `record` as the record of its asset, unless the asset has a
    /// record already: a record is created once and not overwritten.
    pub fn create_nft_record(&mut self, record: NftInfo) -> (result: Result<(), NftError>)
        ensures
            old(self)@.precedes(final(self)@),
            old(self)@.nfts.contains_key(record.mint) ==> final(self)@ == old(self)@ && result
                == Err::<(), NftError>(NftError::RecordAlreadyExists),
            !old(self)@.nfts.contains_key(record.mint) ==> final(self)@ == old(self)@.with_nft(
                record,
            ) && result == Ok::<(), NftError>(()),
            old(self)@.counts_members() && !record.verified ==> final(self)@.counts_members(),
    {
        proof {
            use_type_invariant(&*self);
        }
        if self.find_nft(&record.mint).is_some() {
            return Err(NftError::RecordAlreadyExists);
        }
        let ghost before = self.nfts@;
        let mut nfts: Vec<NftInfo> = Vec::new();
        std::mem::swap(&mut nfts, &mut self.nfts);
        nfts.push(record);
        proof {
            lemma_by_mint_push(nft_mints(before), before, record.mint, record);
            assert(nft_mints(before.push(record)) =~= nft_mints(before).push(record.mint));
        }
        self.nfts = nfts;
        proof {
            if old(self)@.counts_members() && !record.verified {
                lemma_new_nft_keeps_counts(old(self)@, record);
            }
        }
        Ok(())
    }

    /// Creates a collection and keeps its record: `create_collection` on a
    /// store.
    ///
    /// A mint that has a collection record already is refused before anything
    /// else is looked at. Whenever the operation is refused, the store is as
    /// it was.
    pub fn create_collection(
        &mut self,
        ctx: &CreateCollection,
        collection_data: CollectionData,
        outcome: MintingOutcome,
        now: i64,
    ) -> (result: Result<CollectionCreated, NftError>)
        ensures
            old(self)@.precedes(final(self)@),
            old(self)@.counts_members() ==> final(self)@.counts_members(),
            old(self)@.collections.contains_key(ctx.mint) ==> final(self)@ == old(self)@
                && result == Err::<CollectionCreated, NftError>(NftError::RecordAlreadyExists),
            !old(self)@.collections.contains_key(ctx.mint) ==> match admission(
                collection_data.submission(),
                outcome,
            ) {
                Ok(_) => {
                    &&& result matches Ok(event)
                    &&& ctx.makes_event(
                        event,
                        collection_data.name@,
                        collection_data.symbol@,
                        collection_data.uri@,
                        now,
                    )
                    &&& final(self)@.collections.contains_key(ctx.mint)
                    &&& ctx.makes_record(
                        final(self)@.collections[ctx.mint],
                        collection_data.name@,
                        collection_data.symbol@,
                        collection_data.uri@,
                        now,
                    )
                    &&& final(self)@ == old(self)@.with_collection(
                        final(self)@.collections[ctx.mint],
                    )
                },
                Err(error) => final(self)@ == old(self)@ && result == Err::<
                    CollectionCreated,
                    NftError,
                >(error),
            },
    {
        if self.find_collection(&ctx.mint).is_some() {
            return Err(NftError::RecordAlreadyExists);
        }
        let (record, event) = create_collection(ctx, collection_data, outcome, now)?;
        let created = self.create_collection_record(record);
        assert(created is Ok);
        Ok(event)
    }

    /// Mints an asset and keeps its record: `mint_nft` on a store.
    ///
    /// A mint that has an asset record already is refused before anything
    /// else is looked at. Whenever the operation is refused, the store is as
    /// it was. The collection need not have a record.
    pub fn mint_nft(&mut self, ctx: &MintNFT, nft_data: NftData, outcome: MintingOutcome, now: i64) -> (result:
        Result<NftMinted, NftError>)
        ensures
            old(self)@.precedes(final(self)@),
            old(self)@.counts_members() ==> final(self)@.counts_members(),
            old(self)@.nfts.contains_key(ctx.mint) ==> final(self)@ == old(self)@ && result
                == Err::<NftMinted, NftError>(NftError::RecordAlreadyExists),
            !old(self)@.nfts.contains_key(ctx.mint) ==> match admission(
                nft_data.submission(),
                outcome,
            ) {
                Ok(_) => {
                    &&& result matches Ok(event)
                    &&& ctx.makes_event(event, nft_data.name@, nft_data.symbol@, nft_data.uri@, now)
                    &&& final(self)@.nfts.contains_key(ctx.mint)
                    &&& ctx.makes_record(
                        final(self)@.nfts[ctx.mint],
                        nft_data.name@,
                        nft_data.symbol@,
                        nft_data.uri@,
                        now,
                    )
                    &&& final(self)@ == old(self)@.with_nft(final(self)@.nfts[ctx.mint])
                },
                Err(error) => final(self)@ == old(self)@ && result == Err::<NftMinted, NftError>(
                    error,
                ),
            },
    {
        if self.find_nft(&ctx.mint).is_some() {
            return Err(NftError::RecordAlreadyExists);
        }
        let (record, event) = mint_nft(ctx, nft_data, outcome, now)?;
        let created = self.create_nft_record(record);
        assert(created is Ok);
        Ok(event)
    }

    /// Verifies the asset `mint` as a member of the collection
    /// `collection_mint`, given the reply of the metadata service and the
    /// time: `verify_collection` on the two records that the store holds.
    ///
    /// On success the two records are as `RegistryState::verify` says, and no
    /// other record is touched. Whenever the operation is refused, the store
    /// is as it was.
    pub fn verify_collection(
        &mut self,
        authority: Address,
        mint: Address,
        collection_mint: Address,
        reply: VerificationReply,
        now: i64,
    ) -> (result: Result<CollectionVerified, NftError>)
        ensures
            old(self)@.precedes(final(self)@),
            old(self)@.counts_members() ==> final(self)@.counts_members(),
            match old(self)@.verify(authority, mint, collection_mint, reply) {
                Ok(after) => final(self)@ == after && result == Ok::<CollectionVerified, NftError>(
                    old(self)@.verification(authority, mint, collection_mint).event(now),
                ),
                Err(error) => final(self)@ == old(self)@ && result == Err::<
                    CollectionVerified,
                    NftError,
                >(error),
            },
    {
        proof {
            use_type_invariant(&*self);
        }
        let nft_place = match self.find_nft(&mint) {
            Some(place) => place,
            None => {
                return Err(NftError::RecordNotFound);
            },
        };
        let collection_place = match self.find_collection(&collection_mint) {
            Some(place) => place,
            None => {
                return Err(NftError::InvalidCollectionMint);
            },
        };
        let mut ctx = VerifyCollectionMint {
            authority,
            mint,
            nft_info: self.nfts[nft_place],
            collection_mint,
            collection_info: self.collections[collection_place],
        };
        let event = verify_collection(&mut ctx, reply, now)?;
        let ghost nfts_before = self.nfts@;
        let ghost collections_before = self.collections@;
        proof {
            lemma_by_mint_update(
                nft_mints(nfts_before),
                nfts_before,
                nft_place as int,
                ctx.nft_info,
            );
            lemma_by_mint_update(
                collection_mints(collections_before),
                collections_before,
                collection_place as int,
                ctx.collection_info,
            );
            assert(nft_mints(nfts_before.update(nft_place as int, ctx.nft_info)) =~= nft_mints(
                nfts_before,
            ));
            assert(collection_mints(
                collections_before.update(collection_place as int, ctx.collection_info),
            ) =~= collection_mints(collections_before));
        }
        let mut nfts: Vec<NftInfo> = Vec::new();
        std::mem::swap(&mut nfts, &mut self.nfts);
        nfts[nft_place] = ctx.nft_info;
        self.nfts = nfts;
        let mut collections: Vec<CollectionInfo> = Vec::new();
        std::mem::swap(&mut collections, &mut self.collections);
        collections[collection_place] = ctx.collection_info;
        self.collections = collections;
        proof {
            if old(self)@.counts_members() {
                lemma_verification_keeps_counts(old(self)@, authority, mint, collection_mint, reply);
            }
        }
        Ok(event)
    }
}

} // verus!