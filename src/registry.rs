use vstd::prelude::*;

use crate::error::EscrowError;
use crate::events::{EscrowStatus, NftRegisteredEvent, NftStatusUpdatedEvent};
use crate::key::Pubkey;
use crate::state::{BatchState, BatchStatus, EscrowState};
use crate::transfer::{is_legal_edge, legal_edge, TransferPlan};

verus! {

/// The record belongs to `(owner, mint)`.
pub open spec fn record_key_is(r: EscrowState, owner: Seq<u8>, mint: Seq<u8>) -> bool {
    r.owner@ == owner && r.mint@ == mint
}

/// The batch belongs to `(owner, batch_id)`.
pub open spec fn batch_key_is(b: BatchState, owner: Seq<u8>, batch_id: Seq<char>) -> bool {
    b.owner@ == owner && b.batch_id@ == batch_id
}

/// `s` holds a record for `(owner, mint)`.
pub open spec fn has_key(s: Seq<EscrowState>, owner: Seq<u8>, mint: Seq<u8>) -> bool {
    exists|i: int| 0 <= i < s.len() && #[trigger] record_key_is(s[i], owner, mint)
}

/// `s` holds a batch for `(owner, batch_id)`.
pub open spec fn has_batch_key(s: Seq<BatchState>, owner: Seq<u8>, batch_id: Seq<char>) -> bool {
    exists|i: int| 0 <= i < s.len() && #[trigger] batch_key_is(s[i], owner, batch_id)
}

/// At most one record per `(owner, mint)`.
pub open spec fn unique_records(s: Seq<EscrowState>) -> bool {
    forall|i: int, j: int|
        0 <= i < s.len() && 0 <= j < s.len() && i != j ==> !record_key_is(
            #[trigger] s[i],
            s[j].owner@,
            #[trigger] s[j].mint@,
        )
}

/// At most one batch per `(owner, batch_id)`.
pub open spec fn unique_batches(s: Seq<BatchState>) -> bool {
    forall|i: int, j: int|
        0 <= i < s.len() && 0 <= j < s.len() && i != j ==> !batch_key_is(
            #[trigger] s[i],
            s[j].owner@,
            #[trigger] s[j].batch_id@,
        )
}

/// The record at `i` after a settled transfer: only its status changed.
pub open spec fn with_status(r: EscrowState, status: EscrowStatus) -> EscrowState {
    EscrowState { status, ..r }
}

/// The asset records and batches of the escrow, each keyed uniquely.
pub struct Registry {
    batches: Vec<BatchState>,
    records: Vec<EscrowState>,
}

impl Registry {
    /// The asset records, in order of registration.
    pub closed spec fn records(&self) -> Seq<EscrowState> {
        self.records@
    }

    /// The batches, in order of creation.
    pub closed spec fn batches(&self) -> Seq<BatchState> {
        self.batches@
    }

    pub open spec fn wf(&self) -> bool {
        unique_records(self.records()) && unique_batches(self.batches())
    }

    /// An empty registry.
    pub fn new() -> (r: Registry)
        ensures
            r.wf(),
            r.records() == Seq::<EscrowState>::empty(),
            r.batches() == Seq::<BatchState>::empty(),
    {
        Registry { batches: Vec::new(), records: Vec::new() }
    }

    pub fn record_count(&self) -> (r: usize)
        ensures
            r == self.records().len(),
    {
        self.records.len()
    }

    pub fn batch_count(&self) -> (r: usize)
        ensures
            r == self.batches().len(),
    {
        self.batches.len()
    }

    pub fn record(&self, i: usize) -> (r: &EscrowState)
        requires
            i < self.records().len(),
        ensures
            *r == self.records()[i as int],
    {
        &self.records[i]
    }

    pub fn batch(&self, i: usize) -> (r: &BatchState)
        requires
            i < self.batches().len(),
        ensures
            *r == self.batches()[i as int],
    {
        &self.batches[i]
    }

    /// The position of the record of `(owner, mint)`, if there is one.
    pub fn find_record(&self, owner: &Pubkey, mint: &Pubkey) -> (r: Option<usize>)
        ensures
            r is None <==> !has_key(self.records(), owner@, mint@),
            r is Some ==> r->Some_0 < self.records().len() && record_key_is(
                self.records()[r->Some_0 as int],
                owner@,
                mint@,
            ),
    {
        let mut i: usize = 0;
        while i < self.records.len()
            invariant
                i <= self.records@.len(),
                forall|j: int| 0 <= j < i ==> !#[trigger] record_key_is(self.records@[j], owner@, mint@),
            decreases self.records@.len() - i,
        {
            let rec = &self.records[i];
            if rec.owner.same_as(owner) && rec.mint.same_as(mint) {
                assert(record_key_is(self.records@[i as int], owner@, mint@));
                return Some(i);
            }
            i = i + 1;
        }
        None
    }

    /// The position of the batch of `(owner, batch_id)`, if there is one.
    pub fn find_batch(&self, owner: &Pubkey, batch_id: &String) -> (r: Option<usize>)
        ensures
            r is None <==> !has_batch_key(self.batches(), owner@, batch_id@),
            r is Some ==> r->Some_0 < self.batches().len() && batch_key_is(
                self.batches()[r->Some_0 as int],
                owner@,
                batch_id@,
            ),
    {
        let mut i: usize = 0;
        while i < self.batches.len()
            invariant
                i <= self.batches@.len(),
                forall|j: int|
                    0 <= j < i ==> !#[trigger] batch_key_is(self.batches@[j], owner@, batch_id@),
            decreases self.batches@.len() - i,
        {
            let b = &self.batches[i];
            if b.owner.same_as(owner) && b.batch_id == *batch_id {
                assert(batch_key_is(self.batches@[i as int], owner@, batch_id@));
                return Some(i);
            }
            i = i + 1;
        }
        None
    }

    /// Creates the batch `(owner, batch_id)` in status `Created` with zeroed
    /// counters. Fails with `AlreadyExists`, changing nothing, when that batch exists.
    pub fn create_batch(&mut self, owner: Pubkey, batch_id: String, created_at: i64, bump: u8) -> (r:
        Result<(), EscrowError>)
        requires
            old(self).wf(),
        ensures
            final(self).wf(),
            has_batch_key(old(self).batches(), owner@, batch_id@) <==> r == Err::<(), EscrowError>(
                EscrowError::AlreadyExists,
            ),
            r is Ok <==> !has_batch_key(old(self).batches(), owner@, batch_id@),
            r is Err ==> *final(self) == *old(self),
            r is Ok ==> final(self).records() == old(self).records(),
            r is Ok ==> final(self).batches() == old(self).batches().push(
                BatchState {
                    owner,
                    batch_id,
                    status: BatchStatus::Created,
                    created_at,
                    total_nfts: 0,
                    processed_nfts: 0,
                    bump,
                },
            ),
    {
        if self.find_batch(&owner, &batch_id).is_some() {
            return Err(EscrowError::AlreadyExists);
        }
        let ghost before = self.batches@;
        let b = BatchState {
            owner,
            batch_id,
            status: BatchStatus::Created,
            created_at,
            total_nfts: 0,
            processed_nfts: 0,
            bump,
        };
        self.batches.push(b);
        assert forall|i: int, j: int|
            0 <= i < self.batches@.len() && 0 <= j < self.batches@.len() && i != j implies !batch_key_is(
                #[trigger] self.batches@[i],
                self.batches@[j].owner@,
                #[trigger] self.batches@[j].batch_id@,
            ) by {
            if i == before.len() as int {
                assert(!batch_key_is(before[j], owner@, batch_id@));
            } else if j == before.len() as int {
                assert(!batch_key_is(before[i], owner@, batch_id@));
            }
        }
        Ok(())
    }

    /// Registers the asset `mint` of `owner` in status `Registered`. Fails with
    /// `AlreadyExists`, changing nothing, when `(owner, mint)` has a record.
    pub fn register_nft(
        &mut self,
        owner: Pubkey,
        mint: Pubkey,
        batch_id: String,
        is_compressed: bool,
        metadata_uri: Option<String>,
        price: Option<u64>,
        created_at: i64,
        bump: u8,
    ) -> (r: Result<NftRegisteredEvent, EscrowError>)
        requires
            old(self).wf(),
        ensures
            final(self).wf(),
            has_key(old(self).records(), owner@, mint@) <==> r == Err::<
                NftRegisteredEvent,
                EscrowError,
            >(EscrowError::AlreadyExists),
            r is Ok <==> !has_key(old(self).records(), owner@, mint@),
            r is Err ==> *final(self) == *old(self),
            r is Ok ==> final(self).batches() == old(self).batches(),
            r is Ok ==> final(self).records() == old(self).records().push(
                EscrowState {
                    owner,
                    mint,
                    batch_id,
                    is_compressed,
                    status: EscrowStatus::Registered,
                    metadata_uri,
                    price,
                    created_at,
                    bump,
                },
            ),
            r is Ok ==> r->Ok_0 == (NftRegisteredEvent { owner, mint, batch_id, is_compressed }),
    {
        if self.find_record(&owner, &mint).is_some() {
            return Err(EscrowError::AlreadyExists);
        }
        let ghost before = self.records@;
        let event = NftRegisteredEvent { owner, mint, batch_id: batch_id.clone(), is_compressed };
        let rec = EscrowState {
            owner,
            mint,
            batch_id,
            is_compressed,
            status: EscrowStatus::Registered,
            metadata_uri,
            price,
            created_at,
            bump,
        };
        self.records.push(rec);
        assert forall|i: int, j: int|
            0 <= i < self.records@.len() && 0 <= j < self.records@.len() && i != j implies !record_key_is(
                #[trigger] self.records@[i],
                self.records@[j].owner@,
                #[trigger] self.records@[j].mint@,
            ) by {
            if i == before.len() as int {
                assert(!record_key_is(before[j], owner@, mint@));
            } else if j == before.len() as int {
                assert(!record_key_is(before[i], owner@, mint@));
            }
        }
        Ok(event)
    }

    /// Commits a transfer after the external primitive moved the asset: the
    /// record of the plan's `(owner, mint)` takes the plan's new status, and
    /// nothing else changes. Fails, changing nothing, with `NotRegistered` when
    /// there is no such record, and with `InvalidStatus` when its status is no
    /// longer the one the plan was checked against.
    pub fn complete_transfer(&mut self, plan: &TransferPlan) -> (r: Result<
        NftStatusUpdatedEvent,
        EscrowError,
    >)
        requires
            old(self).wf(),
        ensures
            final(self).wf(),
            !has_key(old(self).records(), plan.spec_owner()@, plan.spec_mint()@) <==> r == Err::<
                NftStatusUpdatedEvent,
                EscrowError,
            >(EscrowError::NotRegistered),
            r is Err ==> *final(self) == *old(self),
            r is Err ==> r == Err::<NftStatusUpdatedEvent, EscrowError>(EscrowError::NotRegistered)
                || r == Err::<NftStatusUpdatedEvent, EscrowError>(EscrowError::InvalidStatus),
            forall|i: int|
                0 <= i < old(self).records().len() && #[trigger] record_key_is(
                    old(self).records()[i],
                    plan.spec_owner()@,
                    plan.spec_mint()@,
                ) ==> {
                    &&& (r == Err::<NftStatusUpdatedEvent, EscrowError>(EscrowError::InvalidStatus)
                        <==> (old(self).records()[i].status != plan.spec_from_status()
                        || !legal_edge(plan.spec_from_status(), plan.spec_new_status())))
                    &&& (r is Ok <==> (old(self).records()[i].status == plan.spec_from_status()
                        && legal_edge(plan.spec_from_status(), plan.spec_new_status())))
                    &&& r is Ok ==> final(self).records()[i] == with_status(
                        old(self).records()[i],
                        plan.spec_new_status(),
                    )
                    &&& r is Ok ==> legal_edge(
                        old(self).records()[i].status,
                        final(self).records()[i].status,
                    )
                    &&& r is Ok ==> r->Ok_0 == (NftStatusUpdatedEvent {
                        mint: old(self).records()[i].mint,
                        batch_id: old(self).records()[i].batch_id,
                        new_status: plan.spec_new_status(),
                    })
                },
            r is Ok ==> final(self).batches() == old(self).batches(),
            r is Ok ==> final(self).records().len() == old(self).records().len(),
            r is Ok ==> forall|i: int|
                0 <= i < old(self).records().len() && !#[trigger] record_key_is(
                    old(self).records()[i],
                    plan.spec_owner()@,
                    plan.spec_mint()@,
                ) ==> final(self).records()[i] == old(self).records()[i],
    {
        let owner = plan.owner();
        let mint = plan.mint();
        let found = self.find_record(&owner, &mint);
        let i = match found {
            None => {
                return Err(EscrowError::NotRegistered);
            },
            Some(i) => i,
        };
        let from = plan.from_status();
        let to = plan.new_status();
        if self.records[i].status != from || !is_legal_edge(from, to) {
            return Err(EscrowError::InvalidStatus);
        }
        let ghost before = self.records@;
        self.records[i].status = to;
        assert(self.records@ == before.update(i as int, with_status(before[i as int], to)));
        assert forall|a: int, b: int|
            0 <= a < self.records@.len() && 0 <= b < self.records@.len() && a != b implies !record_key_is(
                #[trigger] self.records@[a],
                self.records@[b].owner@,
                #[trigger] self.records@[b].mint@,
            ) by {
            assert(!record_key_is(before[a], before[b].owner@, before[b].mint@));
        }
        Ok(
            NftStatusUpdatedEvent {
                mint: self.records[i].mint,
                batch_id: self.records[i].batch_id.clone(),
                new_status: to,
            },
        )
    }
}

} // verus!
