//! The replay guard: at most one solution record for each pair of challenge
//! and miner, kept in the order of acceptance and never removed.

use crate::hash::{same_bytes, Digest, Identity};
use vstd::prelude::*;

verus! {

/// An accepted solution.
#[derive(Clone, Copy, Debug, PartialEq, Eq)]
pub struct SolutionRecord {
    /// The address of the challenge that was solved.
    pub challenge: Identity,
    /// Who solved it.
    pub miner: Identity,
    /// The nonce that was submitted.
    pub nonce: u64,
    /// The digest that lay below the target.
    pub pow_hash: Digest,
    /// When the solution was accepted.
    pub submitted_at: i64,
}

/// The answer of the guard when the pair already has its record.
#[derive(Clone, Copy, Debug, PartialEq, Eq, Structural)]
pub struct AlreadyExists;

/// Whether `records` has a record for the pair.
pub open spec fn holds(records: Seq<SolutionRecord>, challenge: Identity, miner: Identity) -> bool {
    exists|i: int|
        0 <= i < records.len() && (#[trigger] records[i]).challenge == challenge && records[i].miner
            == miner
}

/// No two records of `records` are for the same pair.
pub open spec fn distinct_pairs(records: Seq<SolutionRecord>) -> bool {
    forall|i: int, j: int|
        0 <= i < j < records.len() ==> !((#[trigger] records[i]).challenge == (
        #[trigger] records[j]).challenge && records[i].miner == records[j].miner)
}

/// Every solution record that was ever accepted.
pub struct SolutionStore {
    records: Vec<SolutionRecord>,
}

impl View for SolutionStore {
    type V = Seq<SolutionRecord>;

    closed spec fn view(&self) -> Seq<SolutionRecord> {
        self.records@
    }
}

impl SolutionStore {
    /// The guard's invariant: one record per pair at most.
    pub open spec fn wf(&self) -> bool {
        distinct_pairs(self@)
    }

    /// A store without records.
    pub fn new() -> (store: SolutionStore)
        ensures
            store@ == Seq::<SolutionRecord>::empty(),
            store.wf(),
    {
        SolutionStore { records: Vec::new() }
    }

    /// How many records there are.
    pub fn len(&self) -> (n: usize)
        ensures
            n == self@.len(),
    {
        self.records.len()
    }

    /// The record at `handle`, if `handle` was ever given out.
    pub fn get(&self, handle: usize) -> (found: Option<SolutionRecord>)
        ensures
            found == if handle < self@.len() {
                Some(self@[handle as int])
            } else {
                None
            },
    {
        if handle < self.records.len() {
            Some(self.records[handle])
        } else {
            None
        }
    }

    /// Where the record of the pair stands, if it has one.
    pub fn position(&self, challenge: &Identity, miner: &Identity) -> (found: Option<usize>)
        ensures
            found is None <==> !holds(self@, *challenge, *miner),
            found is Some ==> found->Some_0 < self@.len() && self@[found->Some_0 as int].challenge
                == *challenge && self@[found->Some_0 as int].miner == *miner,
    {
        let mut i: usize = 0;
        while i < self.records.len()
            invariant
                i <= self.records@.len(),
                forall|j: int|
                    0 <= j < i ==> !((#[trigger] self.records@[j]).challenge == *challenge
                        && self.records@[j].miner == *miner),
            decreases self.records@.len() - i,
        {
            if same_bytes(&self.records[i].challenge, challenge) && same_bytes(
                &self.records[i].miner,
                miner,
            ) {
                return Some(i);
            }
            i += 1;
        }
        None
    }

    /// Whether the pair has its record.
    pub fn contains(&self, challenge: &Identity, miner: &Identity) -> (present: bool)
        ensures
            present == holds(self@, *challenge, *miner),
    {
        self.position(challenge, miner).is_some()
    }

    /// The record of the pair, if it has one.
    pub fn find(&self, challenge: &Identity, miner: &Identity) -> (found: Option<SolutionRecord>)
        ensures
            found is None <==> !holds(self@, *challenge, *miner),
            found is Some ==> self@.contains(found->Some_0) && found->Some_0.challenge
                == *challenge && found->Some_0.miner == *miner,
    {
        match self.position(challenge, miner) {
            Some(at) => Some(self.records[at]),
            None => None,
        }
    }

    /// Creates `record` unless its pair has one already. On success the
    /// record is appended and its handle returned; otherwise nothing changes.
    pub fn try_create(&mut self, record: SolutionRecord) -> (created: Result<usize, AlreadyExists>)
        requires
            old(self).wf(),
        ensures
            final(self).wf(),
            holds(old(self)@, record.challenge, record.miner) ==> created == Err::<
                usize,
                AlreadyExists,
            >(AlreadyExists) && final(self)@ == old(self)@,
            !holds(old(self)@, record.challenge, record.miner) ==> created == Ok::<
                usize,
                AlreadyExists,
            >(old(self)@.len() as usize) && final(self)@ == old(self)@.push(record),
            holds(final(self)@, record.challenge, record.miner),
    {
        if self.contains(&record.challenge, &record.miner) {
            return Err(AlreadyExists);
        }
        let handle: usize = self.records.len();
        self.records.push(record);
        assert(self@[handle as int] == record);
        Ok(handle)
    }
}

/// In a store that keeps its invariant, two records for one pair are one
/// record.
pub proof fn lemma_one_record_per_pair(store: SolutionStore, i: int, j: int)
    requires
        store.wf(),
        0 <= i < store@.len(),
        0 <= j < store@.len(),
        store@[i].challenge == store@[j].challenge,
        store@[i].miner == store@[j].miner,
    ensures
        i == j,
{
}

} // verus!
