//! The version store: the ordered sequence of records behind a contract.
//! Records are appended; the one removal moves the last record into the
//! freed slot, so a slot is no lasting identity.

use vstd::prelude::*;
use crate::error::StoreError;
use crate::schema::{Version, VersionView};

verus! {

/// What `swap_remove` leaves of `records`: the last record stands at
/// `index`, and the sequence is one shorter.
pub open spec fn swap_removed(records: Seq<VersionView>, index: int) -> Seq<VersionView> {
    records.update(index, records.last()).drop_last()
}

/// An ordered sequence of records, addressed by slot.
#[derive(Debug)]
pub struct VersionStore {
    records: Vec<Version>,
}

impl View for VersionStore {
    type V = Seq<VersionView>;

    closed spec fn view(&self) -> Seq<VersionView> {
        self.records@.map_values(|r: Version| r@)
    }
}

impl VersionStore {
    /// A store without records.
    pub fn new() -> (store: VersionStore)
        ensures
            store@ == Seq::<VersionView>::empty(),
    {
        let store = VersionStore { records: Vec::new() };
        assert(store@ =~= Seq::<VersionView>::empty());
        store
    }

    /// The number of records.
    pub fn len(&self) -> (n: u64)
        ensures
            n == self@.len(),
    {
        self.records.len() as u64
    }

    /// Whether the store holds no record.
    pub fn is_empty(&self) -> (empty: bool)
        ensures
            empty == (self@.len() == 0),
    {
        self.records.len() == 0
    }

    /// Appends `record` and returns the new length.
    pub fn append(&mut self, record: Version) -> (n: u64)
        ensures
            final(self)@ == old(self)@.push(record@),
            n == old(self)@.len() + 1,
    {
        self.records.push(record);
        assert(self@ =~= old(self)@.push(record@));
        self.records.len() as u64
    }

    /// The record at `index`, if the store has that slot.
    pub fn get(&self, index: u64) -> (slot: Option<&Version>)
        ensures
            index < self@.len() ==> slot is Some && slot->0@ == self@[index as int],
            index >= self@.len() ==> slot is None,
    {
        if index >= self.records.len() as u64 {
            None
        } else {
            Some(&self.records[index as usize])
        }
    }

    /// The record at `index`, to be rewritten in place: what the caller
    /// leaves in it is what the store holds at that slot afterwards.
    pub fn get_mut(&mut self, index: u64) -> (slot: Option<&mut Version>)
        ensures
            index >= old(self)@.len() ==> slot is None && *final(self) == *old(self),
            index < old(self)@.len() ==> slot is Some && (*slot->0)@ == old(self)@[index as int]
                && final(self)@ == old(self)@.update(index as int, (*final(slot->0))@),
    {
        if index >= self.records.len() as u64 {
            None
        } else {
            let i = index as usize;
            let record = &mut self.records[i];
            proof {
                assert(old(self).records@.update(i as int, *final(record)).map_values(
                    |r: Version| r@,
                ) =~= old(self)@.update(index as int, (*final(record))@));
            }
            Some(record)
        }
    }

    /// Puts `record` in place of the record at `index`.
    pub fn replace(&mut self, index: u64, record: Version) -> (done: Result<(), StoreError>)
        ensures
            index < old(self)@.len() ==> done == Ok::<(), StoreError>(()) && final(self)@ == old(
                self,
            )@.update(index as int, record@),
            index >= old(self)@.len() ==> done == Err::<(), StoreError>(
                StoreError::IndexOutOfRange,
            ) && *final(self) == *old(self),
    {
        if index >= self.records.len() as u64 {
            Err(StoreError::IndexOutOfRange)
        } else {
            self.records.set(index as usize, record);
            assert(self@ =~= old(self)@.update(index as int, record@));
            Ok(())
        }
    }

    /// Removes the record at `index`; the last record takes its slot. Where
    /// `index` is the last slot, nothing moves.
    pub fn swap_remove(&mut self, index: u64) -> (done: Result<(), StoreError>)
        ensures
            index < old(self)@.len() ==> done == Ok::<(), StoreError>(()) && final(self)@
                == swap_removed(old(self)@, index as int),
            index >= old(self)@.len() ==> done == Err::<(), StoreError>(
                StoreError::IndexOutOfRange,
            ) && *final(self) == *old(self),
    {
        if index >= self.records.len() as u64 {
            Err(StoreError::IndexOutOfRange)
        } else {
            let _removed = self.records.swap_remove(index as usize);
            assert(self@ =~= swap_removed(old(self)@, index as int));
            Ok(())
        }
    }
}

} // verus!
