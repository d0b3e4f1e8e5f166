//! The ordered collection of lap records and the operations on it.
//!
//! Records are addressed by position; a removal shifts the later records
//! down by one. Validation rejects a negative total time.

use vstd::prelude::*;
use crate::lap::{LapRecord, valid_total, at_position, positioned};

verus! {

/// Why an operation on the store was refused.
#[derive(Clone, Copy, Debug, PartialEq, Eq, Structural)]
pub enum LapError {
    /// The record's total time is negative.
    Validation,
    /// No record stands at the given position.
    NotFound,
}

/// The authoritative collection of records, in insertion order.
pub struct LapStore {
    laps: Vec<LapRecord>,
}

impl View for LapStore {
    type V = Seq<LapRecord>;

    closed spec fn view(&self) -> Seq<LapRecord> {
        self.laps@
    }
}

impl LapStore {
    /// An empty store.
    pub fn new() -> (s: LapStore)
        ensures
            s@ == Seq::<LapRecord>::empty(),
    {
        LapStore { laps: Vec::new() }
    }

    /// A store that holds `laps`, in their order.
    pub fn from_records(laps: Vec<LapRecord>) -> (s: LapStore)
        ensures
            s@ == laps@,
    {
        LapStore { laps }
    }

    /// The number of records.
    pub fn len(&self) -> (n: usize)
        ensures
            n == self@.len(),
    {
        self.laps.len()
    }

    /// A snapshot of the collection, each record carrying its position.
    pub fn list_all(&self) -> (r: Vec<LapRecord>)
        ensures
            r@ == positioned(self@),
    {
        let mut r: Vec<LapRecord> = Vec::new();
        let mut i: usize = 0;
        while i < self.laps.len()
            invariant
                i <= self.laps@.len(),
                r@ == positioned(self@.take(i as int)),
            decreases self.laps@.len() - i,
        {
            r.push(self.laps[i].with_position(i));
            proof {
                assert(positioned(self@.take(i + 1)) =~= positioned(self@.take(i as int)).push(
                    at_position(self@[i as int], i as int),
                ));
            }
            i = i + 1;
        }
        proof {
            assert(self@.take(i as int) =~= self@);
        }
        r
    }

    /// Adds `rec` at the end.
    pub fn append(&mut self, rec: LapRecord)
        ensures
            final(self)@ == old(self)@.push(rec),
    {
        self.laps.push(rec);
    }

    /// Overwrites the record at `index`; `NotFound` when there is none.
    pub fn replace_at(&mut self, index: usize, rec: LapRecord) -> (r: Result<(), LapError>)
        ensures
            index < old(self)@.len() ==> r is Ok && final(self)@ == old(self)@.update(
                index as int,
                rec,
            ),
            index >= old(self)@.len() ==> r == Err::<(), LapError>(LapError::NotFound)
                && final(self)@ == old(self)@,
    {
        if index >= self.laps.len() {
            return Err(LapError::NotFound);
        }
        self.laps.set(index, rec);
        Ok(())
    }

    /// Removes the record at `index`, shifting the later ones down by one;
    /// `NotFound` when there is none.
    pub fn remove_at(&mut self, index: usize) -> (r: Result<(), LapError>)
        ensures
            index < old(self)@.len() ==> r is Ok && final(self)@ == old(self)@.remove(index as int),
            index >= old(self)@.len() ==> r == Err::<(), LapError>(LapError::NotFound)
                && final(self)@ == old(self)@,
    {
        if index >= self.laps.len() {
            return Err(LapError::NotFound);
        }
        self.laps.remove(index);
        Ok(())
    }

    /// Validates and appends `rec`; returns the stored record as it is
    /// listed, at the new last position.
    pub fn create_lap(&mut self, rec: LapRecord) -> (r: Result<LapRecord, LapError>)
        ensures
            valid_total(rec) ==> r == Ok::<LapRecord, LapError>(
                at_position(rec, old(self)@.len() as int),
            ) && final(self)@ == old(self)@.push(rec),
            !valid_total(rec) ==> r == Err::<LapRecord, LapError>(LapError::Validation)
                && final(self)@ == old(self)@,
    {
        if !rec.has_valid_total() {
            return Err(LapError::Validation);
        }
        let pos = self.laps.len();
        let out = rec.with_position(pos);
        self.append(rec);
        Ok(out)
    }

    /// Validates `rec` and puts it in place of the record at `index`;
    /// returns the stored record as it is listed.
    pub fn update_lap(&mut self, index: usize, rec: LapRecord) -> (r: Result<
        LapRecord,
        LapError,
    >)
        ensures
            !valid_total(rec) ==> r == Err::<LapRecord, LapError>(LapError::Validation)
                && final(self)@ == old(self)@,
            valid_total(rec) && index >= old(self)@.len() ==> r == Err::<LapRecord, LapError>(
                LapError::NotFound,
            ) && final(self)@ == old(self)@,
            valid_total(rec) && index < old(self)@.len() ==> r == Ok::<LapRecord, LapError>(
                at_position(rec, index as int),
            ) && final(self)@ == old(self)@.update(index as int, rec),
    {
        if !rec.has_valid_total() {
            return Err(LapError::Validation);
        }
        let out = rec.with_position(index);
        match self.replace_at(index, rec) {
            Ok(()) => Ok(out),
            Err(e) => Err(e),
        }
    }

    /// Removes the record at `index`.
    pub fn delete_lap(&mut self, index: usize) -> (r: Result<(), LapError>)
        ensures
            index < old(self)@.len() ==> r is Ok && final(self)@ == old(self)@.remove(index as int),
            index >= old(self)@.len() ==> r == Err::<(), LapError>(LapError::NotFound)
                && final(self)@ == old(self)@,
    {
        self.remove_at(index)
    }

    /// The records as they are listed.
    pub fn list_laps(&self) -> (r: Vec<LapRecord>)
        ensures
            r@ == positioned(self@),
    {
        self.list_all()
    }
}

/// Once a record has been appended, the listing is the earlier listing with
/// that record added at the last position.
pub proof fn listing_after_append(before: Seq<LapRecord>, rec: LapRecord)
    ensures
        positioned(before.push(rec)) == positioned(before).push(
            at_position(rec, before.len() as int),
        ),
{
    assert(positioned(before.push(rec)) =~= positioned(before).push(
        at_position(rec, before.len() as int),
    ));
}

/// Once the record at `index` has been replaced, the listing differs from
/// the earlier one at `index` alone, where it holds the new record.
pub proof fn listing_after_replace(before: Seq<LapRecord>, index: int, rec: LapRecord)
    requires
        0 <= index < before.len(),
    ensures
        positioned(before.update(index, rec)) == positioned(before).update(
            index,
            at_position(rec, index),
        ),
{
    assert(positioned(before.update(index, rec)) =~= positioned(before).update(
        index,
        at_position(rec, index),
    ));
}

/// Removing the record at `index` leaves one record fewer: those before
/// `index` are listed as before, and each later one moves down by one
/// position.
pub proof fn listing_after_remove(before: Seq<LapRecord>, index: int)
    requires
        0 <= index < before.len(),
    ensures
        positioned(before.remove(index)).len() == before.len() - 1,
        forall|j: int|
            0 <= j < index ==> #[trigger] positioned(before.remove(index))[j] == positioned(
                before,
            )[j],
        forall|j: int|
            index <= j < before.len() - 1 ==> #[trigger] positioned(before.remove(index))[j]
                == at_position(before[j + 1], j),
{
}

} // verus!
