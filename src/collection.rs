//! An in-memory collection of students. The collection assigns each record
//! its identifier on insertion, keeps identifiers unique, and walks records
//! in the order they were inserted.

use crate::error::GatewayError;
use crate::gateway::{check_candidate, read_target, write_target};
use crate::object_id::{id_bytes_of, is_id_text, StudentId};
use crate::student::{patched, PatchView, Student, StudentFields, StudentPatch, StudentView};
use vstd::prelude::*;

verus! {

/// A stored record as values: its identifier's bytes and its fields.
pub type Entry = (Seq<u8>, StudentFields);

/// The entry of a record that has an identifier.
pub open spec fn entry_of(s: StudentView) -> Entry {
    (s.id.unwrap(), s.fields)
}

/// No two entries share an identifier.
pub open spec fn unique_ids(v: Seq<Entry>) -> bool {
    forall|i: int, j: int|
        0 <= i < v.len() && 0 <= j < v.len() && i != j ==> #[trigger] v[i].0 != #[trigger] v[j].0
}

/// Some entry has the identifier `id`.
pub open spec fn has_id(v: Seq<Entry>, id: Seq<u8>) -> bool {
    exists|i: int| 0 <= i < v.len() && #[trigger] v[i].0 == id
}

/// Where the entry with identifier `id` stands, when there is one.
pub open spec fn position(v: Seq<Entry>, id: Seq<u8>) -> int {
    choose|i: int| 0 <= i < v.len() && #[trigger] v[i].0 == id
}

/// The fields stored under `id`, if any.
pub open spec fn lookup(v: Seq<Entry>, id: Seq<u8>) -> Option<StudentFields> {
    if has_id(v, id) {
        Some(v[position(v, id)].1)
    } else {
        None
    }
}

/// The entries after a record with fields `f` is inserted under `id`; an
/// identifier that is already taken leaves them as they are.
pub open spec fn after_insert(v: Seq<Entry>, id: Seq<u8>, f: StudentFields) -> Seq<Entry> {
    if has_id(v, id) {
        v
    } else {
        v.push((id, f))
    }
}

/// The entries after `p` is applied to the record under `id`, if any.
pub open spec fn after_update(v: Seq<Entry>, id: Seq<u8>, p: PatchView) -> Seq<Entry> {
    if has_id(v, id) {
        v.update(position(v, id), (id, patched(v[position(v, id)].1, p)))
    } else {
        v
    }
}

/// The entries after the record under `id`, if any, is removed.
pub open spec fn after_delete(v: Seq<Entry>, id: Seq<u8>) -> Seq<Entry> {
    if has_id(v, id) {
        v.remove(position(v, id))
    } else {
        v
    }
}

/// With unique identifiers, an entry's index is the position of its identifier.
pub proof fn lemma_position_is_index(v: Seq<Entry>, i: int)
    requires
        unique_ids(v),
        0 <= i < v.len(),
    ensures
        has_id(v, v[i].0),
        position(v, v[i].0) == i,
{
    assert(has_id(v, v[i].0));
}

/// The students of one collection.
pub struct Collection {
    records: Vec<Student>,
}

impl View for Collection {
    type V = Seq<Entry>;

    closed spec fn view(&self) -> Seq<Entry> {
        self.records@.map_values(|s: Student| entry_of(s@))
    }
}

impl Collection {
    /// Every record carries an identifier.
    pub closed spec fn ids_present(&self) -> bool {
        forall|i: int| 0 <= i < self.records@.len() ==> (#[trigger] self.records@[i])@.id is Some
    }

    /// The collection's invariant: identifiers present and unique.
    pub open spec fn wf(&self) -> bool {
        self.ids_present() && unique_ids(self@)
    }

    /// An empty collection.
    pub fn new() -> (r: Collection)
        ensures
            r.wf(),
            r@ == Seq::<Entry>::empty(),
    {
        let r = Collection { records: Vec::new() };
        assert(r@ =~= Seq::<Entry>::empty());
        r
    }

    /// The number of stored records.
    pub fn len(&self) -> (r: usize)
        ensures
            r == self@.len(),
    {
        self.records.len()
    }

    /// The index of the record with identifier `id`, if any.
    fn index_of(&self, id: &StudentId) -> (r: Option<usize>)
        requires
            self.wf(),
        ensures
            r is Some <==> has_id(self@, id@),
            r matches Some(i) ==> i == position(self@, id@) && i < self@.len(),
    {
        let mut i: usize = 0;
        while i < self.records.len()
            invariant
                self.wf(),
                0 <= i <= self.records@.len(),
                forall|j: int| 0 <= j < i ==> (#[trigger] self@[j]).0 != id@,
            decreases self.records@.len() - i,
        {
            assert(self.records@[i as int]@.id is Some);
            let found = match &self.records[i].id {
                Some(k) => k.same_as(id),
                None => false,
            };
            if found {
                assert(self@[i as int].0 == id@);
                proof {
                    lemma_position_is_index(self@, i as int);
                }
                return Some(i);
            }
            i = i + 1;
        }
        None
    }

    /// Every record, in the order of insertion.
    pub fn list(&self) -> (r: Vec<Student>)
        requires
            self.wf(),
        ensures
            r@.len() == self@.len(),
            forall|i: int| 0 <= i < r@.len() ==> (#[trigger] r@[i])@.id is Some && entry_of(r@[i]@) == self@[i],
    {
        let mut out: Vec<Student> = Vec::new();
        let mut i: usize = 0;
        while i < self.records.len()
            invariant
                self.wf(),
                0 <= i <= self.records@.len(),
                out@.len() == i,
                forall|j: int| 0 <= j < i ==> (#[trigger] out@[j])@.id is Some && entry_of(out@[j]@) == self@[j],
            decreases self.records@.len() - i,
        {
            assert(self.records@[i as int]@.id is Some);
            out.push(self.records[i].duplicate());
            i = i + 1;
        }
        out
    }

    /// Stores the fields of `candidate` under `id`. An identifier that is
    /// already taken is refused, as the store refuses a duplicate key.
    pub fn insert_with_id(&mut self, id: StudentId, candidate: &Student) -> (r: Result<StudentId, GatewayError>)
        requires
            old(self).wf(),
        ensures
            final(self).wf(),
            r is Ok <==> !has_id(old(self)@, id@),
            r matches Ok(k) ==> k@ == id@,
            r matches Err(e) ==> e == GatewayError::StorageUnavailable,
            final(self)@ == after_insert(old(self)@, id@, candidate@.fields),
    {
        if self.index_of(&id).is_some() {
            return Err(GatewayError::StorageUnavailable);
        }
        let ghost before = self@;
        let rec = candidate.with_id(id);
        self.records.push(rec);
        assert(self@ =~= before.push((id@, candidate@.fields)));
        assert forall|i: int| 0 <= i < self.records@.len() implies (#[trigger] self.records@[i])@.id is Some by {
            if i < before.len() {
                assert(old(self).records@[i]@.id is Some);
            }
        }
        assert forall|i: int, j: int|
            0 <= i < self@.len() && 0 <= j < self@.len() && i != j implies #[trigger] self@[i].0 != #[trigger] self@[j].0 by {
            if i == before.len() {
                assert(before[j].0 == self@[j].0);
            } else if j == before.len() {
                assert(before[i].0 == self@[i].0);
            }
        }
        Ok(id)
    }

    /// Inserts `candidate` under an identifier that the collection assigns.
    /// A candidate that carries an identifier of its own is refused. Into an
    /// empty collection a candidate without one is always inserted; otherwise
    /// the assigned identifier may collide with a stored one, and the insert
    /// is refused as the store refuses a duplicate key.
    pub fn create(&mut self, candidate: &Student) -> (r: Result<StudentId, GatewayError>)
        requires
            old(self).wf(),
        ensures
            final(self).wf(),
            r matches Ok(k) ==> !has_id(old(self)@, k@) && final(self)@ == old(self)@.push(
                (k@, candidate@.fields),
            ),
            r is Err ==> final(self)@ == old(self)@,
            r == Err::<StudentId, GatewayError>(GatewayError::InvalidIdentifier) <==> candidate@.id is Some,
            r == Err::<StudentId, GatewayError>(GatewayError::StorageUnavailable) ==> old(self)@.len() > 0,
            r is Err ==> r == Err::<StudentId, GatewayError>(GatewayError::InvalidIdentifier) || r == Err::<
                StudentId,
                GatewayError,
            >(GatewayError::StorageUnavailable),
            old(self)@.len() == 0 && candidate@.id is None ==> r is Ok,
    {
        match check_candidate(candidate) {
            Ok(()) => {},
            Err(e) => {
                return Err(e);
            },
        }
        let id = StudentId::generate();
        self.insert_with_id(id, candidate)
    }

    /// The record with identifier `id`, if any.
    pub fn find_by_id(&self, id: &StudentId) -> (r: Option<Student>)
        requires
            self.wf(),
        ensures
            r is Some <==> has_id(self@, id@),
            r matches Some(s) ==> s@.id == Some(id@) && lookup(self@, id@) == Some(s@.fields),
    {
        match self.index_of(id) {
            Some(i) => {
                assert(self.records@[i as int]@.id is Some);
                Some(self.records[i].duplicate())
            },
            None => None,
        }
    }

    /// Applies `patch` to the record with identifier `id`; returns whether a
    /// record matched. With no match nothing changes.
    pub fn update_by_id(&mut self, id: &StudentId, patch: &StudentPatch) -> (r: bool)
        requires
            old(self).wf(),
        ensures
            final(self).wf(),
            r == has_id(old(self)@, id@),
            final(self)@ == after_update(old(self)@, id@, patch@),
    {
        match self.index_of(id) {
            Some(i) => {
                let ghost before = self@;
                assert(self.records@[i as int]@.id is Some);
                let mut rec = self.records[i].duplicate();
                patch.apply_to(&mut rec);
                self.records.set(i, rec);
                assert(self@ =~= before.update(i as int, (id@, patched(before[i as int].1, patch@))));
                assert forall|j: int| 0 <= j < self.records@.len() implies (#[trigger] self.records@[j])@.id is Some by {
                    if j != i {
                        assert(old(self).records@[j]@.id is Some);
                    }
                }
                assert forall|a: int, b: int|
                    0 <= a < self@.len() && 0 <= b < self@.len() && a != b implies #[trigger] self@[a].0 != #[trigger] self@[b].0 by {
                    assert(self@[a].0 == before[a].0);
                    assert(self@[b].0 == before[b].0);
                }
                true
            },
            None => false,
        }
    }

    /// Removes the record with identifier `id`; returns whether a record
    /// matched. With no match nothing changes.
    pub fn delete_by_id(&mut self, id: &StudentId) -> (r: bool)
        requires
            old(self).wf(),
        ensures
            final(self).wf(),
            r == has_id(old(self)@, id@),
            final(self)@ == after_delete(old(self)@, id@),
    {
        match self.index_of(id) {
            Some(i) => {
                let ghost before = self@;
                let ghost recs = self.records@;
                let _gone = self.records.remove(i);
                assert(self@ =~= before.remove(i as int));
                assert forall|j: int| 0 <= j < self.records@.len() implies (#[trigger] self.records@[j])@.id is Some by {
                    if j < i {
                        assert(recs[j]@.id is Some);
                    } else {
                        assert(recs[j + 1]@.id is Some);
                    }
                }
                assert forall|a: int, b: int|
                    0 <= a < self@.len() && 0 <= b < self@.len() && a != b implies #[trigger] self@[a].0 != #[trigger] self@[b].0 by {
                    let a0 = if a < i { a } else { a + 1 };
                    let b0 = if b < i { b } else { b + 1 };
                    assert(self@[a] == before[a0]);
                    assert(self@[b] == before[b0]);
                }
                true
            },
            None => false,
        }
    }
    /// Get by identifier text: text that is not an identifier finds nothing,
    /// as an identifier that no record has.
    pub fn get(&self, id: &str) -> (r: Option<Student>)
        requires
            self.wf(),
        ensures
            !is_id_text(id@) ==> r is None,
            is_id_text(id@) ==> match r {
                Some(s) => s@.id == Some(id_bytes_of(id@)) && lookup(self@, id_bytes_of(id@)) == Some(
                    s@.fields,
                ),
                None => lookup(self@, id_bytes_of(id@)) is None,
            },
    {
        match read_target(id) {
            Some(k) => self.find_by_id(&k),
            None => None,
        }
    }

    /// Update by identifier text. Text that is not an identifier is refused
    /// and changes nothing; an identifier that no record has is a successful
    /// no-op.
    pub fn update(&mut self, id: &str, patch: &StudentPatch) -> (r: Result<(), GatewayError>)
        requires
            old(self).wf(),
        ensures
            final(self).wf(),
            r is Ok <==> is_id_text(id@),
            r matches Err(e) ==> e == GatewayError::InvalidIdentifier && final(self)@ == old(self)@,
            r is Ok ==> final(self)@ == after_update(old(self)@, id_bytes_of(id@), patch@),
    {
        let k = write_target(id)?;
        let _matched = self.update_by_id(&k, patch);
        Ok(())
    }

    /// Delete by identifier text. Text that is not an identifier is refused
    /// and changes nothing; an identifier that no record has is a successful
    /// no-op.
    pub fn delete(&mut self, id: &str) -> (r: Result<(), GatewayError>)
        requires
            old(self).wf(),
        ensures
            final(self).wf(),
            r is Ok <==> is_id_text(id@),
            r matches Err(e) ==> e == GatewayError::InvalidIdentifier && final(self)@ == old(self)@,
            r is Ok ==> final(self)@ == after_delete(old(self)@, id_bytes_of(id@)),
    {
        let k = write_target(id)?;
        let _matched = self.delete_by_id(&k);
        Ok(())
    }
}

} // verus!
