//! The document collection the service relies on, as verified semantics:
//! insert-one, find-all in storage order, replace-one-by-identifier and
//! delete-one-by-identifier, each answering with an acknowledgment that
//! counts what it touched. It also serves as the substitute storage
//! collaborator for exercising the service without a database.

use vstd::prelude::*;

use crate::model::{Todo, TodoInput, TodoInputView, TodoView};

verus! {

/// The acknowledgment of a successful insert: the identifier written.
#[derive(Clone, Copy, Debug, PartialEq, Eq, Structural)]
pub struct InsertAck {
    pub inserted_id: u128,
}

/// The acknowledgment of an update: how many records the identifier
/// matched and how many were rewritten.
#[derive(Clone, Copy, Debug, PartialEq, Eq, Structural)]
pub struct UpdateAck {
    pub matched: u64,
    pub modified: u64,
}

/// The acknowledgment of a delete: how many records were removed.
#[derive(Clone, Copy, Debug, PartialEq, Eq, Structural)]
pub struct DeleteAck {
    pub deleted: u64,
}

/// Why a write was refused.
#[derive(Clone, Copy, Debug, PartialEq, Eq, Structural)]
pub enum StoreError {
    /// The record's identifier is already taken.
    DuplicateId,
    /// The record breaks the resource invariant.
    InvalidRecord,
}

/// Whether some record in `s` carries the identifier `id`.
pub open spec fn contains_id(s: Seq<TodoView>, id: u128) -> bool {
    exists|i: int| 0 <= i < s.len() && s[i].id == id
}

/// The record a stored one becomes when an update replaces its caller
/// fields: the identifier and the creation instant stay, the rest comes
/// from the input, and the update instant moves forward, never back.
pub open spec fn replaced_view(t: TodoView, inp: TodoInputView, now: int) -> TodoView {
    TodoView {
        id: t.id,
        title: inp.title,
        description: inp.description,
        completed: inp.completed,
        created_at: t.created_at,
        updated_at: if now >= t.created_at {
            now
        } else {
            t.created_at
        },
    }
}

/// An in-memory document collection of todo records, in insertion order.
pub struct Store {
    pub records: Vec<Todo>,
}

impl View for Store {
    type V = Seq<TodoView>;

    open spec fn view(&self) -> Seq<TodoView> {
        Seq::new(self.records@.len(), |i: int| self.records@[i]@)
    }
}

impl Store {
    /// Every stored record keeps the resource invariant, and no two share
    /// an identifier.
    pub open spec fn wf(self) -> bool {
        &&& forall|i: int| 0 <= i < self@.len() ==> self@[i].wf()
        &&& forall|i: int, j: int|
            0 <= i < j < self@.len() ==> self@[i].id != self@[j].id
    }

    /// An empty collection.
    pub fn new() -> (s: Store)
        ensures
            s@.len() == 0,
            s.wf(),
    {
        Store { records: Vec::new() }
    }

    /// The position of the record carrying `id`, if any.
    fn find_index(&self, id: u128) -> (r: Option<usize>)
        ensures
            match r {
                Some(i) => i < self@.len() && self@[i as int].id == id && (forall|j: int|
                    0 <= j < i ==> self@[j].id != id),
                None => !contains_id(self@, id),
            },
    {
        let n = self.records.len();
        let mut i: usize = 0;
        while i < n
            invariant
                i <= n,
                n == self.records@.len(),
                forall|j: int| 0 <= j < i ==> self@[j].id != id,
            decreases n - i,
        {
            if self.records[i].id == id {
                return Some(i);
            }
            i = i + 1;
        }
        None
    }

    /// Writes a new record, refusing a broken record and a taken
    /// identifier; on success the record stands at the end, and the
    /// acknowledgment names its identifier.
    pub fn insert_one(&mut self, t: Todo) -> (r: Result<InsertAck, StoreError>)
        requires
            old(self).wf(),
        ensures
            final(self).wf(),
            match r {
                Ok(a) => {
                    &&& t@.wf()
                    &&& !contains_id(old(self)@, t.id)
                    &&& a.inserted_id == t.id
                    &&& final(self)@ =~= old(self)@.push(t@)
                },
                Err(e) => {
                    &&& final(self)@ == old(self)@
                    &&& (e == StoreError::InvalidRecord <==> !t@.wf())
                    &&& (e == StoreError::DuplicateId <==> t@.wf() && contains_id(
                        old(self)@,
                        t.id,
                    ))
                },
            },
            r is Ok <==> t@.wf() && !contains_id(old(self)@, t.id),
    {
        if t.id == 0 || t.created_at > t.updated_at {
            return Err(StoreError::InvalidRecord);
        }
        match self.find_index(t.id) {
            Some(_) => Err(StoreError::DuplicateId),
            None => {
                let ghost before = self@;
                let ghost tv = t@;
                let tid = t.id;
                self.records.push(t);
                proof {
                    assert(self@ =~= before.push(tv));
                }
                Ok(InsertAck { inserted_id: tid })
            },
        }
    }

    /// Hands out every stored record, in storage order.
    pub fn find_all(&self) -> (r: Vec<Todo>)
        ensures
            r@.len() == self@.len(),
            forall|i: int| 0 <= i < r@.len() ==> r@[i]@ == self@[i],
    {
        let n = self.records.len();
        let mut out: Vec<Todo> = Vec::new();
        let mut i: usize = 0;
        while i < n
            invariant
                i <= n,
                n == self.records@.len(),
                out@.len() == i,
                forall|j: int| 0 <= j < i ==> out@[j]@ == self@[j],
            decreases n - i,
        {
            out.push(self.records[i].duplicate());
            i = i + 1;
        }
        out
    }

    /// Replaces the caller fields of the record matching `id` and stamps
    /// its update instant; a miss matches zero records and changes
    /// nothing. The identifier and the creation instant of the matched
    /// record stay as they were.
    pub fn update_one(&mut self, id: u128, input: &TodoInput, now: i64) -> (r: UpdateAck)
        requires
            old(self).wf(),
        ensures
            final(self).wf(),
            final(self)@.len() == old(self)@.len(),
            forall|i: int|
                0 <= i < old(self)@.len() && old(self)@[i].id != id ==> final(self)@[i] == old(
                    self,
                )@[i],
            forall|i: int|
                0 <= i < old(self)@.len() && old(self)@[i].id == id ==> final(self)@[i]
                    == replaced_view(old(self)@[i], input@, now as int),
            r.matched == (if contains_id(old(self)@, id) {
                1u64
            } else {
                0u64
            }),
            r.modified == r.matched,
            !contains_id(old(self)@, id) ==> final(self)@ == old(self)@,
    {
        match self.find_index(id) {
            None => UpdateAck { matched: 0, modified: 0 },
            Some(i) => {
                let ghost before = self@;
                let stored = &self.records[i];
                let created_at = stored.created_at;
                let updated_at = if now >= created_at {
                    now
                } else {
                    created_at
                };
                let replacement = Todo {
                    id: stored.id,
                    title: input.title.clone(),
                    description: input.description.clone(),
                    completed: input.completed,
                    created_at,
                    updated_at,
                };
                let ghost rv = replacement@;
                self.records.remove(i);
                self.records.insert(i, replacement);
                proof {
                    assert(self@ =~= before.update(i as int, rv));
                    assert forall|a: int, b: int| 0 <= a < b < self@.len() implies self@[a].id
                        != self@[b].id by {
                        assert(before[a].id != before[b].id);
                    }
                }
                UpdateAck { matched: 1, modified: 1 }
            },
        }
    }

    /// Removes the record matching `id`, if any; afterwards no stored
    /// record carries that identifier, and everything else stands as it
    /// did, in the same order.
    pub fn delete_one(&mut self, id: u128) -> (r: DeleteAck)
        requires
            old(self).wf(),
        ensures
            final(self).wf(),
            !contains_id(final(self)@, id),
            r.deleted == (if contains_id(old(self)@, id) {
                1u64
            } else {
                0u64
            }),
            !contains_id(old(self)@, id) ==> final(self)@ == old(self)@,
            contains_id(old(self)@, id) ==> exists|i: int|
                0 <= i < old(self)@.len() && old(self)@[i].id == id && final(self)@ == old(
                    self,
                )@.remove(i),
    {
        match self.find_index(id) {
            None => DeleteAck { deleted: 0 },
            Some(i) => {
                let ghost before = self@;
                self.records.remove(i);
                proof {
                    assert(self@ =~= before.remove(i as int));
                    assert forall|a: int, b: int| 0 <= a < b < self@.len() implies self@[a].id
                        != self@[b].id by {
                        if b < i {
                            assert(before[a].id != before[b].id);
                        } else if a < i {
                            assert(before[a].id != before[b + 1].id);
                        } else {
                            assert(before[a + 1].id != before[b + 1].id);
                        }
                    }
                    assert forall|k: int| 0 <= k < self@.len() implies self@[k].id != id by {
                        if k < i {
                            assert(before[k].id != before[i as int].id);
                        } else {
                            assert(before[i as int].id != before[k + 1].id);
                        }
                    }
                }
                DeleteAck { deleted: 1 }
            },
        }
    }
}

} // verus!
