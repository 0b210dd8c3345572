//! The todo resource: its fields and the invariant that binds them.

use vstd::prelude::*;

verus! {

/// A stored task record. The identifier is a 128-bit value generated by
/// the service; the two timestamps are UTC instants in milliseconds since
/// the epoch, stamped by the service.
#[derive(Debug)]
pub struct Todo {
    pub id: u128,
    pub title: String,
    pub description: String,
    pub completed: bool,
    pub created_at: i64,
    pub updated_at: i64,
}

/// The ghost image of a record: the fields as mathematical values.
pub ghost struct TodoView {
    pub id: u128,
    pub title: Seq<char>,
    pub description: Seq<char>,
    pub completed: bool,
    pub created_at: int,
    pub updated_at: int,
}

impl View for Todo {
    type V = TodoView;

    open spec fn view(&self) -> TodoView {
        TodoView {
            id: self.id,
            title: self.title@,
            description: self.description@,
            completed: self.completed,
            created_at: self.created_at as int,
            updated_at: self.updated_at as int,
        }
    }
}

impl TodoView {
    /// What every stored record satisfies: a non-empty identifier and a
    /// creation instant that never lies after the last update.
    pub open spec fn wf(self) -> bool {
        self.id != 0 && self.created_at <= self.updated_at
    }
}

impl Todo {
    pub open spec fn wf(self) -> bool {
        self@.wf()
    }

    /// A field-for-field copy.
    pub fn duplicate(&self) -> (r: Todo)
        ensures
            r@ == self@,
    {
        Todo {
            id: self.id,
            title: self.title.clone(),
            description: self.description.clone(),
            completed: self.completed,
            created_at: self.created_at,
            updated_at: self.updated_at,
        }
    }
}

/// What a caller supplies when creating or replacing a record: the caller
/// may name an identifier, but the service discards it.
pub struct TodoInput {
    pub id: Option<u128>,
    pub title: String,
    pub description: String,
    pub completed: bool,
}

/// The ghost image of a caller's input.
pub ghost struct TodoInputView {
    pub id: Option<u128>,
    pub title: Seq<char>,
    pub description: Seq<char>,
    pub completed: bool,
}

impl View for TodoInput {
    type V = TodoInputView;

    open spec fn view(&self) -> TodoInputView {
        TodoInputView {
            id: self.id,
            title: self.title@,
            description: self.description@,
            completed: self.completed,
        }
    }
}

} // verus!
