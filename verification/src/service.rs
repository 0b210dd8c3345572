//! The four operations of the todo service, against the verified
//! collection: create stamps a fresh identifier and both instants, list
//! hands the collection out in storage order, update re-stamps the update
//! instant and preserves identity, delete removes by identifier. The
//! identifier and the clock come from the outside world through the two
//! trusted functions at the top.

use vstd::prelude::*;

use crate::document::{Doc, Field, Value, ValueView};
use crate::model::{Todo, TodoInput, TodoInputView, TodoView};
use crate::store::{contains_id, DeleteAck, Store, StoreError, UpdateAck};

verus! {

/// The shape every identifier this service generates has: the version
/// nibble reads four and the variant bits read one-zero, as the random
/// identifier scheme prescribes.
pub open spec fn is_generated_id(n: u128) -> bool {
    (n >> 76) & 0xf == 4 && (n >> 62) & 0x3 == 2
}

/// A generated identifier is never the all-zero identifier.
pub proof fn lemma_generated_id_nonzero(n: u128)
    by (bit_vector)
    requires
        (n >> 76) & 0xf == 4,
    ensures
        n != 0,
{
}

/// Relies on uuid::Uuid::new_v4 (read through Uuid::as_u128): a random
/// 128-bit identifier whose version nibble is forced to four and whose
/// variant bits are forced to one-zero; nothing else is assumed of it.
#[verifier::external_body]
fn fresh_id() -> (r: u128)
    ensures
        is_generated_id(r),
{
    uuid::Uuid::new_v4().as_u128()
}

/// Relies on chrono::Utc::now and DateTime::timestamp_millis: the current
/// UTC instant in milliseconds since the epoch. Nothing is assumed of the
/// value: the clock may read anything.
#[verifier::external_body]
fn now_millis() -> i64 {
    chrono::Utc::now().timestamp_millis()
}

/// The record a creation stamps out of an input: the identifier is the
/// server's, both instants are the creation instant, and the caller's
/// fields are kept — except any identifier the caller supplied, which
/// does not appear.
pub open spec fn created_view(inp: TodoInputView, id: u128, now: int) -> TodoView {
    TodoView {
        id,
        title: inp.title,
        description: inp.description,
        completed: inp.completed,
        created_at: now,
        updated_at: now,
    }
}

/// Stamps a new record out of a caller's input, a server identifier and a
/// creation instant.
pub fn make_todo(input: &TodoInput, id: u128, now: i64) -> (t: Todo)
    ensures
        t@ == created_view(input@, id, now as int),
{
    Todo {
        id,
        title: input.title.clone(),
        description: input.description.clone(),
        completed: input.completed,
        created_at: now,
        updated_at: now,
    }
}

/// Creates a record under a given identifier and instant: the decision
/// part of creation, exact for every identifier and clock reading. It
/// succeeds exactly where the identifier is non-zero and free.
pub fn create_todo_with(store: &mut Store, input: &TodoInput, id: u128, now: i64) -> (r: Result<
    Todo,
    StoreError,
>)
    requires
        old(store).wf(),
    ensures
        final(store).wf(),
        r is Ok <==> id != 0 && !contains_id(old(store)@, id),
        match r {
            Ok(t) => {
                &&& t@ == created_view(input@, id, now as int)
                &&& final(store)@ == old(store)@.push(t@)
            },
            Err(e) => {
                &&& final(store)@ == old(store)@
                &&& (e == StoreError::InvalidRecord <==> id == 0)
                &&& (e == StoreError::DuplicateId <==> id != 0 && contains_id(old(store)@, id))
            },
        },
{
    let t = make_todo(input, id, now);
    let stored = t.duplicate();
    match store.insert_one(stored) {
        Ok(_) => Ok(t),
        Err(e) => Err(e),
    }
}

/// Creates a record: generates the identifier, reads the clock, stamps
/// and writes. On success the record's identifier is server-generated,
/// non-empty and held by no earlier record, its caller fields are the
/// input's, and its two instants are equal. It can fail only where some
/// earlier record already holds a generated identifier.
pub fn create_todo(store: &mut Store, input: &TodoInput) -> (r: Result<Todo, StoreError>)
    requires
        old(store).wf(),
    ensures
        final(store).wf(),
        match r {
            Ok(t) => {
                &&& t@.wf()
                &&& is_generated_id(t.id)
                &&& t.id != 0
                &&& !contains_id(old(store)@, t.id)
                &&& t@.title == input@.title
                &&& t@.description == input@.description
                &&& t@.completed == input@.completed
                &&& t@.created_at == t@.updated_at
                &&& final(store)@ == old(store)@.push(t@)
            },
            Err(e) => {
                &&& final(store)@ == old(store)@
                &&& e == StoreError::DuplicateId
                &&& exists|x: u128| is_generated_id(x) && contains_id(old(store)@, x)
            },
        },
{
    let id = fresh_id();
    proof {
        lemma_generated_id_nonzero(id);
    }
    let now = now_millis();
    create_todo_with(store, input, id, now)
}

/// Stamps a new record for a caller that keeps the records elsewhere:
/// generates the identifier and reads the clock, touching no collection.
/// The identifier is server-generated and non-empty, the caller fields are
/// the input's, and the two instants are equal.
pub fn new_todo(input: &TodoInput) -> (t: Todo)
    ensures
        t@.wf(),
        is_generated_id(t.id),
        t.id != 0,
        t@.title == input@.title,
        t@.description == input@.description,
        t@.completed == input@.completed,
        t@.created_at == t@.updated_at,
{
    let id = fresh_id();
    proof {
        lemma_generated_id_nonzero(id);
    }
    let now = now_millis();
    make_todo(input, id, now)
}

/// The fields an update writes, as a storage document: the caller's three
/// fields and a fresh update instant — never the identifier, never the
/// creation instant, which the stored record keeps.
pub fn update_fields_doc(input: &TodoInput) -> (d: Doc)
    ensures
        d@.len() == 4,
        d@[0].0 == "title"@ && d@[0].1 == ValueView::Text(input@.title),
        d@[1].0 == "description"@ && d@[1].1 == ValueView::Text(input@.description),
        d@[2].0 == "completed"@ && d@[2].1 == ValueView::Flag(input@.completed),
        d@[3].0 == "updated_at"@ && d@[3].1 is Stamp,
{
    let now = now_millis();
    let mut fields: Vec<Field> = Vec::new();
    fields.push(Field { key: String::from_str("title"), value: Value::Text(input.title.clone()) });
    fields.push(
        Field {
            key: String::from_str("description"),
            value: Value::Text(input.description.clone()),
        },
    );
    fields.push(
        Field { key: String::from_str("completed"), value: Value::Flag(input.completed) },
    );
    fields.push(Field { key: String::from_str("updated_at"), value: Value::Stamp(now) });
    Doc { fields }
}

/// Lists every stored record, in storage order.
pub fn get_todos(store: &Store) -> (r: Vec<Todo>)
    ensures
        r@.len() == store@.len(),
        forall|i: int| 0 <= i < r@.len() ==> r@[i]@ == store@[i],
{
    store.find_all()
}

/// How an update leaves the record it matched: identity and creation
/// instant kept, caller fields replaced, update instant no earlier than
/// the creation instant.
pub open spec fn updated_fields(f: TodoView, o: TodoView, inp: TodoInputView) -> bool {
    &&& f.id == o.id
    &&& f.created_at == o.created_at
    &&& f.title == inp.title
    &&& f.description == inp.description
    &&& f.completed == inp.completed
    &&& f.updated_at >= f.created_at
}

/// Updates the record matching `id` with the caller's fields, re-stamping
/// its update instant from the clock; a miss matches zero records and
/// changes nothing, and is no error.
pub fn update_todo(store: &mut Store, id: u128, input: &TodoInput) -> (r: UpdateAck)
    requires
        old(store).wf(),
    ensures
        final(store).wf(),
        final(store)@.len() == old(store)@.len(),
        forall|i: int|
            0 <= i < old(store)@.len() && old(store)@[i].id != id ==> final(store)@[i] == old(
                store,
            )@[i],
        forall|i: int|
            0 <= i < old(store)@.len() && old(store)@[i].id == id ==> updated_fields(
                final(store)@[i],
                old(store)@[i],
                input@,
            ),
        r.matched == (if contains_id(old(store)@, id) {
            1u64
        } else {
            0u64
        }),
        r.modified == r.matched,
        !contains_id(old(store)@, id) ==> final(store)@ == old(store)@,
{
    let now = now_millis();
    store.update_one(id, input, now)
}

/// Deletes the record matching `id`, if any; a miss deletes zero records
/// and is no error. Afterwards no stored record carries the identifier.
pub fn delete_todo(store: &mut Store, id: u128) -> (r: DeleteAck)
    requires
        old(store).wf(),
    ensures
        final(store).wf(),
        !contains_id(final(store)@, id),
        r.deleted == (if contains_id(old(store)@, id) {
            1u64
        } else {
            0u64
        }),
        !contains_id(old(store)@, id) ==> final(store)@ == old(store)@,
{
    store.delete_one(id)
}

/// The greeting of the service's root route.
pub fn welcome_message() -> (m: &'static str)
    ensures
        m@ == "Welcome to the Todo API!"@,
{
    "Welcome to the Todo API!"
}

/// Creation never keeps a caller-supplied identifier: two inputs that
/// differ in nothing but the identifier field stamp out the same record.
pub proof fn lemma_create_discards_caller_id(
    a: TodoInputView,
    b: TodoInputView,
    id: u128,
    now: int,
)
    requires
        a.title == b.title,
        a.description == b.description,
        a.completed == b.completed,
    ensures
        created_view(a, id, now) == created_view(b, id, now),
{
}

/// A generated identifier never equals an identifier without the
/// generated shape: a record's identifier differs from any caller-supplied
/// identifier that does not itself carry the version and variant bits the
/// server stamps.
pub proof fn lemma_generated_id_differs(a: u128, b: u128)
    requires
        is_generated_id(a),
        !is_generated_id(b),
    ensures
        a != b,
{
}

/// In a well-formed collection, every record's creation instant lies no
/// later than its update instant — and every operation above keeps the
/// collection well formed.
pub proof fn lemma_timestamps_ordered(s: Store)
    requires
        s.wf(),
    ensures
        forall|i: int| 0 <= i < s@.len() ==> s@[i].created_at <= s@[i].updated_at,
{
}

/// In a well-formed collection no two records share an identifier: records
/// written by distinct successful creates carry distinct identifiers.
pub proof fn lemma_stored_ids_distinct(s: Store)
    requires
        s.wf(),
    ensures
        forall|i: int, j: int| 0 <= i < j < s@.len() ==> s@[i].id != s@[j].id,
{
}

/// A collection that no longer contains an identifier lists no record
/// carrying it: deleting an identifier, then listing, shows it nowhere.
pub proof fn lemma_absent_id_not_listed(s: Seq<TodoView>, id: u128)
    requires
        !contains_id(s, id),
    ensures
        forall|i: int| 0 <= i < s.len() ==> s[i].id != id,
{
}

} // verus!
