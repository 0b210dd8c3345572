//! The storage document schema for a todo record, and the explicit, total
//! mapping between the two representations. Decoding failures carry a
//! typed reason; `lemma_document_round_trip` states that decoding undoes
//! encoding.

use vstd::prelude::*;

use crate::ident::{format_id, id_of_text, id_text, parse_id};
use crate::model::{Todo, TodoView};

verus! {

/// A value a document field can hold: a text, a truth value, or a UTC
/// instant in milliseconds since the epoch.
pub enum Value {
    Text(String),
    Flag(bool),
    Stamp(i64),
}

/// The ghost image of a field value.
pub ghost enum ValueView {
    Text(Seq<char>),
    Flag(bool),
    Stamp(int),
}

impl View for Value {
    type V = ValueView;

    open spec fn view(&self) -> ValueView {
        match self {
            Value::Text(s) => ValueView::Text(s@),
            Value::Flag(b) => ValueView::Flag(*b),
            Value::Stamp(t) => ValueView::Stamp(*t as int),
        }
    }
}

/// One named field of a document.
pub struct Field {
    pub key: String,
    pub value: Value,
}

impl View for Field {
    type V = (Seq<char>, ValueView);

    open spec fn view(&self) -> (Seq<char>, ValueView) {
        (self.key@, self.value@)
    }
}

/// A storage document: named fields in order, as a document database
/// keeps them.
pub struct Doc {
    pub fields: Vec<Field>,
}

impl View for Doc {
    type V = Seq<(Seq<char>, ValueView)>;

    open spec fn view(&self) -> Seq<(Seq<char>, ValueView)> {
        Seq::new(self.fields@.len(), |i: int| self.fields@[i]@)
    }
}

/// Why a document failed to decode into a todo record.
#[derive(Clone, Copy, Debug, PartialEq, Eq, Structural)]
pub enum DecodeError {
    /// A required field is absent.
    MissingField,
    /// A required field holds a value of the wrong kind.
    WrongKind,
    /// The identifier field does not hold a canonical identifier text.
    MalformedId,
}

/// The value of the first field named `k`, if any.
pub open spec fn lookup(d: Seq<(Seq<char>, ValueView)>, k: Seq<char>) -> Option<ValueView>
    decreases d.len(),
{
    if d.len() == 0 {
        None
    } else if d[0].0 == k {
        Some(d[0].1)
    } else {
        lookup(d.subrange(1, d.len() as int), k)
    }
}

/// The document a record is stored as: its identifier in canonical text
/// under the database's key for identity, and every other field under its
/// own name.
pub open spec fn spec_encode(t: TodoView) -> Seq<(Seq<char>, ValueView)> {
    seq![
        ("_id"@, ValueView::Text(id_text(t.id))),
        ("title"@, ValueView::Text(t.title)),
        ("description"@, ValueView::Text(t.description)),
        ("completed"@, ValueView::Flag(t.completed)),
        ("created_at"@, ValueView::Stamp(t.created_at)),
        ("updated_at"@, ValueView::Stamp(t.updated_at)),
    ]
}

/// What decoding a document yields: the record, or the first failure in
/// field order — identifier, title, description, completed, created_at,
/// updated_at.
pub open spec fn spec_decode(d: Seq<(Seq<char>, ValueView)>) -> Result<TodoView, DecodeError> {
    match lookup(d, "_id"@) {
        None => Err(DecodeError::MissingField),
        Some(ValueView::Text(id_str)) => match id_of_text(id_str) {
            None => Err(DecodeError::MalformedId),
            Some(id) => match lookup(d, "title"@) {
                None => Err(DecodeError::MissingField),
                Some(ValueView::Text(title)) => match lookup(d, "description"@) {
                    None => Err(DecodeError::MissingField),
                    Some(ValueView::Text(description)) => match lookup(d, "completed"@) {
                        None => Err(DecodeError::MissingField),
                        Some(ValueView::Flag(completed)) => match lookup(d, "created_at"@) {
                            None => Err(DecodeError::MissingField),
                            Some(ValueView::Stamp(created_at)) => match lookup(d, "updated_at"@) {
                                None => Err(DecodeError::MissingField),
                                Some(ValueView::Stamp(updated_at)) => Ok(
                                    TodoView {
                                        id,
                                        title,
                                        description,
                                        completed,
                                        created_at,
                                        updated_at,
                                    },
                                ),
                                Some(_) => Err(DecodeError::WrongKind),
                            },
                            Some(_) => Err(DecodeError::WrongKind),
                        },
                        Some(_) => Err(DecodeError::WrongKind),
                    },
                    Some(_) => Err(DecodeError::WrongKind),
                },
                Some(_) => Err(DecodeError::WrongKind),
            },
        },
        Some(_) => Err(DecodeError::WrongKind),
    }
}

/// The value of the first field of `d` named `key`, if any.
fn find_value<'a>(d: &'a Doc, key: &String) -> (r: Option<&'a Value>)
    ensures
        match r {
            Some(v) => lookup(d@, key@) == Some(v@),
            None => lookup(d@, key@) is None,
        },
{
    let n = d.fields.len();
    let mut i: usize = 0;
    while i < n
        invariant
            i <= n,
            n == d.fields@.len(),
            forall|k: int| 0 <= k < i ==> d@[k].0 != key@,
        decreases n - i,
    {
        if d.fields[i].key == *key {
            proof {
                lemma_lookup_from(d@, key@, i as int);
            }
            return Some(&d.fields[i].value);
        }
        i = i + 1;
    }
    proof {
        lemma_lookup_from(d@, key@, n as int);
    }
    None
}

/// The first `i` fields do not carry `k`, so a lookup begins at field `i`.
proof fn lemma_lookup_from(d: Seq<(Seq<char>, ValueView)>, k: Seq<char>, i: int)
    requires
        0 <= i <= d.len(),
        forall|j: int| 0 <= j < i ==> d[j].0 != k,
    ensures
        lookup(d, k) == lookup(d.subrange(i, d.len() as int), k),
    decreases i,
{
    if i > 0 {
        let tail = d.subrange(1, d.len() as int);
        lemma_lookup_from(tail, k, i - 1);
        assert(tail.subrange(i - 1, tail.len() as int) =~= d.subrange(i, d.len() as int));
    } else {
        assert(d.subrange(0, d.len() as int) =~= d);
    }
}

/// Turns a record into its storage document.
pub fn encode_todo(t: &Todo) -> (d: Doc)
    ensures
        d@ =~= spec_encode(t@),
{
    let mut fields: Vec<Field> = Vec::new();
    fields.push(Field { key: String::from_str("_id"), value: Value::Text(format_id(t.id)) });
    fields.push(Field { key: String::from_str("title"), value: Value::Text(t.title.clone()) });
    fields.push(
        Field { key: String::from_str("description"), value: Value::Text(t.description.clone()) },
    );
    fields.push(Field { key: String::from_str("completed"), value: Value::Flag(t.completed) });
    fields.push(Field { key: String::from_str("created_at"), value: Value::Stamp(t.created_at) });
    fields.push(Field { key: String::from_str("updated_at"), value: Value::Stamp(t.updated_at) });
    Doc { fields }
}

/// Turns a storage document back into a record, or reports the first
/// field that refuses.
pub fn decode_doc(d: &Doc) -> (r: Result<Todo, DecodeError>)
    ensures
        match r {
            Ok(t) => spec_decode(d@) == Ok::<TodoView, DecodeError>(t@),
            Err(e) => spec_decode(d@) == Err::<TodoView, DecodeError>(e),
        },
{
    let id: u128 = match find_value(d, &String::from_str("_id")) {
        None => {
            return Err(DecodeError::MissingField);
        },
        Some(Value::Text(s)) => match parse_id(s.as_str()) {
            None => {
                return Err(DecodeError::MalformedId);
            },
            Some(n) => n,
        },
        Some(_) => {
            return Err(DecodeError::WrongKind);
        },
    };
    let title: String = match find_value(d, &String::from_str("title")) {
        None => {
            return Err(DecodeError::MissingField);
        },
        Some(Value::Text(s)) => s.clone(),
        Some(_) => {
            return Err(DecodeError::WrongKind);
        },
    };
    let description: String = match find_value(d, &String::from_str("description")) {
        None => {
            return Err(DecodeError::MissingField);
        },
        Some(Value::Text(s)) => s.clone(),
        Some(_) => {
            return Err(DecodeError::WrongKind);
        },
    };
    let completed: bool = match find_value(d, &String::from_str("completed")) {
        None => {
            return Err(DecodeError::MissingField);
        },
        Some(Value::Flag(b)) => *b,
        Some(_) => {
            return Err(DecodeError::WrongKind);
        },
    };
    let created_at: i64 = match find_value(d, &String::from_str("created_at")) {
        None => {
            return Err(DecodeError::MissingField);
        },
        Some(Value::Stamp(t)) => *t,
        Some(_) => {
            return Err(DecodeError::WrongKind);
        },
    };
    let updated_at: i64 = match find_value(d, &String::from_str("updated_at")) {
        None => {
            return Err(DecodeError::MissingField);
        },
        Some(Value::Stamp(t)) => *t,
        Some(_) => {
            return Err(DecodeError::WrongKind);
        },
    };
    Ok(Todo { id, title, description, completed, created_at, updated_at })
}

/// Decodes a whole listing, fail-fast: one undecodable document aborts
/// the listing with its reason, even where every other document is sound.
pub fn decode_all(docs: &Vec<Doc>) -> (r: Result<Vec<Todo>, DecodeError>)
    ensures
        match r {
            Ok(ts) => {
                &&& ts@.len() == docs@.len()
                &&& forall|i: int|
                    0 <= i < docs@.len() ==> spec_decode(docs@[i]@) == Ok::<TodoView, DecodeError>(
                        ts@[i]@,
                    )
            },
            Err(e) => exists|i: int|
                0 <= i < docs@.len() && spec_decode(docs@[i]@) == Err::<TodoView, DecodeError>(e)
                    && (forall|j: int| 0 <= j < i ==> spec_decode(docs@[j]@) is Ok),
        },
{
    let n = docs.len();
    let mut out: Vec<Todo> = Vec::new();
    let mut i: usize = 0;
    while i < n
        invariant
            i <= n,
            n == docs@.len(),
            out@.len() == i,
            forall|j: int|
                0 <= j < i ==> spec_decode(docs@[j]@) == Ok::<TodoView, DecodeError>(out@[j]@),
        decreases n - i,
    {
        match decode_doc(&docs[i]) {
            Ok(t) => {
                out.push(t);
            },
            Err(e) => {
                proof {
                    assert(spec_decode(docs@[i as int]@) == Err::<TodoView, DecodeError>(e));
                }
                return Err(e);
            },
        }
        i = i + 1;
    }
    Ok(out)
}

/// Decoding undoes encoding: every record comes back from its storage
/// document unchanged.
pub proof fn lemma_document_round_trip(t: TodoView)
    ensures
        spec_decode(spec_encode(t)) == Ok::<TodoView, DecodeError>(t),
{
    reveal_strlit("_id");
    reveal_strlit("title");
    reveal_strlit("description");
    reveal_strlit("completed");
    reveal_strlit("created_at");
    reveal_strlit("updated_at");
    let d = spec_encode(t);
    lemma_lookup_encode(t);
    crate::ident::lemma_ident_round_trip(t.id);
    assert(spec_decode(d) == Ok::<TodoView, DecodeError>(
        TodoView {
            id: t.id,
            title: t.title,
            description: t.description,
            completed: t.completed,
            created_at: t.created_at,
            updated_at: t.updated_at,
        },
    ));
}

/// Every record in a collection — however many creates put them there —
/// is decodable from its storage document.
pub proof fn lemma_records_decodable(s: Seq<TodoView>)
    ensures
        forall|i: int|
            0 <= i < s.len() ==> #[trigger] spec_decode(spec_encode(s[i])) == Ok::<
                TodoView,
                DecodeError,
            >(s[i]),
{
    assert forall|i: int| 0 <= i < s.len() implies #[trigger] spec_decode(spec_encode(s[i]))
        == Ok::<TodoView, DecodeError>(s[i]) by {
        lemma_document_round_trip(s[i]);
    }
}

/// Each schema key looks up its own field in an encoded document.
proof fn lemma_lookup_encode(t: TodoView)
    ensures
        lookup(spec_encode(t), "_id"@) == Some(ValueView::Text(id_text(t.id))),
        lookup(spec_encode(t), "title"@) == Some(ValueView::Text(t.title)),
        lookup(spec_encode(t), "description"@) == Some(ValueView::Text(t.description)),
        lookup(spec_encode(t), "completed"@) == Some(ValueView::Flag(t.completed)),
        lookup(spec_encode(t), "created_at"@) == Some(ValueView::Stamp(t.created_at)),
        lookup(spec_encode(t), "updated_at"@) == Some(ValueView::Stamp(t.updated_at)),
{
    reveal_strlit("_id");
    reveal_strlit("title");
    reveal_strlit("description");
    reveal_strlit("completed");
    reveal_strlit("created_at");
    reveal_strlit("updated_at");
    let d = spec_encode(t);
    assert(d.len() == 6);
    assert("_id"@.len() == 3 && "title"@.len() == 5 && "description"@.len() == 11
        && "completed"@.len() == 9 && "created_at"@.len() == 10 && "updated_at"@.len() == 10);
    assert("created_at"@[0] == 'c' && "updated_at"@[0] == 'u');
    lemma_lookup_at(d, "_id"@, 0);
    lemma_lookup_at(d, "title"@, 1);
    lemma_lookup_at(d, "description"@, 2);
    lemma_lookup_at(d, "completed"@, 3);
    lemma_lookup_at(d, "created_at"@, 4);
    lemma_lookup_at(d, "updated_at"@, 5);
}

/// A key carried by field `i` and by no earlier field looks up field `i`.
proof fn lemma_lookup_at(d: Seq<(Seq<char>, ValueView)>, k: Seq<char>, i: int)
    requires
        0 <= i < d.len(),
        d[i].0 == k,
        forall|j: int| 0 <= j < i ==> d[j].0 != k,
    ensures
        lookup(d, k) == Some(d[i].1),
{
    lemma_lookup_from(d, k, i);
    let s = d.subrange(i, d.len() as int);
    assert(s[0] == d[i]);
    assert(lookup(s, k) == Some(s[0].1));
}

} // verus!
