use todo_service::document::{decode_all, decode_doc, encode_todo, DecodeError, Doc, Field, Value};
use todo_service::ident::{format_id, parse_id};
use todo_service::model::{Todo, TodoInput};
use todo_service::service::{
    create_todo, create_todo_with, delete_todo, get_todos, new_todo, update_fields_doc,
    update_todo, welcome_message,
};
use todo_service::store::{Store, StoreError};

fn input(title: &str, description: &str, completed: bool) -> TodoInput {
    TodoInput {
        id: None,
        title: title.to_string(),
        description: description.to_string(),
        completed,
    }
}

#[test]
fn listing_empty_store_is_empty() {
    let store = Store::new();
    let listed = get_todos(&store);
    assert_eq!(listed.len(), 0);
}

#[test]
fn create_three_then_list_three_distinct_decodable() {
    let mut store = Store::new();
    for k in 0..3 {
        let r = create_todo(&mut store, &input(&format!("t{}", k), "d", false));
        assert!(r.is_ok());
    }
    let listed = get_todos(&store);
    assert_eq!(listed.len(), 3);
    for a in 0..3 {
        for b in 0..3 {
            if a != b {
                assert_ne!(listed[a].id, listed[b].id);
            }
        }
    }
    for t in &listed {
        let doc = encode_todo(t);
        let back = decode_doc(&doc).expect("a stored record must decode");
        assert_eq!(back.id, t.id);
        assert_eq!(back.title, t.title);
    }
}

#[test]
fn update_missing_id_matches_zero_and_creates_nothing() {
    let mut store = Store::new();
    let r = create_todo(&mut store, &input("a", "b", false));
    assert!(r.is_ok());
    let ack = update_todo(&mut store, 0xdead_beef, &input("x", "y", true));
    assert_eq!(ack.matched, 0);
    assert_eq!(ack.modified, 0);
    assert_eq!(get_todos(&store).len(), 1);
}

#[test]
fn delete_missing_id_deletes_zero() {
    let mut store = Store::new();
    let ack = delete_todo(&mut store, 7);
    assert_eq!(ack.deleted, 0);
}

#[test]
fn delete_then_list_excludes_id() {
    let mut store = Store::new();
    let kept = create_todo(&mut store, &input("keep", "k", false)).unwrap();
    let gone = create_todo(&mut store, &input("drop", "d", true)).unwrap();
    let ack = delete_todo(&mut store, gone.id);
    assert_eq!(ack.deleted, 1);
    let listed = get_todos(&store);
    assert_eq!(listed.len(), 1);
    assert!(listed.iter().all(|t| t.id != gone.id));
    assert_eq!(listed[0].id, kept.id);
}

#[test]
fn create_round_trip_via_list() {
    let mut store = Store::new();
    let created = create_todo(&mut store, &input("A", "B", false)).unwrap();
    let listed = get_todos(&store);
    assert_eq!(listed.len(), 1);
    let t = &listed[0];
    assert_eq!(t.title, "A");
    assert_eq!(t.description, "B");
    assert!(!t.completed);
    assert_eq!(t.id, created.id);
    assert_ne!(t.id, 0);
    assert_eq!(t.created_at, t.updated_at);
}

#[test]
fn created_id_is_server_generated() {
    let mut store = Store::new();
    let supplied: u128 = 42;
    let inp = TodoInput {
        id: Some(supplied),
        title: "a".to_string(),
        description: "b".to_string(),
        completed: false,
    };
    let t = create_todo(&mut store, &inp).unwrap();
    assert_ne!(t.id, 0);
    assert_ne!(t.id, supplied);
    assert_eq!((t.id >> 76) & 0xf, 4);
    assert_eq!((t.id >> 62) & 0x3, 2);
}

#[test]
fn many_creates_yield_distinct_ids() {
    let mut store = Store::new();
    let mut ids = Vec::new();
    for k in 0..100 {
        let t = create_todo(&mut store, &input(&format!("n{}", k), "", false)).unwrap();
        assert!(!ids.contains(&t.id));
        ids.push(t.id);
    }
    assert_eq!(get_todos(&store).len(), 100);
}

#[test]
fn stamped_record_keeps_input_fields() {
    let t = new_todo(&input("title here", "description here", true));
    assert_eq!(t.title, "title here");
    assert_eq!(t.description, "description here");
    assert!(t.completed);
    assert_eq!(t.created_at, t.updated_at);
    assert_ne!(t.id, 0);
    assert_eq!((t.id >> 76) & 0xf, 4);
}

#[test]
fn encode_decode_round_trip_exact() {
    let t = Todo {
        id: 0x00112233445566778899aabbccddeeff,
        title: "A".to_string(),
        description: "B".to_string(),
        completed: false,
        created_at: 1700000000000,
        updated_at: 1700000000001,
    };
    let doc = encode_todo(&t);
    let back = decode_doc(&doc).unwrap();
    assert_eq!(back.id, t.id);
    assert_eq!(back.title, t.title);
    assert_eq!(back.description, t.description);
    assert_eq!(back.completed, t.completed);
    assert_eq!(back.created_at, t.created_at);
    assert_eq!(back.updated_at, t.updated_at);
}

#[test]
fn decode_missing_field_error() {
    let doc = Doc { fields: Vec::new() };
    assert!(matches!(decode_doc(&doc), Err(DecodeError::MissingField)));

    let t = Todo {
        id: 5,
        title: "x".to_string(),
        description: "y".to_string(),
        completed: true,
        created_at: 1,
        updated_at: 2,
    };
    let mut doc = encode_todo(&t);
    doc.fields.pop();
    assert!(matches!(decode_doc(&doc), Err(DecodeError::MissingField)));
}

#[test]
fn decode_wrong_kind_error() {
    let t = Todo {
        id: 5,
        title: "x".to_string(),
        description: "y".to_string(),
        completed: true,
        created_at: 1,
        updated_at: 2,
    };
    let mut doc = encode_todo(&t);
    doc.fields[3] = Field {
        key: "completed".to_string(),
        value: Value::Text("yes".to_string()),
    };
    assert!(matches!(decode_doc(&doc), Err(DecodeError::WrongKind)));
}

#[test]
fn decode_malformed_id_error() {
    let t = Todo {
        id: 5,
        title: "x".to_string(),
        description: "y".to_string(),
        completed: true,
        created_at: 1,
        updated_at: 2,
    };
    let mut doc = encode_todo(&t);
    doc.fields[0] = Field {
        key: "_id".to_string(),
        value: Value::Text("not-an-identifier".to_string()),
    };
    assert!(matches!(decode_doc(&doc), Err(DecodeError::MalformedId)));
}

#[test]
fn format_id_exact_text() {
    assert_eq!(
        format_id(0),
        "00000000-0000-0000-0000-000000000000"
    );
    assert_eq!(
        format_id(0x00112233445566778899aabbccddeeff),
        "00112233-4455-6677-8899-aabbccddeeff"
    );
    assert_eq!(
        format_id(u128::MAX),
        "ffffffff-ffff-ffff-ffff-ffffffffffff"
    );
}

#[test]
fn format_id_matches_canonical_uuid_text() {
    for n in [0u128, 1, 0xabcdef, u128::MAX, 0x550e8400e29b41d4a716446655440000] {
        assert_eq!(format_id(n), uuid::Uuid::from_u128(n).to_string());
    }
}

#[test]
fn parse_id_inverts_format() {
    for n in [0u128, 7, 0x00112233445566778899aabbccddeeff, u128::MAX] {
        assert_eq!(parse_id(&format_id(n)), Some(n));
    }
}

#[test]
fn parse_id_accepts_uppercase() {
    assert_eq!(
        parse_id("00112233-4455-6677-8899-AABBCCDDEEFF"),
        Some(0x00112233445566778899aabbccddeeff)
    );
}

#[test]
fn parse_id_rejects_malformed_text() {
    assert_eq!(parse_id(""), None);
    assert_eq!(parse_id("00112233-4455-6677-8899-aabbccddeef"), None);
    assert_eq!(parse_id("00112233-4455-6677-8899-aabbccddeefff"), None);
    assert_eq!(parse_id("00112233x4455-6677-8899-aabbccddeeff"), None);
    assert_eq!(parse_id("0011223g-4455-6677-8899-aabbccddeeff"), None);
}

#[test]
fn create_with_taken_id_is_refused() {
    let mut store = Store::new();
    let first = create_todo_with(&mut store, &input("a", "b", false), 9, 100);
    assert!(first.is_ok());
    let again = create_todo_with(&mut store, &input("c", "d", true), 9, 200);
    assert_eq!(again.unwrap_err(), StoreError::DuplicateId);
    assert_eq!(get_todos(&store).len(), 1);
}

#[test]
fn create_with_zero_id_is_refused() {
    let mut store = Store::new();
    let r = create_todo_with(&mut store, &input("a", "b", false), 0, 100);
    assert_eq!(r.unwrap_err(), StoreError::InvalidRecord);
    assert_eq!(get_todos(&store).len(), 0);
}

#[test]
fn update_existing_replaces_fields_and_preserves_identity() {
    let mut store = Store::new();
    let created = create_todo_with(&mut store, &input("old", "old d", false), 9, 100).unwrap();
    let ack = update_todo(&mut store, 9, &input("new", "new d", true));
    assert_eq!(ack.matched, 1);
    assert_eq!(ack.modified, 1);
    let listed = get_todos(&store);
    assert_eq!(listed.len(), 1);
    let t = &listed[0];
    assert_eq!(t.id, created.id);
    assert_eq!(t.created_at, created.created_at);
    assert_eq!(t.title, "new");
    assert_eq!(t.description, "new d");
    assert!(t.completed);
    assert!(t.updated_at >= t.created_at);
}

#[test]
fn timestamps_stay_ordered_through_updates() {
    let mut store = Store::new();
    create_todo_with(&mut store, &input("a", "b", false), 9, 100).unwrap();
    update_todo(&mut store, 9, &input("c", "d", true));
    for t in get_todos(&store) {
        assert!(t.created_at <= t.updated_at);
    }
}

#[test]
fn update_fields_doc_carries_caller_fields_only() {
    let d = update_fields_doc(&input("t", "d", true));
    assert_eq!(d.fields.len(), 4);
    assert_eq!(d.fields[0].key, "title");
    assert!(matches!(&d.fields[0].value, Value::Text(s) if s == "t"));
    assert_eq!(d.fields[1].key, "description");
    assert!(matches!(&d.fields[1].value, Value::Text(s) if s == "d"));
    assert_eq!(d.fields[2].key, "completed");
    assert!(matches!(d.fields[2].value, Value::Flag(true)));
    assert_eq!(d.fields[3].key, "updated_at");
    assert!(matches!(d.fields[3].value, Value::Stamp(_)));
    assert!(d.fields.iter().all(|f| f.key != "_id" && f.key != "created_at"));
}

#[test]
fn decode_all_is_fail_fast() {
    let sound = |title: &str| {
        encode_todo(&Todo {
            id: 5,
            title: title.to_string(),
            description: "d".to_string(),
            completed: false,
            created_at: 1,
            updated_at: 1,
        })
    };
    let docs = vec![sound("a"), sound("b")];
    let decoded = decode_all(&docs).unwrap();
    assert_eq!(decoded.len(), 2);
    assert_eq!(decoded[0].title, "a");
    assert_eq!(decoded[1].title, "b");

    let broken = Doc { fields: Vec::new() };
    let docs = vec![sound("a"), broken, sound("c")];
    assert!(matches!(decode_all(&docs), Err(DecodeError::MissingField)));
}

#[test]
fn welcome_message_text() {
    assert_eq!(welcome_message(), "Welcome to the Todo API!");
}
