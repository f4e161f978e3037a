use event_parquet::Event;
use event_parquet::EventCollection;
use event_parquet::EventGuid;
use event_parquet::MoveStructTag;
use event_parquet::MoveType;
use event_parquet::PushError;

fn deposit(creation_number: u64, sequence_number: u64, data: serde_json::Value) -> Event {
    Event {
        guid: EventGuid { creation_number, account_address: vec![0xAA; 32] },
        sequence_number,
        typ: MoveType::Struct(MoveStructTag {
            address: vec![0xBB; 32],
            module: "coin".to_string(),
            name: "DepositEvent".to_string(),
        }),
        data,
    }
}

fn untyped(data: serde_json::Value) -> Event {
    Event {
        guid: EventGuid { creation_number: 9, account_address: vec![0xCC; 32] },
        sequence_number: 9,
        typ: MoveType::Other,
        data,
    }
}

fn assert_aligned(collection: &EventCollection, rows: usize) {
    assert_eq!(collection.len(), rows);
    assert_eq!(collection.version().len(), rows);
    assert_eq!(collection.timestamp().len(), rows);
    assert_eq!(collection.creation_number().len(), rows);
    assert_eq!(collection.account_address().len(), rows);
    assert_eq!(collection.sequence_number().len(), rows);
    assert_eq!(collection.module_address().len(), rows);
    assert_eq!(collection.module_name().len(), rows);
    assert_eq!(collection.struct_name().len(), rows);
    assert_eq!(collection.data().len(), rows);
}

#[test]
fn new_collection_is_empty() {
    let collection = EventCollection::new();
    assert!(collection.is_empty());
    assert_aligned(&collection, 0);
}

#[test]
fn push_stores_one_row_per_event() {
    let mut collection = EventCollection::new();
    let events = vec![deposit(1, 0, serde_json::Value::from(42u64))];
    assert_eq!(collection.push(10, 1000, &events), Ok(()));
    assert!(!collection.is_empty());
    assert_aligned(&collection, 1);
    assert_eq!(collection.version(), &vec![10u64]);
    assert_eq!(collection.timestamp(), &vec![1000u64]);
    assert_eq!(collection.creation_number(), &vec![1u64]);
    assert_eq!(collection.account_address(), &vec![vec![0xAAu8; 32]]);
    assert_eq!(collection.sequence_number(), &vec![0u64]);
    assert_eq!(collection.module_address(), &vec![vec![0xBBu8; 32]]);
    assert_eq!(collection.module_name(), &vec!["coin".to_string()]);
    assert_eq!(collection.struct_name(), &vec!["DepositEvent".to_string()]);
    assert_eq!(collection.data(), &vec!["42".to_string()]);
}

#[test]
fn push_of_no_events_changes_nothing() {
    let mut collection = EventCollection::new();
    assert_eq!(collection.push(1, 2, &Vec::new()), Ok(()));
    assert_aligned(&collection, 0);
    let events = vec![deposit(1, 0, serde_json::Value::Null)];
    assert_eq!(collection.push(3, 4, &events), Ok(()));
    assert_eq!(collection.push(5, 6, &Vec::new()), Ok(()));
    assert_aligned(&collection, 1);
    assert_eq!(collection.version(), &vec![3u64]);
}

#[test]
fn pushes_keep_rows_in_order_across_calls() {
    let mut collection = EventCollection::new();
    let first = vec![
        deposit(1, 0, serde_json::Value::from("a")),
        deposit(2, 1, serde_json::Value::from(true)),
    ];
    let second = vec![deposit(3, 7, serde_json::Value::from(vec![1u64, 2, 3]))];
    assert_eq!(collection.push(10, 1000, &first), Ok(()));
    assert_eq!(collection.push(11, 2000, &second), Ok(()));
    assert_aligned(&collection, 3);
    assert_eq!(collection.version(), &vec![10u64, 10, 11]);
    assert_eq!(collection.timestamp(), &vec![1000u64, 1000, 2000]);
    assert_eq!(collection.creation_number(), &vec![1u64, 2, 3]);
    assert_eq!(collection.sequence_number(), &vec![0u64, 1, 7]);
    assert_eq!(
        collection.data(),
        &vec!["\"a\"".to_string(), "true".to_string(), "[1,2,3]".to_string()]
    );
}

#[test]
fn payload_objects_are_rendered_as_compact_json() {
    let mut object = serde_json::Map::new();
    object.insert("amount".to_string(), serde_json::Value::from(7u64));
    object.insert("to".to_string(), serde_json::Value::from("0x1"));
    let payload = serde_json::Value::Object(object);
    let mut collection = EventCollection::new();
    assert_eq!(collection.push(1, 1, &vec![deposit(1, 0, payload.clone())]), Ok(()));
    let text = &collection.data()[0];
    assert_eq!(text, "{\"amount\":7,\"to\":\"0x1\"}");
    let parsed: serde_json::Value = serde_json::from_str(text).unwrap();
    assert_eq!(parsed, payload);
}

#[test]
fn push_refuses_an_event_without_struct_type() {
    let mut collection = EventCollection::new();
    let events = vec![untyped(serde_json::Value::Null)];
    assert_eq!(collection.push(1, 2, &events), Err(PushError::InvalidMoveType { index: 0 }));
    assert_aligned(&collection, 0);
}

#[test]
fn a_refused_batch_leaves_no_partial_rows() {
    let mut collection = EventCollection::new();
    assert_eq!(collection.push(1, 1, &vec![deposit(1, 0, serde_json::Value::from(1u64))]), Ok(()));
    let events = vec![
        deposit(2, 1, serde_json::Value::from(2u64)),
        untyped(serde_json::Value::from(3u64)),
        deposit(4, 3, serde_json::Value::from(4u64)),
    ];
    assert_eq!(collection.push(5, 5, &events), Err(PushError::InvalidMoveType { index: 1 }));
    assert_aligned(&collection, 1);
    assert_eq!(collection.version(), &vec![1u64]);
    assert_eq!(collection.data(), &vec!["1".to_string()]);
}

#[test]
fn push_event_adds_the_row_of_a_serialised_event() {
    let mut collection = EventCollection::new();
    let event = deposit(5, 6, serde_json::Value::Null);
    let pushed = collection.push_event(7, 8, &event, Ok("{\"x\":1}".to_string()), 3);
    assert_eq!(pushed, Ok(()));
    assert_aligned(&collection, 1);
    assert_eq!(collection.version(), &vec![7u64]);
    assert_eq!(collection.timestamp(), &vec![8u64]);
    assert_eq!(collection.creation_number(), &vec![5u64]);
    assert_eq!(collection.sequence_number(), &vec![6u64]);
    assert_eq!(collection.data(), &vec!["{\"x\":1}".to_string()]);
}

#[test]
fn push_event_reports_a_failed_serialisation_first() {
    let mut collection = EventCollection::new();
    let failure = serde_json::from_str::<serde_json::Value>("{").unwrap_err();
    let event = untyped(serde_json::Value::Null);
    let pushed = collection.push_event(1, 2, &event, Err(failure), 4);
    assert_eq!(pushed, Err(PushError::Serialization { index: 4 }));
    assert_aligned(&collection, 0);
}

#[test]
fn push_event_reports_a_type_that_is_no_struct() {
    let mut collection = EventCollection::new();
    let event = untyped(serde_json::Value::Null);
    let pushed = collection.push_event(1, 2, &event, Ok("null".to_string()), 2);
    assert_eq!(pushed, Err(PushError::InvalidMoveType { index: 2 }));
    assert_aligned(&collection, 0);
}

#[test]
fn every_json_payload_of_a_struct_typed_batch_is_stored() {
    let mut nested = serde_json::Map::new();
    nested.insert("list".to_string(), serde_json::Value::from(vec![1u64, 2]));
    nested.insert("none".to_string(), serde_json::Value::Null);
    let payloads = vec![
        serde_json::Value::Null,
        serde_json::Value::from(-5i64),
        serde_json::Value::from(1.5f64),
        serde_json::Value::from(f64::NAN),
        serde_json::Value::from(""),
        serde_json::Value::Object(nested),
    ];
    let events: Vec<Event> =
        payloads.iter().enumerate().map(|(i, p)| deposit(i as u64, i as u64, p.clone())).collect();
    let mut collection = EventCollection::new();
    assert_eq!(collection.push(3, 4, &events), Ok(()));
    assert_aligned(&collection, 6);
    assert_eq!(
        collection.data(),
        &vec![
            "null".to_string(),
            "-5".to_string(),
            "1.5".to_string(),
            "null".to_string(),
            "\"\"".to_string(),
            "{\"list\":[1,2],\"none\":null}".to_string(),
        ]
    );
}
