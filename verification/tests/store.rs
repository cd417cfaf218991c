use std::collections::BTreeMap;

use serde_json::Value;
use thalo_sql::event::{EncodedEvent, LoadedEventRow};
use thalo_sql::store::{envelopes_from_rows, latest_sequence, new_event_rows};
use thalo_sql::StoreError;

fn encoded(event_type: &str, data: Value) -> Result<EncodedEvent, serde_json::Error> {
    Ok(EncodedEvent { event_type: event_type.to_string(), event_data: data })
}

fn encoding_error() -> serde_json::Error {
    serde_json::from_str::<u64>("not a number").unwrap_err()
}

fn opened_account(balance: f64) -> Value {
    let mut inner = serde_json::Map::new();
    inner.insert("balance".to_string(), Value::from(balance));
    let mut outer = serde_json::Map::new();
    outer.insert("OpenedAccount".to_string(), Value::Object(inner));
    Value::Object(outer)
}

fn loaded<E>(id: u64, sequence: u64, event: Result<E, serde_json::Error>) -> LoadedEventRow<E> {
    LoadedEventRow {
        id,
        created_at: "2022-01-01T00:00:00+00:00".to_string(),
        aggregate_type: "bank_account".to_string(),
        aggregate_id: "test1".to_string(),
        sequence,
        event,
    }
}

#[test]
fn latest_sequence_of_no_rows_is_none() {
    assert_eq!(latest_sequence(&vec![]), None);
}

#[test]
fn latest_sequence_is_first_row() {
    assert_eq!(latest_sequence(&vec![10]), Some(10));
    assert_eq!(latest_sequence(&vec![7, 3, 9]), Some(7));
}

#[test]
fn new_rows_without_stored_events_start_at_one() {
    let events = vec![encoded("OpenedAccount", Value::from(1)), encoded("DepositedFunds", Value::from(2))];
    let rows = new_event_rows(None, &"bank_account".to_string(), &"acc-1".to_string(), events).unwrap();
    assert_eq!(rows.len(), 2);
    assert_eq!(rows[0].sequence, 1);
    assert_eq!(rows[1].sequence, 2);
    assert_eq!(rows[0].aggregate_type, "bank_account");
    assert_eq!(rows[1].aggregate_id, "acc-1");
    assert_eq!(rows[0].event_type, "OpenedAccount");
    assert_eq!(rows[1].event_type, "DepositedFunds");
    assert_eq!(rows[0].event_data, Value::from(1));
    assert_eq!(rows[1].event_data, Value::from(2));
}

#[test]
fn new_rows_follow_latest_sequence() {
    let events = vec![
        encoded("DepositedFunds", Value::from(5)),
        encoded("WithdrewFunds", Value::from(3)),
        encoded("DepositedFunds", Value::from(8)),
    ];
    let rows = new_event_rows(Some(10), &"t".to_string(), &"a".to_string(), events).unwrap();
    let sequences: Vec<u64> = rows.iter().map(|row| row.sequence).collect();
    assert_eq!(sequences, vec![11, 12, 13]);
}

#[test]
fn new_rows_of_no_events_is_empty() {
    let rows = new_event_rows(Some(4), &"t".to_string(), &"a".to_string(), vec![]).unwrap();
    assert!(rows.is_empty());
}

#[test]
fn new_rows_at_the_top_of_the_sequence_range() {
    let events = vec![encoded("E", Value::Null)];
    let rows = new_event_rows(Some(u64::MAX - 1), &"t".to_string(), &"a".to_string(), events).unwrap();
    assert_eq!(rows[0].sequence, u64::MAX);
}

#[test]
fn encoding_failure_is_reported() {
    let events = vec![encoded("A", Value::from(1)), Err(encoding_error()), encoded("C", Value::from(3))];
    let result = new_event_rows(Some(2), &"t".to_string(), &"a".to_string(), events);
    assert!(matches!(result, Err(StoreError::SerializeEvent(_))));
}

#[test]
fn encoding_failure_first_is_reported() {
    let events = vec![Err(encoding_error())];
    let result = new_event_rows(None, &"t".to_string(), &"a".to_string(), events);
    assert!(matches!(result, Err(StoreError::SerializeEvent(_))));
}

#[test]
fn envelopes_keep_rows_in_order() {
    let rows = vec![loaded(4, 1, Ok("opened")), loaded(9, 2, Ok("deposited"))];
    let envelopes = envelopes_from_rows(rows).unwrap();
    assert_eq!(envelopes.len(), 2);
    assert_eq!(envelopes[0].id, 4);
    assert_eq!(envelopes[0].sequence, 1);
    assert_eq!(envelopes[0].event, "opened");
    assert_eq!(envelopes[1].id, 9);
    assert_eq!(envelopes[1].sequence, 2);
    assert_eq!(envelopes[1].event, "deposited");
    assert_eq!(envelopes[1].aggregate_type, "bank_account");
    assert_eq!(envelopes[1].aggregate_id, "test1");
    assert_eq!(envelopes[1].created_at, "2022-01-01T00:00:00+00:00");
}

#[test]
fn envelopes_of_no_rows_is_empty() {
    let rows: Vec<LoadedEventRow<u8>> = vec![];
    assert!(envelopes_from_rows(rows).unwrap().is_empty());
}

#[test]
fn first_undecodable_row_fails_the_load() {
    let rows = vec![loaded(4, 1, Ok(1u8)), loaded(5, 2, Err(encoding_error())), loaded(6, 3, Err(encoding_error()))];
    match envelopes_from_rows(rows) {
        Err(StoreError::DeserializeDbEvent(id, _)) => assert_eq!(id, 5),
        _ => panic!("expected a decoding error"),
    }
}

#[test]
fn test_open_account() {
    // The aggregate's latest stored sequence is 10; opening the account is saved after it.
    let latest = latest_sequence(&vec![10]);
    let events = vec![encoded("OpenedAccount", opened_account(10.0))];
    let rows = new_event_rows(latest, &"test1".to_string(), &"test1".to_string(), events).unwrap();
    assert_eq!(rows[0].sequence, 11);

    // Reading the stored row back.
    let row = &rows[0];
    let decoded = serde_json::from_value::<BTreeMap<String, BTreeMap<String, f64>>>(row.event_data.clone());
    let loaded_rows = vec![LoadedEventRow {
        id: 1,
        created_at: "2022-01-01T00:00:00+00:00".to_string(),
        aggregate_type: row.aggregate_type.clone(),
        aggregate_id: row.aggregate_id.clone(),
        sequence: row.sequence,
        event: decoded,
    }];
    let loaded_events = envelopes_from_rows(loaded_rows).unwrap();
    let first_event = loaded_events.get(0).unwrap();
    match first_event.event.get("OpenedAccount") {
        Some(fields) => assert_eq!(fields.get("balance"), Some(&10.0)),
        None => panic!("no match"),
    }
}
