use aura_core::handoff::Handoff;
use serde_json::Value;

fn payload(text: &str) -> Value {
    serde_json::from_str(text).unwrap()
}

#[test]
fn new_store_is_empty() {
    assert_eq!(Handoff::new().get_and_peek(), None);
}

#[test]
fn set_then_peek_returns_the_payload() {
    let mut store = Handoff::new();
    store.set(payload(r#"{"break_type":"stretch","duration_seconds":30}"#));
    assert_eq!(store.get_and_peek(), Some(payload(r#"{"break_type":"stretch","duration_seconds":30}"#)));
}

#[test]
fn peek_does_not_clear() {
    let mut store = Handoff::new();
    store.set(payload("[1,2]"));
    assert_eq!(store.get_and_peek(), Some(payload("[1,2]")));
    assert_eq!(store.get_and_peek(), Some(payload("[1,2]")));
}

#[test]
fn clear_then_peek_returns_nothing() {
    let mut store = Handoff::new();
    store.set(payload("7"));
    store.clear();
    assert_eq!(store.get_and_peek(), None);
}

#[test]
fn clear_is_idempotent() {
    let mut store = Handoff::new();
    store.clear();
    assert_eq!(store.get_and_peek(), None);
    store.set(payload("true"));
    store.clear();
    store.clear();
    assert_eq!(store.get_and_peek(), None);
}

#[test]
fn last_set_wins() {
    let mut store = Handoff::new();
    store.set(payload(r#"{"n":1}"#));
    store.set(payload(r#"{"n":2}"#));
    assert_eq!(store.get_and_peek(), Some(payload(r#"{"n":2}"#)));
}

#[test]
fn set_after_clear_is_seen() {
    let mut store = Handoff::new();
    store.set(payload("1"));
    store.clear();
    store.set(Value::Null);
    assert_eq!(store.get_and_peek(), Some(Value::Null));
}
