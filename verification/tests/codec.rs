use aura_core::codec::{decode, decode_value, encode, frame, DecodeError, InboundEvent};
use serde_json::{Number, Value};

fn parse(text: &str) -> Value {
    serde_json::from_str(text).unwrap()
}

#[test]
fn decode_break_due_line() {
    let line = br#"{"type":"break_due","data":{"break_type":"stretch","duration_seconds":30}}"#;
    let event = decode(line).unwrap();
    assert_eq!(event.event_type, "break_due");
    let mut data = serde_json::Map::new();
    data.insert("break_type".to_string(), Value::String("stretch".to_string()));
    data.insert("duration_seconds".to_string(), Value::Number(Number::from(30)));
    assert_eq!(event.data, Some(Value::Object(data)));
}

#[test]
fn decode_line_without_data() {
    let event = decode(br#"{"type":"status"}"#).unwrap();
    assert_eq!(event, InboundEvent { event_type: "status".to_string(), data: None });
}

#[test]
fn decode_line_with_null_data() {
    let event = decode(br#"{"type":"status","data":null}"#).unwrap();
    assert_eq!(event, InboundEvent { event_type: "status".to_string(), data: None });
}

#[test]
fn decode_keeps_payload_of_any_kind() {
    assert_eq!(decode(br#"{"type":"n","data":1.5}"#).unwrap().data, Some(parse("1.5")));
    assert_eq!(decode(br#"{"type":"n","data":false}"#).unwrap().data, Some(Value::Bool(false)));
    assert_eq!(decode(br#"{"type":"n","data":[1,"a"]}"#).unwrap().data, Some(parse(r#"[1,"a"]"#)));
    assert_eq!(decode(br#"{"type":"n","data":""}"#).unwrap().data, Some(Value::String(String::new())));
    assert_eq!(decode(br#"{"type":"n","data":0}"#).unwrap().data, Some(parse("0")));
}

#[test]
fn decode_ignores_other_members() {
    let event = decode(br#"{"id":7,"type":"tick","data":1,"extra":[true]}"#).unwrap();
    assert_eq!(event.event_type, "tick");
    assert_eq!(event.data, Some(parse("1")));
}

#[test]
fn decode_tolerates_surrounding_white_space() {
    let event = decode(b"  {\"type\":\"tick\"}\r\n").unwrap();
    assert_eq!(event.event_type, "tick");
}

#[test]
fn decode_takes_the_type_as_it_is() {
    assert_eq!(decode(br#"{"type":""}"#).unwrap().event_type, "");
    assert_eq!(decode(br#"{"type":"a\nb \u00e9"}"#).unwrap().event_type, "a\nb \u{e9}");
}

#[test]
fn decode_rejects_noise() {
    assert_eq!(decode(b"Traceback (most recent call last):"), Err(DecodeError::NotJson));
    assert_eq!(decode(b""), Err(DecodeError::NotJson));
    assert_eq!(decode(b"{\"type\":\"a\""), Err(DecodeError::NotJson));
    assert_eq!(decode(b"{\"type\":\"a\"} trailing"), Err(DecodeError::NotJson));
    assert_eq!(decode(&[0xff, 0xfe]), Err(DecodeError::NotJson));
}

#[test]
fn decode_rejects_json_that_is_no_object_with_a_type() {
    assert_eq!(decode(b"42"), Err(DecodeError::NoType));
    assert_eq!(decode(b"null"), Err(DecodeError::NoType));
    assert_eq!(decode(b"\"break_due\""), Err(DecodeError::NoType));
    assert_eq!(decode(br#"["break_due",{}]"#), Err(DecodeError::NoType));
    assert_eq!(decode(b"{}"), Err(DecodeError::NoType));
    assert_eq!(decode(br#"{"data":{"a":1}}"#), Err(DecodeError::NoType));
    assert_eq!(decode(br#"{"Type":"a"}"#), Err(DecodeError::NoType));
}

#[test]
fn decode_rejects_a_type_that_is_no_text() {
    assert_eq!(decode(br#"{"type":5}"#), Err(DecodeError::TypeNotText));
    assert_eq!(decode(br#"{"type":null}"#), Err(DecodeError::TypeNotText));
    assert_eq!(decode(br#"{"type":["a"],"data":1}"#), Err(DecodeError::TypeNotText));
    assert_eq!(decode(br#"{"type":{"type":"a"}}"#), Err(DecodeError::TypeNotText));
}

#[test]
fn decode_value_reads_a_parsed_line() {
    let value = parse(r#"{"type":"schedule_warning","data":{"title":"Lunch"}}"#);
    let event = decode_value(&value).unwrap();
    assert_eq!(event.event_type, "schedule_warning");
    assert_eq!(event.data, Some(parse(r#"{"title":"Lunch"}"#)));
    assert_eq!(decode_value(&parse("[]")), Err(DecodeError::NoType));
    assert_eq!(decode_value(&parse(r#"{"type":true}"#)), Err(DecodeError::TypeNotText));
}

#[test]
fn decode_goes_on_after_a_bad_line() {
    let lines: Vec<&[u8]> = vec![b"starting up...", br#"{"type":"ready"}"#, b"{oops", br#"{"type":"tick","data":2}"#];
    let mut types = Vec::new();
    let mut dropped = 0;
    for line in lines {
        match decode(line) {
            Ok(event) => types.push(event.event_type),
            Err(_) => dropped += 1,
        }
    }
    assert_eq!(types, vec!["ready".to_string(), "tick".to_string()]);
    assert_eq!(dropped, 2);
}

#[test]
fn duplicate_is_equal() {
    let event = decode(br#"{"type":"tick","data":{"n":[1,2,3]}}"#).unwrap();
    let copy = event.duplicate();
    assert_eq!(copy, event);
    let bare = InboundEvent { event_type: "x".to_string(), data: None };
    assert_eq!(bare.duplicate(), bare);
}

#[test]
fn encode_writes_compact_json() {
    assert_eq!(encode(&parse(r#"{ "cmd" : "resume" }"#)).unwrap(), r#"{"cmd":"resume"}"#);
    assert_eq!(encode(&Value::Null).unwrap(), "null");
    assert_eq!(encode(&parse("[1, 2 ,3]")).unwrap(), "[1,2,3]");
    assert_eq!(encode(&Value::String("plain".to_string())).unwrap(), "\"plain\"");
}

#[test]
fn encode_escapes_line_feeds() {
    let text = encode(&Value::String("one\ntwo\r\n\tthree".to_string())).unwrap();
    assert_eq!(text, r#""one\ntwo\r\n\tthree""#);
    assert!(!text.contains('\n'));
    let mut object = serde_json::Map::new();
    object.insert("a\nb".to_string(), Value::String("\n".to_string()));
    let text = encode(&Value::Object(object)).unwrap();
    assert_eq!(text, r#"{"a\nb":"\n"}"#);
    assert!(!text.contains('\n'));
}

#[test]
fn encode_is_deterministic() {
    let mut one = serde_json::Map::new();
    one.insert("b".to_string(), parse("1"));
    one.insert("a".to_string(), parse("2"));
    let mut two = serde_json::Map::new();
    two.insert("a".to_string(), parse("2"));
    two.insert("b".to_string(), parse("1"));
    let first = encode(&Value::Object(one)).unwrap();
    assert_eq!(first, encode(&Value::Object(two)).unwrap());
    assert_eq!(first, r#"{"a":2,"b":1}"#);
}

#[test]
fn frame_appends_one_line_feed() {
    assert_eq!(frame(r#"{"cmd":"resume"}"#.to_string()), "{\"cmd\":\"resume\"}\n");
    assert_eq!(frame(String::new()), "\n");
    let line = frame(encode(&Value::String("a\nb".to_string())).unwrap());
    assert_eq!(line.matches('\n').count(), 1);
    assert!(line.ends_with('\n'));
}
