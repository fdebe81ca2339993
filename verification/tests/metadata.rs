use auralogs::metadata::{merge_fields, merge_metadata, metadata_from_fields, MetadataShape};
use auralogs::entry::{LogEntry, LogLevel};
use serde_json::Value;

fn object(fields: &[(&str, Value)]) -> Value {
    let mut map = serde_json::Map::new();
    for (key, value) in fields {
        map.insert(key.to_string(), value.clone());
    }
    Value::Object(map)
}

fn text(s: &str) -> Value {
    Value::String(s.to_string())
}

#[test]
fn global_and_per_call_fields_are_merged() {
    let merged = merge_metadata::<()>(
        Some(object(&[("service", text("checkout"))])),
        Ok(object(&[("order_id", text("ord_1"))])),
    );
    assert!(!merged.serialization_failed);
    assert_eq!(
        merged.metadata.unwrap(),
        object(&[("service", text("checkout")), ("order_id", text("ord_1"))])
    );
}

#[test]
fn per_call_fields_win_over_global_ones() {
    let merged = merge_metadata::<()>(
        Some(object(&[("service", text("one")), ("region", text("eu"))])),
        Ok(object(&[("service", text("two"))])),
    );
    assert_eq!(
        merged.metadata.unwrap(),
        object(&[("service", text("two")), ("region", text("eu"))])
    );
}

#[test]
fn non_object_metadata_is_wrapped() {
    let merged = merge_metadata::<()>(None, Ok(text("hello")));
    assert_eq!(merged.metadata.unwrap(), object(&[("value", text("hello"))]));
    let merged = merge_metadata::<()>(None, Ok(Value::Array(vec![Value::from(1), Value::from(2)])));
    assert_eq!(
        merged.metadata.unwrap()["value"],
        Value::Array(vec![Value::from(1), Value::from(2)])
    );
}

#[test]
fn null_and_empty_metadata_give_none() {
    assert!(merge_metadata::<()>(None, Ok(Value::Null)).metadata.is_none());
    assert!(merge_metadata::<()>(None, Ok(object(&[]))).metadata.is_none());
    assert!(merge_metadata::<()>(Some(text("not an object")), Ok(Value::Null)).metadata.is_none());
}

#[test]
fn failed_serialization_keeps_global_fields_and_is_reported() {
    let merged = merge_metadata(Some(object(&[("service", text("a"))])), Err("cannot serialize"));
    assert!(merged.serialization_failed);
    assert_eq!(merged.metadata.unwrap(), object(&[("service", text("a"))]));
    let merged = merge_metadata::<&str>(None, Err("cannot serialize"));
    assert!(merged.serialization_failed);
    assert!(merged.metadata.is_none());
}

#[test]
fn entry_ships_without_global_metadata() {
    // A supplier that panicked yields no global metadata; the entry still ships.
    let merged = merge_metadata::<()>(None, Ok(object(&[("ok", Value::Bool(true))])));
    let entry = LogEntry::new(
        LogLevel::Error,
        String::from("still ships"),
        String::from("production"),
        String::from("2024-01-01T00:00:00.000Z"),
        merged.metadata,
        None,
        String::from("trace"),
    );
    assert_eq!(entry.message, "still ships");
    assert_eq!(entry.metadata.unwrap()["ok"], Value::Bool(true));
}

fn fields(entries: &[(&str, Value)]) -> serde_json::Map<String, Value> {
    let mut map = serde_json::Map::new();
    for (key, value) in entries {
        map.insert(key.to_string(), value.clone());
    }
    map
}

#[test]
fn merged_fields_put_per_call_fields_on_top() {
    let merged = merge_fields(
        Some(MetadataShape::Object(fields(&[("a", Value::from(1)), ("b", Value::from(2))]))),
        Some(MetadataShape::Object(fields(&[("b", Value::from(3)), ("c", Value::from(4))]))),
    );
    assert_eq!(
        merged,
        fields(&[("a", Value::from(1)), ("b", Value::from(3)), ("c", Value::from(4))])
    );
    let merged = merge_fields(None, Some(MetadataShape::Other(Value::from(9))));
    assert_eq!(merged, fields(&[("value", Value::from(9))]));
    let merged = merge_fields(
        Some(MetadataShape::Object(fields(&[("value", Value::from(1))]))),
        Some(MetadataShape::Other(Value::from(9))),
    );
    assert_eq!(merged, fields(&[("value", Value::from(9))]));
    assert!(merge_fields(None, Some(MetadataShape::Null)).is_empty());
    assert!(merge_fields(Some(MetadataShape::Other(Value::from(1))), None).is_empty());
}

#[test]
fn metadata_is_none_exactly_when_there_are_no_fields() {
    assert!(metadata_from_fields(serde_json::Map::new()).is_none());
    assert_eq!(
        metadata_from_fields(fields(&[("a", Value::from(2)), ("b", Value::from(3))])).unwrap(),
        object(&[("a", Value::from(2)), ("b", Value::from(3))])
    );
}
