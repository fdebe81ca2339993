use auralogs::bridge::{
    event_fields, event_message, event_parts, level_name, log_record_fields, span_object,
    to_wire_level, AuralogLayer, AuralogLogLogger, SourceFilter,
    SourceLevel,
};
use serde_json::Value;
use auralogs::entry::{LogEntry, LogLevel};
use std::sync::Arc;

#[test]
fn log_level_wire_names_are_lowercase() {
    assert_eq!(LogLevel::Fatal.as_str(), "fatal");
    assert_eq!(LogLevel::Debug.as_str(), "debug");
    assert_eq!(LogLevel::Info.as_str(), "info");
    assert_eq!(LogLevel::Warn.as_str(), "warn");
    assert_eq!(LogLevel::Error.as_str(), "error");
}

#[test]
fn only_errors_and_fatals_are_urgent() {
    assert!(LogLevel::Error.is_error_or_above());
    assert!(LogLevel::Fatal.is_error_or_above());
    assert!(!LogLevel::Warn.is_error_or_above());
    assert!(!LogLevel::Info.is_error_or_above());
    assert!(!LogLevel::Debug.is_error_or_above());
}

#[test]
fn trace_is_sent_as_debug() {
    assert_eq!(to_wire_level(SourceLevel::Trace), LogLevel::Debug);
    assert_eq!(to_wire_level(SourceLevel::Debug), LogLevel::Debug);
    assert_eq!(to_wire_level(SourceLevel::Info), LogLevel::Info);
    assert_eq!(to_wire_level(SourceLevel::Warn), LogLevel::Warn);
    assert_eq!(to_wire_level(SourceLevel::Error), LogLevel::Error);
}

#[test]
fn logger_filters_by_level() {
    let client = Arc::new(String::from("client"));
    let logger = AuralogLogLogger::new(client.clone(), SourceFilter::Info);
    assert!(Arc::ptr_eq(logger.client(), &client));
    assert_eq!(logger.level_filter(), SourceFilter::Info);
    assert!(logger.enabled(SourceLevel::Error));
    assert!(logger.enabled(SourceLevel::Info));
    assert!(!logger.enabled(SourceLevel::Debug));
    assert_eq!(logger.forwarded_level(SourceLevel::Warn), Some(LogLevel::Warn));
    assert_eq!(logger.forwarded_level(SourceLevel::Trace), None);
    let off = AuralogLogLogger::new(client.clone(), SourceFilter::Off);
    assert!(!off.enabled(SourceLevel::Error));
    let all = AuralogLogLogger::new(client, SourceFilter::Trace);
    assert_eq!(all.forwarded_level(SourceLevel::Trace), Some(LogLevel::Debug));
}

#[test]
fn layer_keeps_its_client() {
    let client = Arc::new(5u8);
    let layer = AuralogLayer::new(client.clone());
    assert!(Arc::ptr_eq(layer.client(), &client));
}

#[test]
fn entries_keep_their_parts() {
    let entry = LogEntry::new(
        LogLevel::Warn,
        String::from("m"),
        String::from("env"),
        String::from("ts"),
        None,
        Some(String::from("stack")),
        String::from("trace"),
    );
    assert_eq!(entry.level, LogLevel::Warn);
    assert_eq!(entry.message, "m");
    assert_eq!(entry.environment, "env");
    assert_eq!(entry.timestamp, "ts");
    assert!(entry.metadata.is_none());
    assert_eq!(entry.stack_trace.as_deref(), Some("stack"));
    assert_eq!(entry.trace_id, "trace");
}

fn fields(entries: &[(&str, Value)]) -> serde_json::Map<String, Value> {
    let mut map = serde_json::Map::new();
    for (key, value) in entries {
        map.insert(key.to_string(), value.clone());
    }
    map
}

fn text(s: &str) -> Value {
    Value::String(s.to_string())
}

#[test]
fn event_context_overrides_recorded_fields_and_spans_come_last() {
    let recorded = fields(&[("user_id", text("u_1")), ("source", text("mine"))]);
    let context = vec![
        (String::from("source"), text("rust_tracing")),
        (String::from("target"), text("app")),
    ];
    let spans = vec![text("request")];
    let merged = event_fields(recorded.clone(), context.clone(), spans);
    assert_eq!(
        merged,
        fields(&[
            ("user_id", text("u_1")),
            ("source", text("rust_tracing")),
            ("target", text("app")),
            ("spans", Value::Array(vec![text("request")])),
        ])
    );
    let without_spans = event_fields(recorded, context, Vec::new());
    assert_eq!(without_spans.len(), 3);
    assert!(!without_spans.contains_key("spans"));
}

#[test]
fn event_message_falls_back_to_the_event_name() {
    assert_eq!(event_message(Some(String::from("handled")), "event"), "handled");
    assert_eq!(event_message(None, "event"), "event");
}

#[test]
fn event_message_field_is_taken_out_and_used_when_it_is_a_string() {
    let recorded = fields(&[("message", text("user signed in")), ("user_id", Value::from(7u64))]);
    let context = vec![(String::from("source"), text("rust_tracing"))];
    let (message, metadata) = event_parts(recorded, "event src/lib.rs:10", context, Vec::new());
    assert_eq!(message, "user signed in");
    assert_eq!(
        metadata,
        fields(&[("user_id", Value::from(7u64)), ("source", text("rust_tracing"))])
    );
}

#[test]
fn event_message_field_that_is_not_a_string_gives_the_event_name() {
    let recorded = fields(&[("count", Value::from(3u64)), ("message", Value::Bool(true))]);
    let (message, metadata) = event_parts(recorded, "event src/lib.rs:12", Vec::new(), Vec::new());
    assert_eq!(message, "event src/lib.rs:12");
    assert_eq!(metadata, fields(&[("count", Value::from(3u64))]));
}

#[test]
fn event_without_message_field_keeps_its_fields_and_adds_spans() {
    let recorded = fields(&[("count", Value::from(3u64))]);
    let spans = vec![text("request")];
    let (message, metadata) = event_parts(recorded, "tick", Vec::new(), spans);
    assert_eq!(message, "tick");
    assert_eq!(
        metadata,
        fields(&[("count", Value::from(3u64)), ("spans", Value::Array(vec![text("request")]))])
    );
}

#[test]
fn tracing_event_includes_span_context() {
    let recorded = fields(&[("message", text("handled")), ("user_id", text("u_1"))]);
    let context = vec![
        (String::from("source"), text("rust_tracing")),
        (String::from("target"), text("sdk")),
    ];
    let span = Value::Object(fields(&[
        ("name", text("request")),
        ("fields", Value::Object(fields(&[("request_id", text("req_1"))]))),
    ]));
    let (message, metadata) = event_parts(recorded, "event", context, vec![span]);
    let metadata = Value::Object(metadata);
    assert_eq!(message, "handled");
    assert_eq!(metadata["source"], "rust_tracing");
    assert_eq!(metadata["user_id"], "u_1");
    assert_eq!(metadata["spans"][0]["name"], "request");
    assert_eq!(metadata["spans"][0]["fields"]["request_id"], "req_1");
    assert!(metadata.get("message").is_none());
}

#[test]
fn level_names_are_those_of_the_log_crate() {
    assert_eq!(level_name(SourceLevel::Error), "ERROR");
    assert_eq!(level_name(SourceLevel::Warn), "WARN");
    assert_eq!(level_name(SourceLevel::Info), "INFO");
    assert_eq!(level_name(SourceLevel::Debug), "DEBUG");
    assert_eq!(level_name(SourceLevel::Trace), "TRACE");
}

#[test]
fn log_records_keep_their_level_name_and_origin() {
    let origin = vec![
        (String::from("target"), text("app::db")),
        (String::from("module_path"), text("app::db")),
        (String::from("file"), Value::Null),
        (String::from("line"), Value::from(42u32)),
    ];
    let record = log_record_fields(SourceLevel::Trace, origin);
    assert_eq!(
        record,
        fields(&[
            ("source", text("rust_log")),
            ("rust_log_level", text("TRACE")),
            ("target", text("app::db")),
            ("module_path", text("app::db")),
            ("file", Value::Null),
            ("line", Value::from(42u32)),
        ])
    );
}

#[test]
fn span_objects_carry_name_origin_and_fields() {
    let origin = vec![
        (String::from("target"), text("sdk")),
        (String::from("line"), Value::Null),
    ];
    let recorded = Value::Object(fields(&[("request_id", text("req_1"))]));
    let span = span_object("request", origin, recorded.clone());
    assert_eq!(
        span,
        Value::Object(fields(&[
            ("name", text("request")),
            ("target", text("sdk")),
            ("line", Value::Null),
            ("fields", recorded),
        ]))
    );
    assert_eq!(span_object("idle", Vec::new(), Value::Null)["fields"], Value::Null);
}
