use crate::entry::LogLevel;
use crate::metadata::{
    empty_fields, insert_all, insert_fields, json_fields, json_object, object_value, set_field,
    take_field, JsonFields,
};
use serde_json::Value;
use std::sync::Arc;
use vstd::prelude::*;

verus! {

/// A level as the `log` and `tracing` crates name it, most severe first.
#[derive(Clone, Copy, Debug, PartialEq, Eq, Structural)]
pub enum SourceLevel {
    Error,
    Warn,
    Info,
    Debug,
    Trace,
}

/// A level filter as the `log` crate names it: nothing, or everything up to a level.
#[derive(Clone, Copy, Debug, PartialEq, Eq, Structural)]
pub enum SourceFilter {
    Off,
    Error,
    Warn,
    Info,
    Debug,
    Trace,
}

/// The rank of a level: 1 for `Error` up to 5 for `Trace`.
pub open spec fn level_rank(level: SourceLevel) -> nat {
    match level {
        SourceLevel::Error => 1,
        SourceLevel::Warn => 2,
        SourceLevel::Info => 3,
        SourceLevel::Debug => 4,
        SourceLevel::Trace => 5,
    }
}

/// The rank of a filter: 0 for `Off` up to 5 for `Trace`.
pub open spec fn filter_rank(filter: SourceFilter) -> nat {
    match filter {
        SourceFilter::Off => 0,
        SourceFilter::Error => 1,
        SourceFilter::Warn => 2,
        SourceFilter::Info => 3,
        SourceFilter::Debug => 4,
        SourceFilter::Trace => 5,
    }
}

/// The wire level of a source level. The service knows no `trace`, so `Trace` is sent as
/// `debug`.
pub open spec fn wire_level(level: SourceLevel) -> LogLevel {
    match level {
        SourceLevel::Error => LogLevel::Error,
        SourceLevel::Warn => LogLevel::Warn,
        SourceLevel::Info => LogLevel::Info,
        SourceLevel::Debug => LogLevel::Debug,
        SourceLevel::Trace => LogLevel::Debug,
    }
}

/// The wire level of a level of the `log` or `tracing` crate (see [`wire_level`]).
pub fn to_wire_level(level: SourceLevel) -> (r: LogLevel)
    ensures
        r == wire_level(level),
{
    match level {
        SourceLevel::Error => LogLevel::Error,
        SourceLevel::Warn => LogLevel::Warn,
        SourceLevel::Info => LogLevel::Info,
        SourceLevel::Debug | SourceLevel::Trace => LogLevel::Debug,
    }
}

/// Whether a record of `level` passes `filter`: its rank is at most the filter's.
pub fn level_passes(level: SourceLevel, filter: SourceFilter) -> (r: bool)
    ensures
        r == (level_rank(level) <= filter_rank(filter)),
{
    let rank: u8 = match level {
        SourceLevel::Error => 1,
        SourceLevel::Warn => 2,
        SourceLevel::Info => 3,
        SourceLevel::Debug => 4,
        SourceLevel::Trace => 5,
    };
    let limit: u8 = match filter {
        SourceFilter::Off => 0,
        SourceFilter::Error => 1,
        SourceFilter::Warn => 2,
        SourceFilter::Info => 3,
        SourceFilter::Debug => 4,
        SourceFilter::Trace => 5,
    };
    rank <= limit
}

/// Forwards the records of the `log` crate to a client of type `C`.
pub struct AuralogLogLogger<C> {
    client: Arc<C>,
    level_filter: SourceFilter,
}

impl<C> AuralogLogLogger<C> {
    /// The client that records go to.
    pub closed spec fn target(&self) -> Arc<C> {
        self.client
    }

    /// The filter that records must pass.
    pub closed spec fn filter(&self) -> SourceFilter {
        self.level_filter
    }

    /// A logger that forwards the records passing `level_filter` to `client`.
    pub fn new(client: Arc<C>, level_filter: SourceFilter) -> (r: Self)
        ensures
            r.target() == client,
            r.filter() == level_filter,
    {
        AuralogLogLogger { client, level_filter }
    }

    /// The client that records go to.
    pub fn client(&self) -> (r: &Arc<C>)
        ensures
            *r == self.target(),
    {
        &self.client
    }

    /// The filter that records must pass.
    pub fn level_filter(&self) -> (r: SourceFilter)
        ensures
            r == self.filter(),
    {
        self.level_filter
    }

    /// Whether records of `level` are forwarded.
    pub fn enabled(&self, level: SourceLevel) -> (r: bool)
        ensures
            r == (level_rank(level) <= filter_rank(self.filter())),
    {
        level_passes(level, self.level_filter)
    }

    /// The wire level under which a record of `level` is forwarded, or `None` when the
    /// filter keeps it back.
    pub fn forwarded_level(&self, level: SourceLevel) -> (r: Option<LogLevel>)
        ensures
            level_rank(level) <= filter_rank(self.filter()) ==> r == Some(wire_level(level)),
            level_rank(level) > filter_rank(self.filter()) ==> r is None,
    {
        if self.enabled(level) {
            Some(to_wire_level(level))
        } else {
            None
        }
    }
}

/// Forwards the events of the `tracing` crate to a client of type `C`.
pub struct AuralogLayer<C> {
    client: Arc<C>,
}

impl<C> AuralogLayer<C> {
    /// The client that events go to.
    pub closed spec fn target(&self) -> Arc<C> {
        self.client
    }

    /// A layer that forwards events to `client`.
    pub fn new(client: Arc<C>) -> (r: Self)
        ensures
            r.target() == client,
    {
        AuralogLayer { client }
    }

    /// The client that events go to.
    pub fn client(&self) -> (r: &Arc<C>)
        ensures
            *r == self.target(),
    {
        &self.client
    }
}

/// The message of a `tracing` event: its `message` field when that field holds a text, else
/// the name of the event.
pub fn event_message(message_field: Option<String>, event_name: &str) -> (r: String)
    ensures
        r@ == match message_field {
            Some(m) => m@,
            None => event_name@,
        },
{
    match message_field {
        Some(m) => m,
        None => event_name.to_owned(),
    }
}

/// The JSON array that [`array_value`] builds from its items.
pub uninterp spec fn json_array(items: Seq<Value>) -> Value;

/// A JSON array: `serde_json::Value::Array`. The contract names the result.
#[verifier::external_body]
fn array_value(items: Vec<Value>) -> (r: Value)
    ensures
        r == json_array(items@),
{
    Value::Array(items)
}

/// The fields of a `tracing` event: its recorded fields, then its context fields on top,
/// replacing recorded fields with the same key, then the span chain under `spans` when there
/// is one.
pub open spec fn event_fields_map(
    recorded: Map<Seq<char>, Value>,
    context: Seq<(String, Value)>,
    spans: Seq<Value>,
) -> Map<Seq<char>, Value> {
    let m = insert_all(recorded, context);
    if spans.len() > 0 {
        m.insert("spans"@, json_array(spans))
    } else {
        m
    }
}

/// The fields of a `tracing` event's metadata (see [`event_fields_map`]): the context
/// fields are set one after the other on the recorded ones, then the span chain, when there
/// is one, under `spans`.
pub fn event_fields(
    recorded: JsonFields,
    context: Vec<(String, Value)>,
    spans: Vec<Value>,
) -> (r: JsonFields)
    ensures
        json_fields(r) == event_fields_map(json_fields(recorded), context@, spans@),
{
    let mut fields = recorded;
    insert_fields(&mut fields, context);
    if spans.len() > 0 {
        set_field(&mut fields, "spans".to_owned(), array_value(spans));
    }
    fields
}

/// The text of a JSON value that is a string, `None` for any other value: what [`text_of`]
/// gives.
pub uninterp spec fn json_text(value: Value) -> Option<Seq<char>>;

/// The text of a JSON string value: `serde_json::Value::as_str`, copied into a `String`. The
/// contract names the result `json_text(*value)`; it says nothing more of it.
#[verifier::external_body]
fn text_of(value: &Value) -> (r: Option<String>)
    ensures
        match r {
            Some(s) => json_text(*value) == Some(s@),
            None => json_text(*value) is None,
        },
{
    value.as_str().map(str::to_owned)
}

/// The message of a `tracing` event whose recorded fields are `recorded`: the text of its
/// `message` field when that field is a JSON string, else the event's name.
pub open spec fn event_text(recorded: Map<Seq<char>, Value>, event_name: Seq<char>) -> Seq<char> {
    if recorded.contains_key("message"@) && json_text(recorded["message"@]) is Some {
        json_text(recorded["message"@]).unwrap()
    } else {
        event_name
    }
}

/// The message and the metadata fields of a `tracing` event. The `message` field is taken
/// out of the recorded fields; its text is the message when it is a JSON string, and the
/// event's name is the message otherwise. The remaining fields, with the context fields and
/// the span chain on top (see [`event_fields_map`]), are the metadata.
pub fn event_parts(
    recorded: JsonFields,
    event_name: &str,
    context: Vec<(String, Value)>,
    spans: Vec<Value>,
) -> (r: (String, JsonFields))
    ensures
        r.0@ == event_text(json_fields(recorded), event_name@),
        json_fields(r.1) == event_fields_map(
            json_fields(recorded).remove("message"@),
            context@,
            spans@,
        ),
{
    let mut fields = recorded;
    let taken = take_field(&mut fields, "message");
    let text = match &taken {
        Some(value) => text_of(value),
        None => None,
    };
    let message = event_message(text, event_name);
    (message, event_fields(fields, context, spans))
}

/// The name that the `log` crate gives a level (`log::Level::as_str`): upper case.
pub open spec fn log_level_name(level: SourceLevel) -> Seq<char> {
    match level {
        SourceLevel::Error => "ERROR"@,
        SourceLevel::Warn => "WARN"@,
        SourceLevel::Info => "INFO"@,
        SourceLevel::Debug => "DEBUG"@,
        SourceLevel::Trace => "TRACE"@,
    }
}

/// The name that the `log` crate gives a level (see [`log_level_name`]).
pub fn level_name(level: SourceLevel) -> (r: &'static str)
    ensures
        r@ == log_level_name(level),
{
    match level {
        SourceLevel::Error => "ERROR",
        SourceLevel::Warn => "WARN",
        SourceLevel::Info => "INFO",
        SourceLevel::Debug => "DEBUG",
        SourceLevel::Trace => "TRACE",
    }
}

/// The JSON string that [`text_value`] makes of a text.
pub uninterp spec fn json_string(text: Seq<char>) -> Value;

/// A JSON string: `serde_json::Value::from(&str)`. The contract names the result.
#[verifier::external_body]
fn text_value(text: &str) -> (r: Value)
    ensures
        r == json_string(text@),
{
    Value::from(text)
}

/// The metadata fields of a record of the `log` crate: `source` is `"rust_log"`,
/// `rust_log_level` is the record's level as the `log` crate names it, then the fields that
/// tell where the record comes from, set one after the other.
pub open spec fn log_record_map(level: SourceLevel, origin: Seq<(String, Value)>) -> Map<
    Seq<char>,
    Value,
> {
    insert_all(
        Map::empty().insert("source"@, json_string("rust_log"@)).insert(
            "rust_log_level"@,
            json_string(log_level_name(level)),
        ),
        origin,
    )
}

/// The metadata fields of a record of the `log` crate (see [`log_record_map`]).
pub fn log_record_fields(level: SourceLevel, origin: Vec<(String, Value)>) -> (r: JsonFields)
    ensures
        json_fields(r) == log_record_map(level, origin@),
{
    let mut fields = empty_fields();
    set_field(&mut fields, "source".to_owned(), text_value("rust_log"));
    set_field(&mut fields, "rust_log_level".to_owned(), text_value(level_name(level)));
    insert_fields(&mut fields, origin);
    fields
}

/// The fields of the JSON object that describes a span: its `name`, the fields that tell
/// where it comes from, set one after the other, and `fields`, the value given for its
/// recorded fields.
pub open spec fn span_map(name: Seq<char>, origin: Seq<(String, Value)>, fields: Value) -> Map<
    Seq<char>,
    Value,
> {
    insert_all(Map::empty().insert("name"@, json_string(name)), origin).insert("fields"@, fields)
}

/// The JSON object that describes a span in an event's span chain (see [`span_map`]).
pub fn span_object(name: &str, origin: Vec<(String, Value)>, fields: Value) -> (r: Value)
    ensures
        exists|object: JsonFields|
            #![trigger json_object(object)]
            {
                &&& json_fields(object) == span_map(name@, origin@, fields)
                &&& r == json_object(object)
            },
{
    let mut object = empty_fields();
    set_field(&mut object, "name".to_owned(), text_value(name));
    insert_fields(&mut object, origin);
    set_field(&mut object, "fields".to_owned(), fields);
    let ghost built = object;
    let r = object_value(object);
    assert(r == json_object(built));
    r
}

/// The filter of the `log` crate that bears the same name as a level.
pub open spec fn filter_named(level: SourceLevel) -> SourceFilter {
    match level {
        SourceLevel::Error => SourceFilter::Error,
        SourceLevel::Warn => SourceFilter::Warn,
        SourceLevel::Info => SourceFilter::Info,
        SourceLevel::Debug => SourceFilter::Debug,
        SourceLevel::Trace => SourceFilter::Trace,
    }
}

/// Whether `a` is at least as severe as `b`, in the order error, warn, info, debug, trace.
pub open spec fn at_least_as_severe(a: SourceLevel, b: SourceLevel) -> bool {
    match b {
        SourceLevel::Trace => true,
        SourceLevel::Debug => !(a is Trace),
        SourceLevel::Info => a is Error || a is Warn || a is Info,
        SourceLevel::Warn => a is Error || a is Warn,
        SourceLevel::Error => a is Error,
    }
}

/// A filter named after a level lets through exactly the records of that level and the more
/// severe ones; `Off` lets nothing through and every filter lets through more levels than
/// the one before it, from `Off` to `Trace`.
pub proof fn law_filters_pass_their_own_level(level: SourceLevel, limit: SourceLevel)
    ensures
        (level_rank(level) <= filter_rank(filter_named(limit))) == at_least_as_severe(
            level,
            limit,
        ),
        level_rank(level) <= filter_rank(filter_named(level)),
        !(level_rank(level) <= filter_rank(SourceFilter::Off)),
        level_rank(level) <= filter_rank(SourceFilter::Trace),
        filter_rank(SourceFilter::Off) < filter_rank(SourceFilter::Error) < filter_rank(
            SourceFilter::Warn,
        ) < filter_rank(SourceFilter::Info) < filter_rank(SourceFilter::Debug) < filter_rank(
            SourceFilter::Trace,
        ),
{
}

/// The span chain handed to an event is kept whole, in its order, under `spans` when it is
/// not empty; with no span, `spans` is only what the recorded and context fields hold.
pub proof fn law_span_chain_is_kept(
    recorded: Map<Seq<char>, Value>,
    context: Seq<(String, Value)>,
    spans: Seq<Value>,
)
    ensures
        spans.len() > 0 ==> event_fields_map(recorded, context, spans).contains_key("spans"@)
            && event_fields_map(recorded, context, spans)["spans"@] == json_array(spans),
        spans.len() == 0 ==> event_fields_map(recorded, context, spans) == insert_all(
            recorded,
            context,
        ),
{
}

} // verus!
