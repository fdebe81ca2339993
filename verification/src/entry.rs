use vstd::prelude::*;

verus! {

/// Declares `serde_json::Value` so that metadata can be carried through verified code.
/// Nothing is claimed of it: Verus sees no inside, only that a value is passed on unchanged.
#[verifier::external_type_specification]
#[verifier::external_body]
pub struct ExJsonValue(serde_json::Value);

/// The severity of an entry, as the ingest service knows it.
#[derive(Clone, Copy, Debug, PartialEq, Eq, Structural, Hash)]
pub enum LogLevel {
    Debug,
    Info,
    Warn,
    Error,
    Fatal,
}

/// The name of a level on the wire: its variant name in lower case.
pub open spec fn wire_name(level: LogLevel) -> Seq<char> {
    match level {
        LogLevel::Debug => "debug"@,
        LogLevel::Info => "info"@,
        LogLevel::Warn => "warn"@,
        LogLevel::Error => "error"@,
        LogLevel::Fatal => "fatal"@,
    }
}

/// Whether entries of this level are sent one by one, ahead of the batches.
pub open spec fn is_urgent(level: LogLevel) -> bool {
    level is Error || level is Fatal
}

impl LogLevel {
    /// The name of the level on the wire.
    pub fn as_str(&self) -> (r: &'static str)
        ensures
            r@ == wire_name(*self),
    {
        match self {
            LogLevel::Debug => "debug",
            LogLevel::Info => "info",
            LogLevel::Warn => "warn",
            LogLevel::Error => "error",
            LogLevel::Fatal => "fatal",
        }
    }

    /// Whether the level is `Error` or `Fatal`.
    pub fn is_error_or_above(&self) -> (r: bool)
        ensures
            r == is_urgent(*self),
    {
        match self {
            LogLevel::Error | LogLevel::Fatal => true,
            _ => false,
        }
    }
}

/// One log entry as it is queued and sent.
#[derive(Debug)]
pub struct LogEntry {
    pub level: LogLevel,
    pub message: String,
    pub environment: String,
    pub timestamp: String,
    pub metadata: Option<serde_json::Value>,
    pub stack_trace: Option<String>,
    pub trace_id: String,
}

impl LogEntry {
    /// An entry made of the given parts.
    pub fn new(
        level: LogLevel,
        message: String,
        environment: String,
        timestamp: String,
        metadata: Option<serde_json::Value>,
        stack_trace: Option<String>,
        trace_id: String,
    ) -> (r: LogEntry)
        ensures
            r.level == level,
            r.message == message,
            r.environment == environment,
            r.timestamp == timestamp,
            r.metadata == metadata,
            r.stack_trace == stack_trace,
            r.trace_id == trace_id,
    {
        LogEntry { level, message, environment, timestamp, metadata, stack_trace, trace_id }
    }
}

} // verus!
