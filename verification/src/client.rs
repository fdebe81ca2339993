use crate::config::AuralogConfig;
use crate::delivery::WarnOnce;
use crate::entry::{LogEntry, LogLevel};
use crate::text::IntoText;
use vstd::prelude::*;

verus! {

/// The state a client logs with: its environment, its current trace id and global metadata,
/// and whether a metadata warning was printed.
#[derive(Debug)]
pub struct ClientState<G> {
    environment: String,
    trace_id: String,
    global_metadata: Option<G>,
    metadata_warning: WarnOnce,
}

/// The parts of a [`ClientState`], with texts as characters.
pub struct ClientView<G> {
    pub environment: Seq<char>,
    pub trace_id: Seq<char>,
    pub global_metadata: Option<G>,
    pub metadata_warned: bool,
}

impl<G> View for ClientState<G> {
    type V = ClientView<G>;

    closed spec fn view(&self) -> ClientView<G> {
        ClientView {
            environment: self.environment@,
            trace_id: self.trace_id@,
            global_metadata: self.global_metadata,
            metadata_warned: self.metadata_warning@,
        }
    }
}

impl<G: Clone> ClientState<G> {
    /// The state of a new client: the configured environment and global metadata, and the
    /// configured trace id, or `generated_trace_id` when none is configured.
    pub fn new(config: &AuralogConfig<G>, generated_trace_id: String) -> (r: Self)
        ensures
            r@.environment == config@.environment,
            r@.trace_id == match config@.trace_id {
                Some(t) => t,
                None => generated_trace_id@,
            },
            match (r@.global_metadata, config@.global_metadata) {
                (Some(copy), Some(source)) => cloned::<G>(source, copy),
                (None, None) => true,
                _ => false,
            },
            !r@.metadata_warned,
    {
        let trace_id = match config.trace_id() {
            Some(t) => t.clone(),
            None => generated_trace_id,
        };
        let global_metadata = match config.global_metadata() {
            Some(g) => Some(g.clone()),
            None => None,
        };
        ClientState {
            environment: config.environment().to_owned(),
            trace_id,
            global_metadata,
            metadata_warning: WarnOnce::new(),
        }
    }
}

impl<G> ClientState<G> {
    /// The environment entries are tagged with.
    pub fn environment(&self) -> (r: &str)
        ensures
            r@ == self@.environment,
    {
        self.environment.as_str()
    }

    /// The current trace id.
    pub fn trace_id(&self) -> (r: &str)
        ensures
            r@ == self@.trace_id,
    {
        self.trace_id.as_str()
    }

    /// Replaces the trace id of the entries logged from now on.
    pub fn set_trace_id(&mut self, trace_id: impl IntoText)
        ensures
            final(self)@ == (ClientView { trace_id: trace_id.text(), ..old(self)@ }),
    {
        self.trace_id = trace_id.into_text();
    }

    /// The current global metadata.
    pub fn global_metadata(&self) -> (r: &Option<G>)
        ensures
            *r == self@.global_metadata,
    {
        &self.global_metadata
    }

    /// Replaces the global metadata of the entries logged from now on.
    pub fn set_global_metadata(&mut self, global_metadata: Option<G>)
        ensures
            final(self)@ == (ClientView { global_metadata, ..old(self)@ }),
    {
        self.global_metadata = global_metadata;
    }

    /// An entry tagged with the client's environment and current trace id.
    pub fn entry(
        &self,
        level: LogLevel,
        message: String,
        timestamp: String,
        metadata: Option<serde_json::Value>,
        stack_trace: Option<String>,
    ) -> (r: LogEntry)
        ensures
            r.level == level,
            r.message == message,
            r.environment@ == self@.environment,
            r.timestamp == timestamp,
            r.metadata == metadata,
            r.stack_trace == stack_trace,
            r.trace_id@ == self@.trace_id,
    {
        LogEntry::new(
            level,
            message,
            self.environment.clone(),
            timestamp,
            metadata,
            stack_trace,
            self.trace_id.clone(),
        )
    }

    /// Whether a metadata warning is to be printed now: only the first time.
    pub fn should_warn_metadata(&mut self) -> (r: bool)
        ensures
            r == !old(self)@.metadata_warned,
            final(self)@ == (ClientView { metadata_warned: true, ..old(self)@ }),
    {
        self.metadata_warning.should_print()
    }
}

} // verus!
