use crate::error::{AuralogsError, ErrorView};
use crate::text::{
    ascii_lower, eq_ignore_ascii_case, has_https_scheme, https_name, is_blank, is_blank_str,
    is_unicode_whitespace, law_trailing_slashes_trimmed, scheme_is_https, separator_at, trim_start,
    trim_trailing_slashes, trim_trailing_slashes_str, IntoText,
};
use crate::time::{IntoSpan, TimeSpan, NANOS_PER_SEC};
use crate::transport::TransportConfig;
use vstd::prelude::*;

verus! {

/// Where logs are sent when no endpoint is configured.
pub const DEFAULT_ENDPOINT: &'static str = "https://ingest.auralogs.ai";

/// The environment name used when none is configured.
pub const DEFAULT_ENVIRONMENT: &'static str = "production";

/// The largest batch when none is configured.
pub const DEFAULT_MAX_BATCH_SIZE: usize = 50;

/// The queue capacity when none is configured.
pub const DEFAULT_MAX_QUEUE_SIZE: usize = 1000;

/// The delivery attempts of an entry when none is configured.
pub const DEFAULT_MAX_RETRY_ATTEMPTS: usize = 5;

/// The seconds between batched flushes when none are configured.
pub const DEFAULT_FLUSH_INTERVAL_SECS: u64 = 5;

/// The seconds of the first retry delay when none are configured.
pub const DEFAULT_RETRY_INITIAL_DELAY_SECS: u64 = 1;

/// The seconds of the longest retry delay when none are configured.
pub const DEFAULT_RETRY_MAX_DELAY_SECS: u64 = 30;

/// The seconds of the request timeout when none are configured.
pub const DEFAULT_HTTP_TIMEOUT_SECS: u64 = 30;

/// The seconds a shutdown may take when none are configured.
pub const DEFAULT_SHUTDOWN_TIMEOUT_SECS: u64 = 2;

/// A validated client configuration.
///
/// `G` is the global metadata that is merged into every entry; the configuration only
/// carries it.
#[derive(Debug)]
pub struct AuralogConfig<G> {
    api_key: String,
    environment: String,
    endpoint: String,
    flush_interval: TimeSpan,
    max_batch_size: usize,
    max_queue_size: usize,
    max_retry_attempts: usize,
    retry_initial_delay: TimeSpan,
    retry_max_delay: TimeSpan,
    http_timeout: TimeSpan,
    shutdown_timeout: TimeSpan,
    trace_id: Option<String>,
    global_metadata: Option<G>,
    capture_panics: bool,
}

/// The settings of a configuration, with texts as characters and spans in nanoseconds.
pub struct ConfigView<G> {
    pub api_key: Seq<char>,
    pub environment: Seq<char>,
    pub endpoint: Seq<char>,
    pub flush_interval: nat,
    pub max_batch_size: usize,
    pub max_queue_size: usize,
    pub max_retry_attempts: usize,
    pub retry_initial_delay: nat,
    pub retry_max_delay: nat,
    pub http_timeout: nat,
    pub shutdown_timeout: nat,
    pub trace_id: Option<Seq<char>>,
    pub global_metadata: Option<G>,
    pub capture_panics: bool,
}

/// What every built configuration satisfies: a non-blank API key and environment, spans
/// that are not zero, sizes and attempts that are not zero, and a longest retry delay that
/// is not shorter than the first.
pub open spec fn is_valid_config<G>(c: ConfigView<G>) -> bool {
    &&& !is_blank(c.api_key)
    &&& !is_blank(c.environment)
    &&& c.flush_interval > 0
    &&& c.retry_initial_delay > 0
    &&& c.retry_max_delay > 0
    &&& c.http_timeout > 0
    &&& c.shutdown_timeout > 0
    &&& c.max_batch_size > 0
    &&& c.max_queue_size > 0
    &&& c.max_retry_attempts > 0
    &&& c.retry_initial_delay <= c.retry_max_delay
}

/// The view of an optional text.
pub open spec fn opt_text(s: Option<String>) -> Option<Seq<char>> {
    match s {
        Some(t) => Some(t@),
        None => None,
    }
}

/// The view of an optional span.
pub open spec fn opt_span(s: Option<TimeSpan>) -> Option<nat> {
    match s {
        Some(t) => Some(t@),
        None => None,
    }
}

impl<G> AuralogConfig<G> {
    #[verifier::type_invariant]
    spec fn well_formed(self) -> bool {
        is_valid_config(self@)
    }

    /// Every configuration satisfies [`is_valid_config`].
    pub fn check_valid(&self)
        ensures
            is_valid_config(self@),
    {
        proof {
            use_type_invariant(self);
        }
    }
}

impl<G> View for AuralogConfig<G> {
    type V = ConfigView<G>;

    closed spec fn view(&self) -> ConfigView<G> {
        ConfigView {
            api_key: self.api_key@,
            environment: self.environment@,
            endpoint: self.endpoint@,
            flush_interval: self.flush_interval@,
            max_batch_size: self.max_batch_size,
            max_queue_size: self.max_queue_size,
            max_retry_attempts: self.max_retry_attempts,
            retry_initial_delay: self.retry_initial_delay@,
            retry_max_delay: self.retry_max_delay@,
            http_timeout: self.http_timeout@,
            shutdown_timeout: self.shutdown_timeout@,
            trace_id: opt_text(self.trace_id),
            global_metadata: self.global_metadata,
            capture_panics: self.capture_panics,
        }
    }
}

impl<G: Clone> Clone for AuralogConfig<G> {
    /// A copy of the configuration; the global metadata is cloned with `G::clone`.
    fn clone(&self) -> (r: Self)
        ensures
            r@.api_key == self@.api_key,
            r@.environment == self@.environment,
            r@.endpoint == self@.endpoint,
            r@.flush_interval == self@.flush_interval,
            r@.max_batch_size == self@.max_batch_size,
            r@.max_queue_size == self@.max_queue_size,
            r@.max_retry_attempts == self@.max_retry_attempts,
            r@.retry_initial_delay == self@.retry_initial_delay,
            r@.retry_max_delay == self@.retry_max_delay,
            r@.http_timeout == self@.http_timeout,
            r@.shutdown_timeout == self@.shutdown_timeout,
            r@.trace_id == self@.trace_id,
            r@.capture_panics == self@.capture_panics,
            match (r@.global_metadata, self@.global_metadata) {
                (Some(copy), Some(source)) => cloned::<G>(source, copy),
                (None, None) => true,
                _ => false,
            },
    {
        proof {
            use_type_invariant(self);
        }
        let trace_id = match &self.trace_id {
            Some(t) => Some(t.clone()),
            None => None,
        };
        let global_metadata = match &self.global_metadata {
            Some(g) => Some(g.clone()),
            None => None,
        };
        AuralogConfig {
            api_key: self.api_key.clone(),
            environment: self.environment.clone(),
            endpoint: self.endpoint.clone(),
            flush_interval: self.flush_interval,
            max_batch_size: self.max_batch_size,
            max_queue_size: self.max_queue_size,
            max_retry_attempts: self.max_retry_attempts,
            retry_initial_delay: self.retry_initial_delay,
            retry_max_delay: self.retry_max_delay,
            http_timeout: self.http_timeout,
            shutdown_timeout: self.shutdown_timeout,
            trace_id,
            global_metadata,
            capture_panics: self.capture_panics,
        }
    }
}

/// Collects settings one by one; [`AuralogConfigBuilder::build`] checks them.
#[derive(Debug)]
pub struct AuralogConfigBuilder<G> {
    api_key: Option<String>,
    environment: Option<String>,
    endpoint: Option<String>,
    flush_interval: Option<TimeSpan>,
    max_batch_size: Option<usize>,
    max_queue_size: Option<usize>,
    max_retry_attempts: Option<usize>,
    retry_initial_delay: Option<TimeSpan>,
    retry_max_delay: Option<TimeSpan>,
    http_timeout: Option<TimeSpan>,
    shutdown_timeout: Option<TimeSpan>,
    trace_id: Option<String>,
    global_metadata: Option<G>,
    allow_insecure_endpoint: Option<bool>,
    capture_panics: Option<bool>,
}

/// The settings given to a builder so far; `None` where a setting was not given.
pub struct BuilderView<G> {
    pub api_key: Option<Seq<char>>,
    pub environment: Option<Seq<char>>,
    pub endpoint: Option<Seq<char>>,
    pub flush_interval: Option<nat>,
    pub max_batch_size: Option<usize>,
    pub max_queue_size: Option<usize>,
    pub max_retry_attempts: Option<usize>,
    pub retry_initial_delay: Option<nat>,
    pub retry_max_delay: Option<nat>,
    pub http_timeout: Option<nat>,
    pub shutdown_timeout: Option<nat>,
    pub trace_id: Option<Seq<char>>,
    pub global_metadata: Option<G>,
    pub allow_insecure_endpoint: Option<bool>,
    pub capture_panics: Option<bool>,
}

impl<G> View for AuralogConfigBuilder<G> {
    type V = BuilderView<G>;

    closed spec fn view(&self) -> BuilderView<G> {
        BuilderView {
            api_key: opt_text(self.api_key),
            environment: opt_text(self.environment),
            endpoint: opt_text(self.endpoint),
            flush_interval: opt_span(self.flush_interval),
            max_batch_size: self.max_batch_size,
            max_queue_size: self.max_queue_size,
            max_retry_attempts: self.max_retry_attempts,
            retry_initial_delay: opt_span(self.retry_initial_delay),
            retry_max_delay: opt_span(self.retry_max_delay),
            http_timeout: opt_span(self.http_timeout),
            shutdown_timeout: opt_span(self.shutdown_timeout),
            trace_id: opt_text(self.trace_id),
            global_metadata: self.global_metadata,
            allow_insecure_endpoint: self.allow_insecure_endpoint,
            capture_panics: self.capture_panics,
        }
    }
}

/// A builder to which nothing has been given.
pub open spec fn empty_builder<G>() -> BuilderView<G> {
    BuilderView {
        api_key: None,
        environment: None,
        endpoint: None,
        flush_interval: None,
        max_batch_size: None,
        max_queue_size: None,
        max_retry_attempts: None,
        retry_initial_delay: None,
        retry_max_delay: None,
        http_timeout: None,
        shutdown_timeout: None,
        trace_id: None,
        global_metadata: None,
        allow_insecure_endpoint: None,
        capture_panics: None,
    }
}

/// `s` seconds in nanoseconds.
pub open spec fn secs_nanos(s: u64) -> nat {
    (s * NANOS_PER_SEC) as nat
}

/// The message of the error for a span setting that is zero.
pub open spec fn zero_span_message(name: Seq<char>) -> Seq<char> {
    name + " must be greater than zero"@
}

/// The message of the error for an endpoint without `https`.
pub const INSECURE_ENDPOINT_MESSAGE: &'static str =
    "endpoint must use https://; pass allow_insecure_endpoint(true) to opt in to plaintext";

/// The first zero span among the named span settings, checked in the order given.
pub open spec fn first_zero_span(spans: Seq<(Seq<char>, nat)>) -> Option<Seq<char>>
    decreases spans.len(),
{
    if spans.len() == 0 {
        None
    } else if spans[0].1 == 0 {
        Some(spans[0].0)
    } else {
        first_zero_span(spans.drop_first())
    }
}

/// The span settings with their names, in the order in which they are checked.
pub open spec fn named_spans(
    flush_interval: nat,
    retry_initial_delay: nat,
    retry_max_delay: nat,
    http_timeout: nat,
    shutdown_timeout: nat,
) -> Seq<(Seq<char>, nat)> {
    seq![
        ("flush_interval"@, flush_interval),
        ("retry_initial_delay"@, retry_initial_delay),
        ("retry_max_delay"@, retry_max_delay),
        ("http_timeout"@, http_timeout),
        ("shutdown_timeout"@, shutdown_timeout),
    ]
}

/// What building the settings `b` gives: the first failed check, in the order in which
/// they are made, or the complete configuration.
pub open spec fn build_outcome<G>(b: BuilderView<G>) -> Result<ConfigView<G>, ErrorView> {
    let environment = match b.environment {
        Some(e) => e,
        None => DEFAULT_ENVIRONMENT@,
    };
    let endpoint = match b.endpoint {
        Some(e) => e,
        None => DEFAULT_ENDPOINT@,
    };
    let allow_insecure = match b.allow_insecure_endpoint {
        Some(a) => a,
        None => false,
    };
    let flush_interval = b.flush_interval.unwrap_or(secs_nanos(DEFAULT_FLUSH_INTERVAL_SECS));
    let max_batch_size = b.max_batch_size.unwrap_or(DEFAULT_MAX_BATCH_SIZE);
    let max_queue_size = b.max_queue_size.unwrap_or(DEFAULT_MAX_QUEUE_SIZE);
    let max_retry_attempts = b.max_retry_attempts.unwrap_or(DEFAULT_MAX_RETRY_ATTEMPTS);
    let retry_initial_delay = b.retry_initial_delay.unwrap_or(
        secs_nanos(DEFAULT_RETRY_INITIAL_DELAY_SECS),
    );
    let retry_max_delay = b.retry_max_delay.unwrap_or(secs_nanos(DEFAULT_RETRY_MAX_DELAY_SECS));
    let http_timeout = b.http_timeout.unwrap_or(secs_nanos(DEFAULT_HTTP_TIMEOUT_SECS));
    let shutdown_timeout = b.shutdown_timeout.unwrap_or(
        secs_nanos(DEFAULT_SHUTDOWN_TIMEOUT_SECS),
    );
    let spans = named_spans(
        flush_interval,
        retry_initial_delay,
        retry_max_delay,
        http_timeout,
        shutdown_timeout,
    );
    if b.api_key is None || is_blank(b.api_key->0) {
        Err(ErrorView::MissingApiKey)
    } else if is_blank(environment) {
        Err(ErrorView::MissingEnvironment)
    } else if is_blank(endpoint) {
        Err(ErrorView::MissingEndpoint)
    } else if !allow_insecure && !scheme_is_https(trim_start(endpoint)) {
        Err(ErrorView::InvalidConfig(INSECURE_ENDPOINT_MESSAGE@))
    } else if first_zero_span(spans) is Some {
        Err(ErrorView::InvalidConfig(zero_span_message(first_zero_span(spans)->0)))
    } else if max_batch_size == 0 {
        Err(ErrorView::InvalidConfig("max_batch_size must be greater than zero"@))
    } else if max_queue_size == 0 {
        Err(ErrorView::InvalidConfig("max_queue_size must be greater than zero"@))
    } else if max_retry_attempts == 0 {
        Err(ErrorView::InvalidConfig("max_retry_attempts must be greater than zero"@))
    } else if retry_max_delay < retry_initial_delay {
        Err(
            ErrorView::InvalidConfig(
                "retry_max_delay must be greater than or equal to retry_initial_delay"@,
            ),
        )
    } else {
        Ok(
            ConfigView {
                api_key: b.api_key->0,
                environment,
                endpoint: trim_trailing_slashes(endpoint),
                flush_interval,
                max_batch_size,
                max_queue_size,
                max_retry_attempts,
                retry_initial_delay,
                retry_max_delay,
                http_timeout,
                shutdown_timeout,
                trace_id: b.trace_id,
                global_metadata: b.global_metadata,
                capture_panics: match b.capture_panics {
                    Some(c) => c,
                    None => false,
                },
            },
        )
    }
}

/// The view of the outcome of a build.
pub open spec fn outcome_view<G>(r: Result<AuralogConfig<G>, AuralogsError>) -> Result<
    ConfigView<G>,
    ErrorView,
> {
    match r {
        Ok(c) => Ok(c@),
        Err(e) => Err(e@),
    }
}

impl<G> AuralogConfig<G> {
    /// A builder to which nothing has been given.
    pub fn builder() -> (r: AuralogConfigBuilder<G>)
        ensures
            r@ == empty_builder::<G>(),
    {
        AuralogConfigBuilder::new()
    }
}

impl<G> AuralogConfigBuilder<G> {
    /// A builder to which nothing has been given.
    pub fn new() -> (r: AuralogConfigBuilder<G>)
        ensures
            r@ == empty_builder::<G>(),
    {
        AuralogConfigBuilder {
            api_key: None,
            environment: None,
            endpoint: None,
            flush_interval: None,
            max_batch_size: None,
            max_queue_size: None,
            max_retry_attempts: None,
            retry_initial_delay: None,
            retry_max_delay: None,
            http_timeout: None,
            shutdown_timeout: None,
            trace_id: None,
            global_metadata: None,
            allow_insecure_endpoint: None,
            capture_panics: None,
        }
    }

    /// Sets the project API key; it is required.
    pub fn api_key(self, value: impl IntoText) -> (r: Self)
        ensures
            r@ == (BuilderView { api_key: Some(value.text()), ..self@ }),
    {
        AuralogConfigBuilder { api_key: Some(value.into_text()), ..self }
    }

    /// Sets the environment name, such as `production` or `staging`.
    pub fn environment(self, value: impl IntoText) -> (r: Self)
        ensures
            r@ == (BuilderView { environment: Some(value.text()), ..self@ }),
    {
        AuralogConfigBuilder { environment: Some(value.into_text()), ..self }
    }

    /// Sets the ingest endpoint; trailing `/` characters are dropped when the configuration is built.
    pub fn endpoint(self, value: impl IntoText) -> (r: Self)
        ensures
            r@ == (BuilderView { endpoint: Some(value.text()), ..self@ }),
    {
        AuralogConfigBuilder { endpoint: Some(value.into_text()), ..self }
    }

    /// Sets the time between batched flushes.
    pub fn flush_interval(self, value: impl IntoSpan) -> (r: Self)
        ensures
            r@ == (BuilderView { flush_interval: Some(value.span_nanos()), ..self@ }),
    {
        AuralogConfigBuilder { flush_interval: Some(value.into_span()), ..self }
    }

    /// Sets the largest number of entries sent in one batch.
    pub fn max_batch_size(self, value: usize) -> (r: Self)
        ensures
            r@ == (BuilderView { max_batch_size: Some(value), ..self@ }),
    {
        AuralogConfigBuilder { max_batch_size: Some(value), ..self }
    }

    /// Sets how many entries are kept in memory before the oldest are dropped.
    pub fn max_queue_size(self, value: usize) -> (r: Self)
        ensures
            r@ == (BuilderView { max_queue_size: Some(value), ..self@ }),
    {
        AuralogConfigBuilder { max_queue_size: Some(value), ..self }
    }

    /// Sets after how many delivery attempts a failing entry is dropped.
    pub fn max_retry_attempts(self, value: usize) -> (r: Self)
        ensures
            r@ == (BuilderView { max_retry_attempts: Some(value), ..self@ }),
    {
        AuralogConfigBuilder { max_retry_attempts: Some(value), ..self }
    }

    /// Sets the first delay after a failed delivery.
    pub fn retry_initial_delay(self, value: impl IntoSpan) -> (r: Self)
        ensures
            r@ == (BuilderView { retry_initial_delay: Some(value.span_nanos()), ..self@ }),
    {
        AuralogConfigBuilder { retry_initial_delay: Some(value.into_span()), ..self }
    }

    /// Sets the longest delay between delivery attempts.
    pub fn retry_max_delay(self, value: impl IntoSpan) -> (r: Self)
        ensures
            r@ == (BuilderView { retry_max_delay: Some(value.span_nanos()), ..self@ }),
    {
        AuralogConfigBuilder { retry_max_delay: Some(value.into_span()), ..self }
    }

    /// Sets the connect and read timeout of ingest requests.
    pub fn http_timeout(self, value: impl IntoSpan) -> (r: Self)
        ensures
            r@ == (BuilderView { http_timeout: Some(value.span_nanos()), ..self@ }),
    {
        AuralogConfigBuilder { http_timeout: Some(value.into_span()), ..self }
    }

    /// Sets how long a shutdown may wait for pending entries.
    pub fn shutdown_timeout(self, value: impl IntoSpan) -> (r: Self)
        ensures
            r@ == (BuilderView { shutdown_timeout: Some(value.span_nanos()), ..self@ }),
    {
        AuralogConfigBuilder { shutdown_timeout: Some(value.into_span()), ..self }
    }

    /// Sets the trace id attached to every entry.
    pub fn trace_id(self, value: impl IntoText) -> (r: Self)
        ensures
            r@ == (BuilderView { trace_id: Some(value.text()), ..self@ }),
    {
        AuralogConfigBuilder { trace_id: Some(value.into_text()), ..self }
    }

    /// Sets the metadata merged into every entry.
    pub fn global_metadata(self, value: G) -> (r: Self)
        ensures
            r@ == (BuilderView { global_metadata: Some(value), ..self@ }),
    {
        AuralogConfigBuilder { global_metadata: Some(value), ..self }
    }

    /// Allows an endpoint that does not use `https://`. Defaults to `false`.
    ///
    /// By default, building rejects endpoints whose scheme is not `https` so that a
    /// misconfigured endpoint cannot silently send every entry in plaintext.
    pub fn allow_insecure_endpoint(self, value: bool) -> (r: Self)
        ensures
            r@ == (BuilderView { allow_insecure_endpoint: Some(value), ..self@ }),
    {
        AuralogConfigBuilder { allow_insecure_endpoint: Some(value), ..self }
    }

    /// Sets whether panics are reported as fatal entries.
    pub fn capture_panics(self, value: bool) -> (r: Self)
        ensures
            r@ == (BuilderView { capture_panics: Some(value), ..self@ }),
    {
        AuralogConfigBuilder { capture_panics: Some(value), ..self }
    }
}

impl<G> Default for AuralogConfigBuilder<G> {
    fn default() -> (r: Self)
        ensures
            r@ == empty_builder::<G>(),
    {
        AuralogConfigBuilder::new()
    }
}


impl<G> AuralogConfigBuilder<G> {
    /// Checks the settings and fills in the defaults.
    ///
    /// The checks run in this order, and the first that fails decides the error: the API key
    /// is given and not blank; the environment and the endpoint are not blank; the endpoint
    /// uses `https` unless insecure endpoints are allowed; no span is zero; the batch size,
    /// the queue size and the retry attempts are not zero; the longest retry delay is not
    /// shorter than the first.
    pub fn build(self) -> (r: Result<AuralogConfig<G>, AuralogsError>)
        ensures
            outcome_view(r) == build_outcome(self@),
    {
        let AuralogConfigBuilder {
            api_key,
            environment,
            endpoint,
            flush_interval,
            max_batch_size,
            max_queue_size,
            max_retry_attempts,
            retry_initial_delay,
            retry_max_delay,
            http_timeout,
            shutdown_timeout,
            trace_id,
            global_metadata,
            allow_insecure_endpoint,
            capture_panics,
        } = self;
        let api_key = match api_key {
            Some(k) => k,
            None => {
                return Err(AuralogsError::MissingApiKey);
            },
        };
        if is_blank_str(api_key.as_str()) {
            return Err(AuralogsError::MissingApiKey);
        }
        let environment = match environment {
            Some(e) => e,
            None => DEFAULT_ENVIRONMENT.to_owned(),
        };
        if is_blank_str(environment.as_str()) {
            return Err(AuralogsError::MissingEnvironment);
        }
        let endpoint = match endpoint {
            Some(e) => e,
            None => DEFAULT_ENDPOINT.to_owned(),
        };
        if is_blank_str(endpoint.as_str()) {
            return Err(AuralogsError::MissingEndpoint);
        }
        let allow_insecure = match allow_insecure_endpoint {
            Some(a) => a,
            None => false,
        };
        if !allow_insecure && !has_https_scheme(endpoint.as_str()) {
            return Err(AuralogsError::InvalidConfig(INSECURE_ENDPOINT_MESSAGE.to_owned()));
        }
        let flush_interval = match flush_interval {
            Some(d) => d,
            None => TimeSpan::from_secs(DEFAULT_FLUSH_INTERVAL_SECS),
        };
        let max_batch_size = match max_batch_size {
            Some(n) => n,
            None => DEFAULT_MAX_BATCH_SIZE,
        };
        let max_queue_size = match max_queue_size {
            Some(n) => n,
            None => DEFAULT_MAX_QUEUE_SIZE,
        };
        let max_retry_attempts = match max_retry_attempts {
            Some(n) => n,
            None => DEFAULT_MAX_RETRY_ATTEMPTS,
        };
        let retry_initial_delay = match retry_initial_delay {
            Some(d) => d,
            None => TimeSpan::from_secs(DEFAULT_RETRY_INITIAL_DELAY_SECS),
        };
        let retry_max_delay = match retry_max_delay {
            Some(d) => d,
            None => TimeSpan::from_secs(DEFAULT_RETRY_MAX_DELAY_SECS),
        };
        let http_timeout = match http_timeout {
            Some(d) => d,
            None => TimeSpan::from_secs(DEFAULT_HTTP_TIMEOUT_SECS),
        };
        let shutdown_timeout = match shutdown_timeout {
            Some(d) => d,
            None => TimeSpan::from_secs(DEFAULT_SHUTDOWN_TIMEOUT_SECS),
        };
        if let Err(e) = validate_spans(
            flush_interval,
            retry_initial_delay,
            retry_max_delay,
            http_timeout,
            shutdown_timeout,
        ) {
            return Err(e);
        }
        if max_batch_size == 0 {
            return Err(
                AuralogsError::InvalidConfig(
                    "max_batch_size must be greater than zero".to_owned(),
                ),
            );
        }
        if max_queue_size == 0 {
            return Err(
                AuralogsError::InvalidConfig(
                    "max_queue_size must be greater than zero".to_owned(),
                ),
            );
        }
        if max_retry_attempts == 0 {
            return Err(
                AuralogsError::InvalidConfig(
                    "max_retry_attempts must be greater than zero".to_owned(),
                ),
            );
        }
        if retry_max_delay.is_shorter_than(&retry_initial_delay) {
            return Err(
                AuralogsError::InvalidConfig(
                    "retry_max_delay must be greater than or equal to retry_initial_delay".to_owned(),
                ),
            );
        }
        let endpoint = trim_trailing_slashes_str(endpoint.as_str());
        let capture_panics = match capture_panics {
            Some(c) => c,
            None => false,
        };
        Ok(
            AuralogConfig {
                api_key,
                environment,
                endpoint,
                flush_interval,
                max_batch_size,
                max_queue_size,
                max_retry_attempts,
                retry_initial_delay,
                retry_max_delay,
                http_timeout,
                shutdown_timeout,
                trace_id,
                global_metadata,
                capture_panics,
            },
        )
    }
}


impl<G> AuralogConfig<G> {
    /// The settings that the delivery side works with.
    pub fn transport_config(&self) -> (r: TransportConfig)
        ensures
            r.api_key@ == self@.api_key,
            r.endpoint@ == self@.endpoint,
            r.flush_interval@ == self@.flush_interval,
            r.max_batch_size == self@.max_batch_size,
            r.max_queue_size == self@.max_queue_size,
            r.max_retry_attempts == self@.max_retry_attempts,
            r.retry_initial_delay@ == self@.retry_initial_delay,
            r.retry_max_delay@ == self@.retry_max_delay,
            r.http_timeout@ == self@.http_timeout,
            r.max_batch_size > 0,
            r.max_queue_size > 0,
            r.max_retry_attempts > 0,
            r.retry_initial_delay@ <= r.retry_max_delay@,
    {
        proof {
            use_type_invariant(self);
        }
        TransportConfig {
            api_key: self.api_key.clone(),
            endpoint: self.endpoint.clone(),
            flush_interval: self.flush_interval,
            max_batch_size: self.max_batch_size,
            max_queue_size: self.max_queue_size,
            max_retry_attempts: self.max_retry_attempts,
            retry_initial_delay: self.retry_initial_delay,
            retry_max_delay: self.retry_max_delay,
            http_timeout: self.http_timeout,
        }
    }

    /// The api key.
    pub fn api_key(&self) -> (r: &str)
        ensures
            r@ == self@.api_key,
    {
        self.api_key.as_str()
    }

    /// The environment.
    pub fn environment(&self) -> (r: &str)
        ensures
            r@ == self@.environment,
    {
        self.environment.as_str()
    }

    /// The endpoint.
    pub fn endpoint(&self) -> (r: &str)
        ensures
            r@ == self@.endpoint,
    {
        self.endpoint.as_str()
    }

    /// The flush interval.
    pub fn flush_interval(&self) -> (r: TimeSpan)
        ensures
            r@ == self@.flush_interval,
    {
        self.flush_interval
    }

    /// The max batch size.
    pub fn max_batch_size(&self) -> (r: usize)
        ensures
            r == self@.max_batch_size,
    {
        self.max_batch_size
    }

    /// The max queue size.
    pub fn max_queue_size(&self) -> (r: usize)
        ensures
            r == self@.max_queue_size,
    {
        self.max_queue_size
    }

    /// The max retry attempts.
    pub fn max_retry_attempts(&self) -> (r: usize)
        ensures
            r == self@.max_retry_attempts,
    {
        self.max_retry_attempts
    }

    /// The retry initial delay.
    pub fn retry_initial_delay(&self) -> (r: TimeSpan)
        ensures
            r@ == self@.retry_initial_delay,
    {
        self.retry_initial_delay
    }

    /// The retry max delay.
    pub fn retry_max_delay(&self) -> (r: TimeSpan)
        ensures
            r@ == self@.retry_max_delay,
    {
        self.retry_max_delay
    }

    /// The http timeout.
    pub fn http_timeout(&self) -> (r: TimeSpan)
        ensures
            r@ == self@.http_timeout,
    {
        self.http_timeout
    }

    /// The shutdown timeout.
    pub fn shutdown_timeout(&self) -> (r: TimeSpan)
        ensures
            r@ == self@.shutdown_timeout,
    {
        self.shutdown_timeout
    }

    /// The trace id.
    pub fn trace_id(&self) -> (r: &Option<String>)
        ensures
            opt_text(*r) == self@.trace_id,
    {
        &self.trace_id
    }

    /// The global metadata.
    pub fn global_metadata(&self) -> (r: &Option<G>)
        ensures
            *r == self@.global_metadata,
    {
        &self.global_metadata
    }

    /// The capture panics.
    pub fn capture_panics(&self) -> (r: bool)
        ensures
            r == self@.capture_panics,
    {
        self.capture_panics
    }
}

/// Checks the span settings in order and fails on the first that is zero.
fn validate_spans(
    flush_interval: TimeSpan,
    retry_initial_delay: TimeSpan,
    retry_max_delay: TimeSpan,
    http_timeout: TimeSpan,
    shutdown_timeout: TimeSpan,
) -> (r: Result<(), AuralogsError>)
    ensures
        ({
            let first = first_zero_span(
                named_spans(
                    flush_interval@,
                    retry_initial_delay@,
                    retry_max_delay@,
                    http_timeout@,
                    shutdown_timeout@,
                ),
            );
            &&& r is Ok <==> first is None
            &&& r matches Err(e) ==> e@ == ErrorView::InvalidConfig(zero_span_message(first->0))
        }),
        r is Ok ==> flush_interval@ > 0 && retry_initial_delay@ > 0 && retry_max_delay@ > 0
            && http_timeout@ > 0 && shutdown_timeout@ > 0,
{
    proof {
        reveal_with_fuel(first_zero_span, 6);
    }
    validate_duration("flush_interval", flush_interval)?;
    validate_duration("retry_initial_delay", retry_initial_delay)?;
    validate_duration("retry_max_delay", retry_max_delay)?;
    validate_duration("http_timeout", http_timeout)?;
    validate_duration("shutdown_timeout", shutdown_timeout)?;
    Ok(())
}

/// Fails with `"<name> must be greater than zero"` exactly when the span is zero.
pub fn validate_duration(name: &str, value: TimeSpan) -> (r: Result<(), AuralogsError>)
    ensures
        value@ == 0 ==> (r matches Err(e) && e@ == ErrorView::InvalidConfig(zero_span_message(name@))),
        value@ != 0 ==> r is Ok,
{
    if value.is_zero() {
        let mut message = name.to_owned();
        message.append(" must be greater than zero");
        return Err(AuralogsError::InvalidConfig(message));
    }
    Ok(())
}

/// A builder given only a non-blank API key builds the documented defaults: the
/// `production` environment, the default endpoint, flushes every 5 seconds, batches of 50,
/// a queue of 1000 entries, 5 attempts, retry delays from 1 to 30 seconds, a 30 second
/// request timeout, a 2 second shutdown timeout, no trace id, no global metadata and no
/// panic capture.
pub proof fn law_defaults<G>(api_key: Seq<char>)
    requires
        !is_blank(api_key),
    ensures
        build_outcome(BuilderView { api_key: Some(api_key), ..empty_builder::<G>() }) == Ok::<
            ConfigView<G>,
            ErrorView,
        >(
            ConfigView {
                api_key,
                environment: DEFAULT_ENVIRONMENT@,
                endpoint: DEFAULT_ENDPOINT@,
                flush_interval: 5_000_000_000,
                max_batch_size: 50,
                max_queue_size: 1000,
                max_retry_attempts: 5,
                retry_initial_delay: 1_000_000_000,
                retry_max_delay: 30_000_000_000,
                http_timeout: 30_000_000_000,
                shutdown_timeout: 2_000_000_000,
                trace_id: None,
                global_metadata: None,
                capture_panics: false,
            },
        ),
{
    reveal_strlit("production");
    reveal_strlit("https://ingest.auralogs.ai");
    let e = DEFAULT_ENDPOINT@;
    assert(!is_blank(DEFAULT_ENVIRONMENT@)) by {
        assert(!is_unicode_whitespace(DEFAULT_ENVIRONMENT@[0]));
    }
    assert(!is_blank(e)) by {
        assert(!is_unicode_whitespace(e[0]));
    }
    assert(trim_start(e) == e);
    assert(separator_at(e, 5));
    assert forall|j: int| 0 <= j < 5 implies !separator_at(e, j) by {
        assert(e[j] != ':');
    }
    assert(eq_ignore_ascii_case(e.take(5), https_name())) by {
        assert forall|i: int| 0 <= i < 5 implies ascii_lower(#[trigger] e.take(5)[i]) == ascii_lower(
            https_name()[i],
        ) by {
            assert(e.take(5)[i] == e[i]);
        }
    }
    assert(scheme_is_https(trim_start(e)));
    assert(e.last() != '/');
    assert(trim_trailing_slashes(e) == e);
    reveal_with_fuel(first_zero_span, 6);
}

/// A built configuration's endpoint never ends with `'/'`, so that the ingest paths can be
/// appended to it.
pub proof fn law_built_endpoint_has_no_trailing_slash<G>(b: BuilderView<G>)
    ensures
        build_outcome(b) matches Ok(c) ==> (c.endpoint.len() == 0 || c.endpoint.last() != '/'),
{
    let endpoint = match b.endpoint {
        Some(e) => e,
        None => DEFAULT_ENDPOINT@,
    };
    law_trailing_slashes_trimmed(endpoint);
}

/// A successful build keeps every setting that was given: the API key, environment, trace
/// id and global metadata as given, the endpoint without its trailing `'/'` characters, and
/// each span, size, attempt count and flag exactly as given. A setting given as zero is
/// never built into a configuration: a zero span, batch size, queue size or attempt count is
/// refused, and a successful build is always a valid configuration.
pub proof fn law_given_settings_are_kept<G>(b: BuilderView<G>)
    ensures
        build_outcome(b) matches Ok(c) ==> {
            &&& is_valid_config(c)
            &&& b.api_key == Some(c.api_key)
            &&& b.environment matches Some(e) ==> c.environment == e
            &&& b.endpoint matches Some(e) ==> c.endpoint == trim_trailing_slashes(e)
            &&& b.flush_interval matches Some(t) ==> c.flush_interval == t
            &&& b.max_batch_size matches Some(n) ==> c.max_batch_size == n
            &&& b.max_queue_size matches Some(n) ==> c.max_queue_size == n
            &&& b.max_retry_attempts matches Some(n) ==> c.max_retry_attempts == n
            &&& b.retry_initial_delay matches Some(t) ==> c.retry_initial_delay == t
            &&& b.retry_max_delay matches Some(t) ==> c.retry_max_delay == t
            &&& b.http_timeout matches Some(t) ==> c.http_timeout == t
            &&& b.shutdown_timeout matches Some(t) ==> c.shutdown_timeout == t
            &&& c.trace_id == b.trace_id
            &&& c.global_metadata == b.global_metadata
            &&& b.capture_panics matches Some(p) ==> c.capture_panics == p
        },
        b.flush_interval == Some(0nat) ==> build_outcome(b) is Err,
        b.retry_initial_delay == Some(0nat) ==> build_outcome(b) is Err,
        b.retry_max_delay == Some(0nat) ==> build_outcome(b) is Err,
        b.http_timeout == Some(0nat) ==> build_outcome(b) is Err,
        b.shutdown_timeout == Some(0nat) ==> build_outcome(b) is Err,
        b.max_batch_size == Some(0usize) ==> build_outcome(b) is Err,
        b.max_queue_size == Some(0usize) ==> build_outcome(b) is Err,
        b.max_retry_attempts == Some(0usize) ==> build_outcome(b) is Err,
{
    reveal_with_fuel(first_zero_span, 6);
}

} // verus!
