use auralogs::config::{validate_duration, AuralogConfig, AuralogConfigBuilder};
use auralogs::error::AuralogsError;
use auralogs::time::TimeSpan;
use std::time::Duration;

type Builder = AuralogConfigBuilder<()>;

fn builder() -> Builder {
    AuralogConfig::<()>::builder()
}

fn invalid_message(result: Result<AuralogConfig<()>, AuralogsError>) -> String {
    match result {
        Err(AuralogsError::InvalidConfig(message)) => message,
        Err(other) => panic!("unexpected error {:?}", other),
        Ok(_) => panic!("configuration was accepted"),
    }
}

#[test]
fn config_requires_api_key() {
    assert!(builder().build().is_err());
}

#[test]
fn config_rejects_zero_durations_and_bad_retry_order() {
    assert!(builder()
        .api_key("aura_test")
        .flush_interval(Duration::ZERO)
        .build()
        .is_err());
    assert!(builder()
        .api_key("aura_test")
        .retry_initial_delay(Duration::from_secs(2))
        .retry_max_delay(Duration::from_secs(1))
        .build()
        .is_err());
}

#[test]
fn durations_are_taken_to_the_nanosecond() {
    let config = builder()
        .api_key("k")
        .flush_interval(Duration::new(3, 500))
        .retry_initial_delay(Duration::from_millis(250))
        .retry_max_delay(Duration::new(u64::MAX, 999_999_999))
        .http_timeout(TimeSpan::from_secs(7))
        .build()
        .unwrap();
    assert_eq!(config.flush_interval(), TimeSpan::new(3, 500));
    assert_eq!(config.retry_initial_delay(), TimeSpan::from_millis(250));
    assert_eq!(config.retry_max_delay(), TimeSpan::new(u64::MAX, 999_999_999));
    assert_eq!(config.http_timeout(), TimeSpan::from_secs(7));
}

#[test]
fn missing_or_blank_api_key_is_reported() {
    assert!(matches!(builder().build(), Err(AuralogsError::MissingApiKey)));
    assert!(matches!(
        builder().api_key(" \t\n").build(),
        Err(AuralogsError::MissingApiKey)
    ));
    assert!(matches!(
        builder().api_key("\u{3000}\u{a0}").build(),
        Err(AuralogsError::MissingApiKey)
    ));
}

#[test]
fn blank_environment_and_endpoint_are_reported() {
    assert!(matches!(
        builder().api_key("k").environment("  ").build(),
        Err(AuralogsError::MissingEnvironment)
    ));
    assert!(matches!(
        builder().api_key("k").endpoint("").build(),
        Err(AuralogsError::MissingEndpoint)
    ));
}

#[test]
fn defaults_are_filled_in() {
    let config = builder().api_key("aura_test").build().unwrap();
    assert_eq!(config.api_key(), "aura_test");
    assert_eq!(config.environment(), "production");
    assert_eq!(config.endpoint(), "https://ingest.auralogs.ai");
    assert_eq!(config.flush_interval(), TimeSpan::from_secs(5));
    assert_eq!(config.max_batch_size(), 50);
    assert_eq!(config.max_queue_size(), 1000);
    assert_eq!(config.max_retry_attempts(), 5);
    assert_eq!(config.retry_initial_delay(), TimeSpan::from_secs(1));
    assert_eq!(config.retry_max_delay(), TimeSpan::from_secs(30));
    assert_eq!(config.http_timeout(), TimeSpan::from_secs(30));
    assert_eq!(config.shutdown_timeout(), TimeSpan::from_secs(2));
    assert_eq!(config.trace_id(), &None);
    assert!(config.global_metadata().is_none());
    assert!(!config.capture_panics());
}

#[test]
fn given_settings_are_kept() {
    let config = AuralogConfig::<u32>::builder()
        .api_key(String::from("key"))
        .environment("staging")
        .endpoint("https://example.test///")
        .flush_interval(TimeSpan::from_millis(10))
        .max_batch_size(7)
        .max_queue_size(9)
        .max_retry_attempts(3)
        .retry_initial_delay(TimeSpan::from_millis(1))
        .retry_max_delay(TimeSpan::from_millis(1))
        .http_timeout(TimeSpan::from_secs(3))
        .shutdown_timeout(TimeSpan::from_secs(4))
        .trace_id("trace-one")
        .global_metadata(17)
        .capture_panics(true)
        .build()
        .unwrap();
    assert_eq!(config.environment(), "staging");
    assert_eq!(config.endpoint(), "https://example.test");
    assert_eq!(config.flush_interval(), TimeSpan::from_millis(10));
    assert_eq!(config.max_batch_size(), 7);
    assert_eq!(config.max_queue_size(), 9);
    assert_eq!(config.max_retry_attempts(), 3);
    assert_eq!(config.trace_id(), &Some(String::from("trace-one")));
    assert_eq!(config.global_metadata(), &Some(17));
    assert!(config.capture_panics());
    let transport = config.transport_config();
    assert_eq!(transport.api_key, "key");
    assert_eq!(transport.endpoint, "https://example.test");
    assert_eq!(transport.max_batch_size, 7);
    assert_eq!(transport.http_timeout, TimeSpan::from_secs(3));
}

#[test]
fn plaintext_endpoints_need_opt_in() {
    let message = invalid_message(builder().api_key("k").endpoint("http://localhost:8080").build());
    assert_eq!(
        message,
        "endpoint must use https://; pass allow_insecure_endpoint(true) to opt in to plaintext"
    );
    let config = builder()
        .api_key("k")
        .endpoint("http://localhost:8080/")
        .allow_insecure_endpoint(true)
        .build()
        .unwrap();
    assert_eq!(config.endpoint(), "http://localhost:8080");
}

#[test]
fn https_scheme_is_case_insensitive_and_leading_space_is_ignored() {
    assert!(builder().api_key("k").endpoint("HTTPS://example.test").build().is_ok());
    assert!(builder().api_key("k").endpoint("  HtTpS://example.test").build().is_ok());
    assert!(builder().api_key("k").endpoint("https:/example.test").build().is_err());
    assert!(builder().api_key("k").endpoint("httpsx://example.test").build().is_err());
    assert!(builder().api_key("k").endpoint("xhttps://example.test").build().is_err());
}

#[test]
fn zero_spans_are_named_in_check_order() {
    let message = invalid_message(
        builder()
            .api_key("k")
            .http_timeout(TimeSpan::zero())
            .shutdown_timeout(TimeSpan::zero())
            .build(),
    );
    assert_eq!(message, "http_timeout must be greater than zero");
    let message = invalid_message(builder().api_key("k").retry_max_delay(TimeSpan::zero()).build());
    assert_eq!(message, "retry_max_delay must be greater than zero");
}

#[test]
fn zero_sizes_are_rejected() {
    assert_eq!(
        invalid_message(builder().api_key("k").max_batch_size(0).build()),
        "max_batch_size must be greater than zero"
    );
    assert_eq!(
        invalid_message(builder().api_key("k").max_queue_size(0).build()),
        "max_queue_size must be greater than zero"
    );
    assert_eq!(
        invalid_message(builder().api_key("k").max_retry_attempts(0).build()),
        "max_retry_attempts must be greater than zero"
    );
    assert_eq!(
        invalid_message(
            builder()
                .api_key("k")
                .retry_initial_delay(TimeSpan::from_secs(2))
                .retry_max_delay(TimeSpan::from_secs(1))
                .build()
        ),
        "retry_max_delay must be greater than or equal to retry_initial_delay"
    );
}

#[test]
fn validate_duration_names_the_setting() {
    assert!(validate_duration("flush_interval", TimeSpan::from_nanos(1)).is_ok());
    match validate_duration("flush_interval", TimeSpan::zero()) {
        Err(AuralogsError::InvalidConfig(message)) => {
            assert_eq!(message, "flush_interval must be greater than zero")
        }
        _ => panic!("zero span accepted"),
    }
}

#[test]
fn error_messages_match_their_display_text() {
    assert_eq!(AuralogsError::MissingApiKey.message(), "api_key is required");
    assert_eq!(AuralogsError::MissingEnvironment.message(), "environment is required");
    assert_eq!(AuralogsError::MissingEndpoint.message(), "endpoint is required");
    assert_eq!(
        AuralogsError::AlreadyInitialized.message(),
        "auralogs global client is already initialized"
    );
    assert_eq!(
        AuralogsError::InvalidConfig(String::from("bad")).message(),
        "invalid config: bad"
    );
    let io = std::io::Error::new(std::io::ErrorKind::Other, "no threads");
    assert_eq!(AuralogsError::Transport(io).message(), "transport error: no threads");
}
