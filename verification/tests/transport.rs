use auralogs::entry::{LogEntry, LogLevel};
use auralogs::time::TimeSpan;
use auralogs::delivery::{
    classify_delivery, delivery_url, next_flush_step, wait_after_failure, Backoff,
    DeliveryReport, FlushStep, SendOutcome, WarnOnce,
};
use auralogs::transport::{
    check_transport_config, trim_for_capacity, QueuedEntry, TransportConfig, TransportState,
};
use serde_json::Value;

fn entry(level: LogLevel, index: i64) -> LogEntry {
    let mut fields = serde_json::Map::new();
    fields.insert(String::from("index"), Value::from(index));
    LogEntry::new(
        level,
        String::from("message"),
        String::from("test"),
        String::from("2024-01-01T00:00:00.000Z"),
        Some(Value::Object(fields)),
        None,
        String::from("trace"),
    )
}

fn index_of(queued: &QueuedEntry) -> i64 {
    queued.entry.metadata.as_ref().unwrap()["index"].as_i64().unwrap()
}

fn drain(state: &mut TransportState, max_batch: usize) -> Vec<(Vec<i64>, bool)> {
    let mut deliveries = Vec::new();
    while let Some((entries, single)) = state.take_next(max_batch) {
        deliveries.push((entries.iter().map(index_of).collect(), single));
    }
    deliveries
}

#[test]
fn flush_drains_all_batches() {
    let mut state = TransportState::new();
    for index in 0..120 {
        assert!(!state.enqueue(entry(LogLevel::Info, index), 1000));
    }
    let deliveries = drain(&mut state, 50);
    let sizes: Vec<usize> = deliveries.iter().map(|(e, _)| e.len()).collect();
    assert_eq!(sizes, vec![50, 50, 20]);
    let all: Vec<i64> = deliveries.iter().flat_map(|(e, _)| e.clone()).collect();
    assert_eq!(all, (0..120).collect::<Vec<i64>>());
    assert!(!state.has_entries());
}

#[test]
fn queue_trims_oldest_entries_under_pressure() {
    let mut state = TransportState::new();
    for index in 0..5 {
        state.enqueue(entry(LogLevel::Info, index), 2);
    }
    let deliveries = drain(&mut state, 10);
    assert_eq!(deliveries, vec![(vec![3, 4], false)]);
}

#[test]
fn trimming_takes_batch_entries_before_single_ones() {
    let mut state = TransportState::new();
    state.enqueue(entry(LogLevel::Error, 0), 10);
    state.enqueue(entry(LogLevel::Info, 1), 10);
    state.enqueue(entry(LogLevel::Fatal, 2), 10);
    state.enqueue(entry(LogLevel::Warn, 3), 10);
    trim_for_capacity(&mut state, 2);
    assert_eq!(drain(&mut state, 10), vec![(vec![2], true)]);
    let mut state = TransportState::new();
    state.enqueue(entry(LogLevel::Info, 0), 10);
    state.enqueue(entry(LogLevel::Error, 1), 10);
    trim_for_capacity(&mut state, 2);
    assert_eq!(drain(&mut state, 10), vec![(vec![1], true)]);
}

#[test]
fn errors_and_fatals_go_first_one_by_one() {
    let mut state = TransportState::new();
    assert!(!state.enqueue(entry(LogLevel::Debug, 0), 100));
    assert!(state.enqueue(entry(LogLevel::Error, 1), 100));
    assert!(!state.enqueue(entry(LogLevel::Warn, 2), 100));
    assert!(state.enqueue(entry(LogLevel::Fatal, 3), 100));
    assert_eq!(
        drain(&mut state, 10),
        vec![(vec![1], true), (vec![3], true), (vec![0, 2], false)]
    );
}

#[test]
fn four_xx_failures_are_not_retried() {
    let mut state = TransportState::new();
    state.enqueue(entry(LogLevel::Info, 0), 10);
    let (entries, single) = state.take_next(10).unwrap();
    assert_eq!(delivery_url("https://ingest.test", single), "https://ingest.test/v1/logs");
    let outcome = classify_delivery(DeliveryReport::Rejected(401));
    assert_eq!(outcome, SendOutcome::PermanentFailure);
    assert_eq!(state.finish_delivery(entries, single, outcome, 3, 10), (true, 0));
    assert!(!state.has_entries());
}

#[test]
fn retryable_failures_stop_after_attempt_limit() {
    let mut state = TransportState::new();
    state.enqueue(entry(LogLevel::Info, 0), 10);
    let mut attempts = 0;
    while let Some((entries, single)) = state.take_next(10) {
        attempts += 1;
        let outcome = classify_delivery(DeliveryReport::Rejected(500));
        let (success, _) = state.finish_delivery(entries, single, outcome, 2, 10);
        assert!(!success);
    }
    assert_eq!(attempts, 2);
}

#[test]
fn requeued_entries_keep_their_order_in_front() {
    let mut state = TransportState::new();
    for index in 0..4 {
        state.enqueue(entry(LogLevel::Info, index), 10);
    }
    let (entries, single) = state.take_next(2).unwrap();
    assert_eq!(entries.iter().map(index_of).collect::<Vec<_>>(), vec![0, 1]);
    let dropped = state.requeue(entries, single, 5, 10);
    assert_eq!(dropped, 0);
    let (entries, _) = state.take_next(10).unwrap();
    assert_eq!(entries.iter().map(index_of).collect::<Vec<_>>(), vec![0, 1, 2, 3]);
    assert_eq!(entries.iter().map(|e| e.attempts).collect::<Vec<_>>(), vec![1, 1, 0, 0]);
}

#[test]
fn requeue_drops_exhausted_entries_only() {
    let mut state = TransportState::new();
    let entries = vec![
        QueuedEntry { entry: entry(LogLevel::Error, 0), attempts: 1 },
        QueuedEntry { entry: entry(LogLevel::Error, 1), attempts: 0 },
        QueuedEntry { entry: entry(LogLevel::Error, 2), attempts: 2 },
    ];
    assert_eq!(state.requeue(entries, true, 2, 10), 2);
    let deliveries = drain(&mut state, 10);
    assert_eq!(deliveries, vec![(vec![1], true)]);
}

#[test]
fn stop_flag_is_kept() {
    let mut state = TransportState::new();
    assert!(!state.is_stopped());
    state.stop();
    assert!(state.is_stopped());
    state.enqueue(entry(LogLevel::Info, 0), 1);
    state.enqueue(entry(LogLevel::Error, 1), 1);
    assert!(state.is_stopped());
    let (entries, single) = state.take_next(10).unwrap();
    assert!(state.is_stopped());
    state.finish_delivery(entries, single, SendOutcome::RetryableFailure, 3, 1);
    assert!(state.is_stopped());
    assert_eq!(state.queue_lengths(), (0, 1));
}

#[test]
fn delivery_reports_are_classified() {
    assert_eq!(classify_delivery(DeliveryReport::Answered(204)), SendOutcome::Success);
    assert_eq!(classify_delivery(DeliveryReport::Answered(200)), SendOutcome::Success);
    assert_eq!(classify_delivery(DeliveryReport::Answered(404)), SendOutcome::PermanentFailure);
    assert_eq!(classify_delivery(DeliveryReport::Answered(503)), SendOutcome::RetryableFailure);
    assert_eq!(classify_delivery(DeliveryReport::Answered(302)), SendOutcome::RetryableFailure);
    assert_eq!(classify_delivery(DeliveryReport::Rejected(499)), SendOutcome::PermanentFailure);
    assert_eq!(classify_delivery(DeliveryReport::Rejected(500)), SendOutcome::RetryableFailure);
    assert_eq!(classify_delivery(DeliveryReport::Unreachable), SendOutcome::RetryableFailure);
}

#[test]
fn delivery_urls_append_the_route() {
    assert_eq!(delivery_url("https://ingest.test", true), "https://ingest.test/v1/logs/single");
    assert_eq!(delivery_url("https://ingest.test", false), "https://ingest.test/v1/logs");
}

fn transport_config(batch: usize, queue: usize) -> TransportConfig {
    TransportConfig {
        api_key: String::from("k"),
        endpoint: String::from("https://ingest.test"),
        flush_interval: TimeSpan::from_secs(5),
        max_batch_size: batch,
        max_queue_size: queue,
        max_retry_attempts: 5,
        retry_initial_delay: TimeSpan::from_secs(1),
        retry_max_delay: TimeSpan::from_secs(30),
        http_timeout: TimeSpan::from_secs(30),
    }
}

#[test]
fn transport_settings_are_checked() {
    assert!(check_transport_config(&transport_config(50, 1000)).is_ok());
    assert!(check_transport_config(&transport_config(0, 1000)).is_err());
    assert!(check_transport_config(&transport_config(50, 0)).is_err());
}

#[test]
fn retry_delay_doubles_up_to_max() {
    let mut backoff = Backoff::new(TimeSpan::from_secs(1));
    let max = TimeSpan::from_secs(30);
    let mut waits = Vec::new();
    for _ in 0..7 {
        waits.push(backoff.on_failure(max).as_secs());
    }
    assert_eq!(waits, vec![1, 2, 4, 8, 16, 30, 30]);
    backoff.on_success(TimeSpan::from_secs(1));
    assert_eq!(backoff.delay(), TimeSpan::from_secs(1));
}

#[test]
fn worker_backoff_follows_the_outcomes() {
    let initial = TimeSpan::from_secs(1);
    let max = TimeSpan::from_secs(5);
    let mut backoff = Backoff::new(initial);
    let outcomes = [false, false, false, false, true, false, true];
    let waits: Vec<Option<u64>> = outcomes
        .iter()
        .map(|success| backoff.record(*success, initial, max).map(|w| w.as_secs()))
        .collect();
    assert_eq!(
        waits,
        vec![Some(1), Some(2), Some(4), Some(5), None, Some(1), None]
    );
}

#[test]
fn flush_steps_follow_deadline_then_queue() {
    assert_eq!(next_flush_step(true, true), FlushStep::TimedOut);
    assert_eq!(next_flush_step(true, false), FlushStep::TimedOut);
    assert_eq!(next_flush_step(false, false), FlushStep::Done);
    assert_eq!(next_flush_step(false, true), FlushStep::Deliver);
    assert!(wait_after_failure(None, TimeSpan::from_secs(9)));
    assert!(wait_after_failure(Some(TimeSpan::from_secs(2)), TimeSpan::from_secs(2)));
    assert!(!wait_after_failure(Some(TimeSpan::from_secs(1)), TimeSpan::from_secs(2)));
}

#[test]
fn warnings_are_printed_once() {
    let mut warn = WarnOnce::new();
    assert!(warn.should_print());
    assert!(!warn.should_print());
    assert!(!warn.should_print());
}

#[test]
fn draining_ends_even_when_every_delivery_fails() {
    let mut state = TransportState::new();
    for index in 0..5 {
        state.enqueue(entry(LogLevel::Info, index), 100);
    }
    state.enqueue(entry(LogLevel::Error, 5), 100);
    let mut deliveries = 0;
    let mut dropped_total = 0;
    while let Some((entries, single)) = state.take_next(2) {
        deliveries += 1;
        let (success, dropped) =
            state.finish_delivery(entries, single, SendOutcome::RetryableFailure, 3, 100);
        assert!(!success);
        dropped_total += dropped;
        assert!(deliveries <= 6 * 3);
    }
    assert_eq!(dropped_total, 6);
    assert_eq!(deliveries, 3 + 3 * 3);
}

#[test]
fn queue_never_holds_more_than_its_capacity() {
    let mut state = TransportState::new();
    for index in 0..50 {
        let level = if index % 3 == 0 { LogLevel::Fatal } else { LogLevel::Debug };
        state.enqueue(entry(level, index), 7);
        let (batch, single) = state.queue_lengths();
        assert!(batch + single <= 7);
    }
    assert_eq!(state.queue_lengths(), (1, 6));
}

#[test]
fn manual_logs_route_and_merge_as_on_the_wire() {
    let info_metadata = auralogs::metadata::merge_metadata::<()>(
        Some(object(&[("service", "checkout")])),
        Ok(object(&[("order_id", "ord_1")])),
    );
    let error_metadata = auralogs::metadata::merge_metadata::<()>(
        Some(object(&[("service", "checkout")])),
        Ok(object(&[("reason", "declined")])),
    );
    let mut state = TransportState::new();
    state.enqueue(with_metadata(LogLevel::Info, "started", info_metadata.metadata), 1000);
    state.enqueue(with_metadata(LogLevel::Error, "failed", error_metadata.metadata), 1000);
    let (first, single) = state.take_next(50).unwrap();
    assert!(single);
    assert_eq!(delivery_url("http://127.0.0.1:1", single), "http://127.0.0.1:1/v1/logs/single");
    assert_eq!(first[0].entry.message, "failed");
    let (batch, single) = state.take_next(50).unwrap();
    assert!(!single);
    assert_eq!(delivery_url("http://127.0.0.1:1", single), "http://127.0.0.1:1/v1/logs");
    let log = &batch[0].entry;
    assert_eq!(log.level.as_str(), "info");
    assert_eq!(log.environment, "test");
    let metadata = log.metadata.as_ref().unwrap();
    assert_eq!(metadata["service"], "checkout");
    assert_eq!(metadata["order_id"], "ord_1");
}

fn object(fields: &[(&str, &str)]) -> Value {
    let mut map = serde_json::Map::new();
    for (key, value) in fields {
        map.insert(key.to_string(), Value::String(value.to_string()));
    }
    Value::Object(map)
}

fn with_metadata(level: LogLevel, message: &str, metadata: Option<Value>) -> LogEntry {
    LogEntry::new(
        level,
        message.to_string(),
        String::from("test"),
        String::from("2024-01-01T00:00:00.000Z"),
        metadata,
        None,
        String::from("trace"),
    )
}

#[test]
fn retried_entries_keep_the_queue_within_capacity() {
    let mut state = TransportState::new();
    state.enqueue(entry(LogLevel::Info, 0), 1);
    let (entries, single) = state.take_next(10).unwrap();
    // While the delivery is under way a new entry arrives.
    state.enqueue(entry(LogLevel::Info, 1), 1);
    let (success, dropped) =
        state.finish_delivery(entries, single, SendOutcome::RetryableFailure, 5, 1);
    assert!(!success);
    assert_eq!(dropped, 0);
    let (batch, single) = state.queue_lengths();
    assert_eq!(batch + single, 1);
    assert_eq!(drain(&mut state, 10), vec![(vec![1], false)]);
}

#[test]
fn trimming_to_a_bound_keeps_the_newest() {
    let mut state = TransportState::new();
    for index in 0..4 {
        state.enqueue(entry(LogLevel::Info, index), 10);
    }
    state.enqueue(entry(LogLevel::Error, 4), 10);
    auralogs::transport::trim_to(&mut state, 2);
    assert_eq!(drain(&mut state, 10), vec![(vec![4], true), (vec![3], false)]);
}
