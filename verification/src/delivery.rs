use crate::time::{min_nat, TimeSpan};
use vstd::arithmetic::power2::{lemma_pow2_unfold, pow2};
use vstd::prelude::*;

verus! {

/// What a delivery attempt came to.
#[derive(Clone, Copy, Debug, PartialEq, Eq, Structural)]
pub enum SendOutcome {
    /// The service accepted the entries.
    Success,
    /// The attempt failed in a way that may pass later (a 5xx answer, a network failure).
    RetryableFailure,
    /// The service refused the entries (a 4xx answer); they are not sent again.
    PermanentFailure,
}

/// How a delivery attempt ended, as the HTTP client reports it.
#[derive(Clone, Copy, Debug, PartialEq, Eq, Structural)]
pub enum DeliveryReport {
    /// The service answered with this status.
    Answered(u16),
    /// The HTTP client turned an answer with this status into an error.
    Rejected(u16),
    /// No answer came back (connection, timeout or protocol failure).
    Unreachable,
}

/// Whether `status` is a client error (4xx).
pub open spec fn is_client_error(status: u16) -> bool {
    400 <= status < 500
}

/// What a delivery report means for the entries: a 2xx answer is a success, a 4xx answer or
/// error is a refusal, and anything else may pass when tried again.
pub open spec fn outcome_of(report: DeliveryReport) -> SendOutcome {
    match report {
        DeliveryReport::Answered(status) => {
            if 200 <= status < 300 {
                SendOutcome::Success
            } else if is_client_error(status) {
                SendOutcome::PermanentFailure
            } else {
                SendOutcome::RetryableFailure
            }
        },
        DeliveryReport::Rejected(status) => {
            if is_client_error(status) {
                SendOutcome::PermanentFailure
            } else {
                SendOutcome::RetryableFailure
            }
        },
        DeliveryReport::Unreachable => SendOutcome::RetryableFailure,
    }
}

/// Decides what a delivery report means for the entries (see [`outcome_of`]).
pub fn classify_delivery(report: DeliveryReport) -> (r: SendOutcome)
    ensures
        r == outcome_of(report),
{
    match report {
        DeliveryReport::Answered(status) => {
            if 200 <= status && status < 300 {
                SendOutcome::Success
            } else if 400 <= status && status < 500 {
                SendOutcome::PermanentFailure
            } else {
                SendOutcome::RetryableFailure
            }
        },
        DeliveryReport::Rejected(status) => {
            if 400 <= status && status < 500 {
                SendOutcome::PermanentFailure
            } else {
                SendOutcome::RetryableFailure
            }
        },
        DeliveryReport::Unreachable => SendOutcome::RetryableFailure,
    }
}

/// The path of the ingest route for single entries.
pub const SINGLE_PATH: &'static str = "/v1/logs/single";

/// The path of the ingest route for batches.
pub const BATCH_PATH: &'static str = "/v1/logs";

/// The address a delivery is posted to: the endpoint followed by the route for single
/// entries or for batches.
pub fn delivery_url(endpoint: &str, single: bool) -> (r: String)
    ensures
        r@ == endpoint@ + (if single {
            SINGLE_PATH@
        } else {
            BATCH_PATH@
        }),
{
    let mut url = endpoint.to_owned();
    if single {
        url.append(SINGLE_PATH);
    } else {
        url.append(BATCH_PATH);
    }
    url
}

/// The delay before the next delivery attempt of the background worker: it starts at the
/// first retry delay, doubles after each failed attempt up to the longest retry delay, and
/// falls back to the first retry delay after a success.
#[derive(Clone, Copy, Debug)]
pub struct Backoff {
    delay: TimeSpan,
}

impl View for Backoff {
    type V = nat;

    /// The current delay in nanoseconds.
    closed spec fn view(&self) -> nat {
        self.delay@
    }
}

impl Backoff {
    /// A backoff at its first delay.
    pub fn new(initial: TimeSpan) -> (r: Backoff)
        ensures
            r@ == initial@,
    {
        Backoff { delay: initial }
    }

    /// The current delay.
    pub fn delay(&self) -> (r: TimeSpan)
        ensures
            r@ == self@,
    {
        self.delay
    }

    /// After a successful attempt the delay is the first one again.
    pub fn on_success(&mut self, initial: TimeSpan)
        ensures
            final(self)@ == initial@,
    {
        self.delay = initial;
    }

    /// After a failed attempt: returns how long to wait now, and doubles the delay for the
    /// next failure, up to `max`.
    pub fn on_failure(&mut self, max: TimeSpan) -> (wait: TimeSpan)
        ensures
            wait@ == old(self)@,
            final(self)@ == min_nat(2 * old(self)@, max@),
    {
        let wait = self.delay;
        self.delay = self.delay.doubled_up_to(&max);
        wait
    }

    /// The background worker's step after a delivery attempt: after a success nothing to
    /// wait and the delay is the first one again; after a failure the current delay to wait,
    /// and the delay doubles up to `max`.
    pub fn record(&mut self, success: bool, initial: TimeSpan, max: TimeSpan) -> (wait: Option<
        TimeSpan,
    >)
        ensures
            success ==> wait is None && final(self)@ == initial@,
            !success ==> (wait matches Some(w) && w@ == old(self)@ && final(self)@ == min_nat(
                2 * old(self)@,
                max@,
            )),
    {
        if success {
            self.on_success(initial);
            None
        } else {
            Some(self.on_failure(max))
        }
    }
}

/// What a draining flush does next.
#[derive(Clone, Copy, Debug, PartialEq, Eq, Structural)]
pub enum FlushStep {
    /// The deadline has passed with entries still waiting: stop and report it.
    TimedOut,
    /// Nothing is waiting: the flush is complete.
    Done,
    /// Deliver the next batch or single entry.
    Deliver,
}

/// The next step of a draining flush: a passed deadline stops it first, then empty queues
/// end it, and otherwise it delivers.
pub fn next_flush_step(deadline_passed: bool, has_entries: bool) -> (r: FlushStep)
    ensures
        deadline_passed ==> r is TimedOut,
        !deadline_passed && !has_entries ==> r is Done,
        !deadline_passed && has_entries ==> r is Deliver,
{
    if deadline_passed {
        FlushStep::TimedOut
    } else if !has_entries {
        FlushStep::Done
    } else {
        FlushStep::Deliver
    }
}

/// After a failed delivery during a draining flush: whether to wait `delay` and go on. With a
/// deadline, the flush gives up when the wait would take it past the deadline, that is when
/// `delay` is longer than the time left.
pub fn wait_after_failure(time_left: Option<TimeSpan>, delay: TimeSpan) -> (r: bool)
    ensures
        r == match time_left {
            Some(left) => delay@ <= left@,
            None => true,
        },
{
    match time_left {
        Some(left) => !left.is_shorter_than(&delay),
        None => true,
    }
}

/// Remembers whether a warning was already printed, so that it is printed once.
#[derive(Clone, Copy, Debug)]
pub struct WarnOnce {
    warned: bool,
}

impl View for WarnOnce {
    type V = bool;

    /// Whether the warning was printed.
    closed spec fn view(&self) -> bool {
        self.warned
    }
}

impl WarnOnce {
    /// Nothing printed yet.
    pub fn new() -> (r: WarnOnce)
        ensures
            !r@,
    {
        WarnOnce { warned: false }
    }

    /// Whether the warning is to be printed now: only the first time.
    pub fn should_print(&mut self) -> (r: bool)
        ensures
            r == !old(self)@,
            final(self)@,
    {
        let first = !self.warned;
        self.warned = true;
        first
    }
}

/// A 4xx answer is never retried, while 5xx answers and unreachable services are.
pub proof fn law_client_errors_are_not_retried(status: u16)
    ensures
        is_client_error(status) ==> outcome_of(DeliveryReport::Answered(status)) is PermanentFailure
            && outcome_of(DeliveryReport::Rejected(status)) is PermanentFailure,
        500 <= status < 600 ==> outcome_of(DeliveryReport::Answered(status)) is RetryableFailure
            && outcome_of(DeliveryReport::Rejected(status)) is RetryableFailure,
        outcome_of(DeliveryReport::Unreachable) is RetryableFailure,
{
}

/// The delay of the background worker after `failures` failed attempts in a row since the
/// last success (or the start).
pub open spec fn delay_after(initial: nat, max: nat, failures: nat) -> nat
    decreases failures,
{
    if failures == 0 {
        initial
    } else {
        min_nat(2 * delay_after(initial, max, (failures - 1) as nat), max)
    }
}

/// Retry delays double after each failure and never pass the longest retry delay: after `n`
/// failures in a row the delay is `min(initial * 2^n, max)`, and it always lies between the
/// first and the longest retry delay.
pub proof fn law_retry_delay_doubles_up_to_max(initial: nat, max: nat, failures: nat)
    requires
        initial <= max,
    ensures
        delay_after(initial, max, failures) == min_nat(initial * pow2(failures), max),
        initial <= delay_after(initial, max, failures) <= max,
    decreases failures,
{
    if failures == 0 {
        assert(pow2(0) == 1) by {
            vstd::arithmetic::power2::lemma2_to64();
        }
    } else {
        let n = (failures - 1) as nat;
        law_retry_delay_doubles_up_to_max(initial, max, n);
        lemma_pow2_unfold(failures);
        let p = pow2(n);
        vstd::arithmetic::power2::lemma_pow2_pos(n);
        assert(initial * pow2(failures) == 2 * (initial * p)) by (nonlinear_arith)
            requires
                pow2(failures) == 2 * p,
        ;
        assert(initial * p >= initial) by (nonlinear_arith)
            requires
                p >= 1,
        ;
    }
}

/// The worker's delay after attempts with the outcomes `outcomes` (`true` for a success),
/// starting from `initial`, as [`Backoff::record`] updates it.
pub open spec fn delay_after_outcomes(initial: nat, max: nat, outcomes: Seq<bool>) -> nat
    decreases outcomes.len(),
{
    if outcomes.len() == 0 || outcomes.last() {
        initial
    } else {
        min_nat(2 * delay_after_outcomes(initial, max, outcomes.drop_last()), max)
    }
}

/// The number of failures at the end of `outcomes`, since the last success.
pub open spec fn trailing_failures(outcomes: Seq<bool>) -> nat
    decreases outcomes.len(),
{
    if outcomes.len() == 0 || outcomes.last() {
        0
    } else {
        1 + trailing_failures(outcomes.drop_last())
    }
}

/// Whatever the outcomes of the worker's attempts, its delay is `min(initial * 2^k, max)`
/// where `k` counts the failures since the last success, so that the `k`-th failure in a row
/// waits `min(initial * 2^(k-1), max)` and a success brings the first delay back.
pub proof fn law_worker_backoff(initial: nat, max: nat, outcomes: Seq<bool>)
    requires
        initial <= max,
    ensures
        delay_after_outcomes(initial, max, outcomes) == delay_after(
            initial,
            max,
            trailing_failures(outcomes),
        ),
        delay_after_outcomes(initial, max, outcomes) == min_nat(
            initial * pow2(trailing_failures(outcomes)),
            max,
        ),
        initial <= delay_after_outcomes(initial, max, outcomes) <= max,
    decreases outcomes.len(),
{
    if outcomes.len() > 0 && !outcomes.last() {
        law_worker_backoff(initial, max, outcomes.drop_last());
    }
    law_retry_delay_doubles_up_to_max(initial, max, trailing_failures(outcomes));
}

/// Every 2xx answer is a success, every 4xx answer or rejection is a permanent failure, and
/// everything else (other statuses, rejections that are not 4xx, no answer) is retried. A
/// success comes only from a 2xx answer.
pub proof fn law_delivery_statuses(status: u16, report: DeliveryReport)
    ensures
        200 <= status < 300 ==> outcome_of(DeliveryReport::Answered(status)) == SendOutcome::Success,
        400 <= status < 500 ==> outcome_of(DeliveryReport::Answered(status))
            == SendOutcome::PermanentFailure && outcome_of(DeliveryReport::Rejected(status))
            == SendOutcome::PermanentFailure,
        !(200 <= status < 300) && !(400 <= status < 500) ==> outcome_of(
            DeliveryReport::Answered(status),
        ) == SendOutcome::RetryableFailure && outcome_of(DeliveryReport::Rejected(status))
            == SendOutcome::RetryableFailure,
        outcome_of(report) == SendOutcome::Success ==> (report matches DeliveryReport::Answered(s)
            && 200 <= s < 300),
{
}

} // verus!
