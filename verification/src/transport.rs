use crate::delivery::SendOutcome;
use crate::entry::{is_urgent, LogEntry};
use crate::error::{AuralogsError, ErrorView};
use crate::time::TimeSpan;
use std::collections::VecDeque;
use vstd::prelude::*;

verus! {

broadcast use vstd::std_specs::vecdeque::group_vec_dequeue_axioms;

/// The settings that the delivery side of a client works with.
#[derive(Debug, Clone)]
pub struct TransportConfig {
    pub api_key: String,
    pub endpoint: String,
    pub flush_interval: TimeSpan,
    pub max_batch_size: usize,
    pub max_queue_size: usize,
    pub max_retry_attempts: usize,
    pub retry_initial_delay: TimeSpan,
    pub retry_max_delay: TimeSpan,
    pub http_timeout: TimeSpan,
}

/// An entry waiting for delivery, with the number of failed attempts so far.
#[derive(Debug)]
pub struct QueuedEntry {
    pub entry: LogEntry,
    pub attempts: usize,
}

/// The entries waiting for delivery.
///
/// Error and fatal entries wait in the single queue and are sent one by one, ahead of the
/// others, which wait in the batch queue. Both queues keep arrival order.
#[derive(Debug)]
pub struct TransportState {
    batch_queue: VecDeque<QueuedEntry>,
    single_queue: VecDeque<QueuedEntry>,
    stopped: bool,
}

/// The queues and the stop flag of a [`TransportState`].
pub struct QueueView {
    pub batch: Seq<QueuedEntry>,
    pub single: Seq<QueuedEntry>,
    pub stopped: bool,
}

impl View for TransportState {
    type V = QueueView;

    closed spec fn view(&self) -> QueueView {
        QueueView { batch: self.batch_queue@, single: self.single_queue@, stopped: self.stopped }
    }
}

/// The number of entries waiting in both queues.
pub open spec fn queued_total(q: QueueView) -> nat {
    q.batch.len() + q.single.len()
}

/// How many entries trimming drops from the batch queue and from the single queue so that at
/// most `keep` remain: the oldest batch entries go first, then the oldest single ones.
pub open spec fn trim_counts(batch_len: nat, single_len: nat, keep: nat) -> (nat, nat) {
    let total = batch_len + single_len;
    if total <= keep {
        (0, 0)
    } else {
        let excess = (total - keep) as nat;
        if excess <= batch_len {
            (excess, 0)
        } else {
            (batch_len, (excess - batch_len) as nat)
        }
    }
}

/// The queues after dropping their oldest entries until at most `keep` remain.
pub open spec fn kept_at_most(q: QueueView, keep: nat) -> QueueView {
    let counts = trim_counts(q.batch.len(), q.single.len(), keep);
    QueueView { batch: q.batch.skip(counts.0 as int), single: q.single.skip(counts.1 as int), ..q }
}

/// The queues after trimming them to fewer than `max` entries, to make room for one more.
pub open spec fn trimmed(q: QueueView, max: nat) -> QueueView {
    kept_at_most(q, (max - 1) as nat)
}

/// Drops the oldest entries until at most `keep` remain, taking them from the batch queue
/// first and from the single queue only when the batch queue is empty.
pub fn trim_to(state: &mut TransportState, keep: usize)
    ensures
        final(state)@ == kept_at_most(old(state)@, keep as nat),
{
    let ghost b0 = state.batch_queue@;
    let ghost s0 = state.single_queue@;
    let ghost total0 = b0.len() + s0.len();
    let ghost excess: nat = if total0 <= keep {
        0
    } else {
        (total0 - keep) as nat
    };
    let ghost mut i: nat = 0;
    let ghost mut j: nat = 0;
    while state.batch_queue.len() > keep || state.single_queue.len() > keep
        - state.batch_queue.len()
        invariant
            i <= b0.len(),
            j <= s0.len(),
            state.batch_queue@ == b0.skip(i as int),
            state.single_queue@ == s0.skip(j as int),
            state.stopped == old(state).stopped,
            b0 == old(state).batch_queue@,
            s0 == old(state).single_queue@,
            total0 == b0.len() + s0.len(),
            excess == (if total0 <= keep {
                0
            } else {
                (total0 - keep) as nat
            }),
            i + j <= excess,
            j > 0 ==> i == b0.len(),
        decreases state.batch_queue@.len() + state.single_queue@.len(),
    {
        if state.batch_queue.pop_front().is_some() {
            proof {
                assert(b0.skip(i as int).subrange(1, b0.skip(i as int).len() as int) =~= b0.skip(
                    i + 1 as int,
                ));
                i = i + 1;
            }
        } else {
            let _ = state.single_queue.pop_front();
            proof {
                assert(s0.skip(j as int).subrange(1, s0.skip(j as int).len() as int) =~= s0.skip(
                    j + 1 as int,
                ));
                j = j + 1;
            }
        }
    }
}

/// Drops the oldest entries until fewer than `max_queue_size` remain, so that a new entry
/// fits (see [`trim_to`]).
pub fn trim_for_capacity(state: &mut TransportState, max_queue_size: usize)
    requires
        max_queue_size > 0,
    ensures
        final(state)@ == trimmed(old(state)@, max_queue_size as nat),
{
    trim_to(state, max_queue_size - 1);
}

/// The queues after a new entry arrives: they are trimmed to make room, then the entry joins
/// the back of the single queue when it is an error or fatal entry, and of the batch queue
/// otherwise, with no attempt counted.
pub open spec fn enqueued(q: QueueView, entry: LogEntry, max: nat) -> QueueView {
    let t = trimmed(q, max);
    let queued = QueuedEntry { entry, attempts: 0 };
    if is_urgent(entry.level) {
        QueueView { single: t.single.push(queued), ..t }
    } else {
        QueueView { batch: t.batch.push(queued), ..t }
    }
}

/// What the next delivery takes from the queues: the oldest single entry on its own if
/// there is one, else up to `max_batch` of the oldest batch entries; `None` when both queues
/// are empty. The flag tells whether the entries came from the single queue.
pub open spec fn next_delivery(q: QueueView, max_batch: nat) -> Option<
    (Seq<QueuedEntry>, bool, QueueView),
> {
    if q.single.len() > 0 {
        Some((seq![q.single[0]], true, QueueView { single: q.single.drop_first(), ..q }))
    } else if q.batch.len() > 0 {
        let k = if max_batch <= q.batch.len() {
            max_batch
        } else {
            q.batch.len()
        };
        Some((q.batch.take(k as int), false, QueueView { batch: q.batch.skip(k as int), ..q }))
    } else {
        None
    }
}

/// An entry with one more failed attempt.
pub open spec fn bumped(e: QueuedEntry) -> QueuedEntry {
    QueuedEntry { entry: e.entry, attempts: (e.attempts + 1) as usize }
}

/// The entries that may be tried again after a failed delivery, each with one more attempt
/// counted, in their order: those whose count stays below `max_attempts`.
pub open spec fn survivors(entries: Seq<QueuedEntry>, max_attempts: nat) -> Seq<QueuedEntry>
    decreases entries.len(),
{
    if entries.len() == 0 {
        Seq::empty()
    } else {
        let rest = survivors(entries.drop_first(), max_attempts);
        if entries[0].attempts + 1 < max_attempts {
            seq![bumped(entries[0])] + rest
        } else {
            rest
        }
    }
}

/// The queues after the survivors of a failed delivery are put back in front of the queue
/// they came from.
pub open spec fn requeued(
    q: QueueView,
    entries: Seq<QueuedEntry>,
    single: bool,
    max_attempts: nat,
) -> QueueView {
    let back = survivors(entries, max_attempts);
    if single {
        QueueView { single: back + q.single, ..q }
    } else {
        QueueView { batch: back + q.batch, ..q }
    }
}

impl TransportState {
    /// Empty queues, not stopped.
    pub fn new() -> (r: TransportState)
        ensures
            r@.batch == Seq::<QueuedEntry>::empty(),
            r@.single == Seq::<QueuedEntry>::empty(),
            !r@.stopped,
    {
        TransportState { batch_queue: VecDeque::new(), single_queue: VecDeque::new(), stopped: false }
    }

    /// Whether any entry is waiting.
    pub fn has_entries(&self) -> (r: bool)
        ensures
            r == (queued_total(self@) > 0),
    {
        self.single_queue.len() > 0 || self.batch_queue.len() > 0
    }

    /// The number of entries waiting in the batch queue and in the single queue.
    pub fn queue_lengths(&self) -> (r: (usize, usize))
        ensures
            r.0 == self@.batch.len(),
            r.1 == self@.single.len(),
    {
        (self.batch_queue.len(), self.single_queue.len())
    }

    /// Whether the client was asked to stop.
    pub fn is_stopped(&self) -> (r: bool)
        ensures
            r == self@.stopped,
    {
        self.stopped
    }

    /// Marks the state as stopped; the queues stay as they are.
    pub fn stop(&mut self)
        ensures
            final(self)@ == (QueueView { stopped: true, ..old(self)@ }),
    {
        self.stopped = true;
    }

    /// Queues a new entry after trimming the queues to make room for it. Error and fatal
    /// entries go to the single queue, others to the batch queue; the result tells whether
    /// the entry went to the single queue, so that delivery should start at once.
    pub fn enqueue(&mut self, entry: LogEntry, max_queue_size: usize) -> (immediate: bool)
        requires
            max_queue_size > 0,
        ensures
            immediate == is_urgent(entry.level),
            final(self)@ == enqueued(old(self)@, entry, max_queue_size as nat),
    {
        let immediate = entry.level.is_error_or_above();
        trim_for_capacity(self, max_queue_size);
        if immediate {
            self.single_queue.push_back(QueuedEntry { entry, attempts: 0 });
        } else {
            self.batch_queue.push_back(QueuedEntry { entry, attempts: 0 });
        }
        immediate
    }

    /// Takes the entries of the next delivery out of the queues (see [`next_delivery`]).
    pub fn take_next(&mut self, max_batch_size: usize) -> (r: Option<(Vec<QueuedEntry>, bool)>)
        ensures
            match (r, next_delivery(old(self)@, max_batch_size as nat)) {
                (Some((entries, single)), Some((expected, from_single, rest))) => {
                    &&& entries@ == expected
                    &&& single == from_single
                    &&& final(self)@ == rest
                },
                (None, None) => final(self)@ == old(self)@,
                _ => false,
            },
    {
        if let Some(entry) = self.single_queue.pop_front() {
            let mut entries = Vec::new();
            entries.push(entry);
            assert(entries@ =~= seq![old(self)@.single[0]]);
            return Some((entries, true));
        }
        if self.batch_queue.len() == 0 {
            return None;
        }
        let ghost b0 = self.batch_queue@;
        let k: usize = if max_batch_size <= self.batch_queue.len() {
            max_batch_size
        } else {
            self.batch_queue.len()
        };
        let mut entries: Vec<QueuedEntry> = Vec::new();
        let mut n: usize = 0;
        while n < k
            invariant
                n <= k <= b0.len(),
                entries@ == b0.take(n as int),
                self.batch_queue@ == b0.skip(n as int),
                self.single_queue@ == old(self)@.single,
                self.stopped == old(self)@.stopped,
            decreases k - n,
        {
            let entry = self.batch_queue.pop_front();
            match entry {
                Some(e) => {
                    entries.push(e);
                },
                None => {
                    assert(false);
                },
            }
            assert(b0.take(n as int).push(b0[n as int]) =~= b0.take(n + 1 as int));
            assert(b0.skip(n as int).subrange(1, b0.skip(n as int).len() as int) =~= b0.skip(
                n + 1 as int,
            ));
            n = n + 1;
        }
        Some((entries, false))
    }

    /// Puts back, in front of the queue they came from and in their order, the entries of a
    /// failed delivery whose attempt count stays below `max_retry_attempts` once this
    /// failure is counted, then drops the oldest entries until at most `max_queue_size`
    /// remain. Returns how many entries were dropped for using up their attempts.
    pub fn requeue(
        &mut self,
        entries: Vec<QueuedEntry>,
        single: bool,
        max_retry_attempts: usize,
        max_queue_size: usize,
    ) -> (dropped: usize)
        requires
            forall|i: int| 0 <= i < entries@.len() ==> #[trigger] entries@[i].attempts < usize::MAX,
        ensures
            final(self)@ == kept_at_most(
                requeued(old(self)@, entries@, single, max_retry_attempts as nat),
                max_queue_size as nat,
            ),
            queued_total(final(self)@) <= max_queue_size,
            dropped == entries@.len() - survivors(entries@, max_retry_attempts as nat).len(),
    {
        let ghost orig = entries@;
        let total = entries.len();
        let mut entries = entries;
        let mut dropped: usize = 0;
        while entries.len() > 0
            invariant
                entries@ == orig.take(entries@.len() as int),
                entries@.len() <= orig.len(),
                orig.len() == total,
                forall|i: int| 0 <= i < orig.len() ==> #[trigger] orig[i].attempts < usize::MAX,
                self@ == requeued(
                    old(self)@,
                    orig.skip(entries@.len() as int),
                    single,
                    max_retry_attempts as nat,
                ),
                dropped == (orig.len() - entries@.len()) - survivors(
                    orig.skip(entries@.len() as int),
                    max_retry_attempts as nat,
                ).len(),
                survivors(orig.skip(entries@.len() as int), max_retry_attempts as nat).len() <= orig.len()
                    - entries@.len(),
            decreases entries@.len(),
        {
            let ghost n = entries@.len();
            let e = entries.pop().unwrap();
            let ghost suffix = orig.skip(n - 1);
            assert(suffix.drop_first() =~= orig.skip(n as int));
            assert(suffix[0] == orig[n - 1]);
            assert(entries@ =~= orig.take(n - 1));
            let QueuedEntry { entry, attempts } = e;
            let attempts = attempts + 1;
            if attempts < max_retry_attempts {
                if single {
                    self.single_queue.push_front(QueuedEntry { entry, attempts });
                } else {
                    self.batch_queue.push_front(QueuedEntry { entry, attempts });
                }
                proof {
                    let back = survivors(orig.skip(n as int), max_retry_attempts as nat);
                    assert(seq![bumped(orig[n - 1])] + (back + old(self)@.single) =~= (seq![
                        bumped(orig[n - 1]),
                    ] + back) + old(self)@.single);
                    assert(seq![bumped(orig[n - 1])] + (back + old(self)@.batch) =~= (seq![
                        bumped(orig[n - 1]),
                    ] + back) + old(self)@.batch);
                }
            } else {
                dropped = dropped + 1;
            }
        }
        assert(orig.skip(0) =~= orig);
        trim_to(self, max_queue_size);
        proof {
            law_retry_respects_capacity(
                old(self)@,
                orig,
                single,
                max_retry_attempts as nat,
                max_queue_size as nat,
            );
        }
        dropped
    }

    /// Settles a delivery attempt. A success or a refusal ends the entries' journey; a
    /// retryable failure puts them back and trims the queues as [`TransportState::requeue`]
    /// does. Returns whether
    /// the attempt is to be counted as a success.
    pub fn finish_delivery(
        &mut self,
        entries: Vec<QueuedEntry>,
        single: bool,
        outcome: SendOutcome,
        max_retry_attempts: usize,
        max_queue_size: usize,
    ) -> (r: (bool, usize))
        requires
            forall|i: int| 0 <= i < entries@.len() ==> #[trigger] entries@[i].attempts < usize::MAX,
        ensures
            r.0 == !(outcome is RetryableFailure),
            outcome is RetryableFailure ==> queued_total(final(self)@) <= max_queue_size,
            outcome is RetryableFailure ==> final(self)@ == kept_at_most(
                requeued(old(self)@, entries@, single, max_retry_attempts as nat),
                max_queue_size as nat,
            ) && r.1 == entries@.len() - survivors(entries@, max_retry_attempts as nat).len(),
            !(outcome is RetryableFailure) ==> final(self)@ == old(self)@ && r.1 == 0,
    {
        match outcome {
            SendOutcome::Success | SendOutcome::PermanentFailure => (true, 0),
            SendOutcome::RetryableFailure => {
                let dropped = self.requeue(entries, single, max_retry_attempts, max_queue_size);
                (false, dropped)
            },
        }
    }
}

/// Checks the two settings without which delivery cannot work.
pub fn check_transport_config(config: &TransportConfig) -> (r: Result<(), AuralogsError>)
    ensures
        config.max_batch_size == 0 ==> (r matches Err(e) && e@ == ErrorView::InvalidConfig(
            "max_batch_size must be greater than zero"@,
        )),
        config.max_batch_size > 0 && config.max_queue_size == 0 ==> (r matches Err(e) && e@
            == ErrorView::InvalidConfig("max_queue_size must be greater than zero"@)),
        config.max_batch_size > 0 && config.max_queue_size > 0 ==> r is Ok,
{
    if config.max_batch_size == 0 {
        return Err(
            AuralogsError::InvalidConfig("max_batch_size must be greater than zero".to_owned()),
        );
    }
    if config.max_queue_size == 0 {
        return Err(
            AuralogsError::InvalidConfig("max_queue_size must be greater than zero".to_owned()),
        );
    }
    Ok(())
}

/// Whether every waiting entry has had fewer failed attempts than `max_attempts`.
pub open spec fn attempts_below(q: QueueView, max_attempts: nat) -> bool {
    &&& forall|i: int| 0 <= i < q.batch.len() ==> #[trigger] q.batch[i].attempts < max_attempts
    &&& forall|i: int| 0 <= i < q.single.len() ==> #[trigger] q.single[i].attempts < max_attempts
}

/// The delivery attempts that the entries of `s` have left before they are dropped.
pub open spec fn attempts_left(s: Seq<QueuedEntry>, max_attempts: nat) -> int
    decreases s.len(),
{
    if s.len() == 0 {
        0
    } else {
        (max_attempts - s[0].attempts) + attempts_left(s.drop_first(), max_attempts)
    }
}

/// The delivery attempts that all waiting entries have left.
pub open spec fn queue_attempts_left(q: QueueView, max_attempts: nat) -> int {
    attempts_left(q.batch, max_attempts) + attempts_left(q.single, max_attempts)
}

/// The attempts left by two runs of entries add up.
proof fn lemma_attempts_left_concat(a: Seq<QueuedEntry>, b: Seq<QueuedEntry>, max_attempts: nat)
    ensures
        attempts_left(a + b, max_attempts) == attempts_left(a, max_attempts) + attempts_left(
            b,
            max_attempts,
        ),
    decreases a.len(),
{
    if a.len() == 0 {
        assert(a + b =~= b);
    } else {
        assert((a + b).drop_first() =~= a.drop_first() + b);
        lemma_attempts_left_concat(a.drop_first(), b, max_attempts);
    }
}

/// Entries with attempts left each count for at least one attempt.
proof fn lemma_attempts_left_at_least_len(s: Seq<QueuedEntry>, max_attempts: nat)
    requires
        forall|i: int| 0 <= i < s.len() ==> #[trigger] s[i].attempts < max_attempts,
    ensures
        attempts_left(s, max_attempts) >= s.len(),
    decreases s.len(),
{
    if s.len() > 0 {
        assert forall|i: int| 0 <= i < s.drop_first().len() implies #[trigger] s.drop_first()[i].attempts
            < max_attempts by {
            assert(s.drop_first()[i] == s[i + 1]);
        }
        lemma_attempts_left_at_least_len(s.drop_first(), max_attempts);
    }
}

/// The survivors of a failure have fewer attempts left than the entries that failed, at least
/// one fewer each, and all of them stay below the attempt limit.
proof fn lemma_survivors_lose_attempts(s: Seq<QueuedEntry>, max_attempts: nat)
    requires
        forall|i: int| 0 <= i < s.len() ==> #[trigger] s[i].attempts < max_attempts,
        max_attempts <= usize::MAX,
    ensures
        attempts_left(survivors(s, max_attempts), max_attempts) + s.len() <= attempts_left(
            s,
            max_attempts,
        ),
        forall|i: int|
            0 <= i < survivors(s, max_attempts).len() ==> #[trigger] survivors(
                s,
                max_attempts,
            )[i].attempts < max_attempts,
        survivors(s, max_attempts).len() <= s.len(),
    decreases s.len(),
{
    if s.len() > 0 {
        let t = s.drop_first();
        assert forall|i: int| 0 <= i < t.len() implies #[trigger] t[i].attempts < max_attempts by {
            assert(t[i] == s[i + 1]);
        }
        lemma_survivors_lose_attempts(t, max_attempts);
        let rest = survivors(t, max_attempts);
        if s[0].attempts + 1 < max_attempts {
            let b = seq![bumped(s[0])];
            lemma_attempts_left_concat(b, rest, max_attempts);
            assert(b.drop_first() =~= Seq::<QueuedEntry>::empty());
            assert(b[0].attempts == s[0].attempts + 1);
            assert(attempts_left(b.drop_first(), max_attempts) == 0);
            assert(attempts_left(b, max_attempts) == max_attempts - (s[0].attempts + 1));
            assert(survivors(s, max_attempts) == b + rest);
            assert forall|i: int|
                0 <= i < survivors(s, max_attempts).len() implies #[trigger] survivors(
                s,
                max_attempts,
            )[i].attempts < max_attempts by {
                if i > 0 {
                    assert(survivors(s, max_attempts)[i] == rest[i - 1]);
                }
            }
        } else {
            lemma_attempts_left_at_least_len(t, max_attempts);
        }
    }
}

/// A taken prefix and the rest account for all the attempts left.
proof fn lemma_attempts_left_split(s: Seq<QueuedEntry>, k: int, max_attempts: nat)
    requires
        0 <= k <= s.len(),
    ensures
        attempts_left(s, max_attempts) == attempts_left(s.take(k), max_attempts) + attempts_left(
            s.skip(k),
            max_attempts,
        ),
{
    assert(s.take(k) + s.skip(k) =~= s);
    lemma_attempts_left_concat(s.take(k), s.skip(k), max_attempts);
}

/// Keeping at most `keep` entries leaves `min(total, keep)` of them, all taken from the
/// waiting ones, so no attempt count rises and the attempts left do not grow.
proof fn lemma_kept_at_most(q: QueueView, keep: nat, max_attempts: nat)
    requires
        attempts_below(q, max_attempts),
    ensures
        queued_total(kept_at_most(q, keep)) == if queued_total(q) <= keep {
            queued_total(q)
        } else {
            keep
        },
        attempts_below(kept_at_most(q, keep), max_attempts),
        0 <= queue_attempts_left(kept_at_most(q, keep), max_attempts) <= queue_attempts_left(
            q,
            max_attempts,
        ),
        kept_at_most(q, keep).stopped == q.stopped,
{
    let k = kept_at_most(q, keep);
    let counts = trim_counts(q.batch.len(), q.single.len(), keep);
    assert forall|i: int| 0 <= i < k.batch.len() implies #[trigger] k.batch[i].attempts
        < max_attempts by {
        assert(k.batch[i] == q.batch[i + counts.0]);
    }
    assert forall|i: int| 0 <= i < k.single.len() implies #[trigger] k.single[i].attempts
        < max_attempts by {
        assert(k.single[i] == q.single[i + counts.1]);
    }
    lemma_attempts_left_split(q.batch, counts.0 as int, max_attempts);
    lemma_attempts_left_split(q.single, counts.1 as int, max_attempts);
    assert forall|i: int| 0 <= i < q.batch.take(counts.0 as int).len() implies #[trigger] q.batch.take(
        counts.0 as int,
    )[i].attempts < max_attempts by {
        assert(q.batch.take(counts.0 as int)[i] == q.batch[i]);
    }
    assert forall|i: int| 0 <= i < q.single.take(counts.1 as int).len() implies #[trigger] q.single.take(
        counts.1 as int,
    )[i].attempts < max_attempts by {
        assert(q.single.take(counts.1 as int)[i] == q.single[i]);
    }
    lemma_attempts_left_at_least_len(q.batch.take(counts.0 as int), max_attempts);
    lemma_attempts_left_at_least_len(q.single.take(counts.1 as int), max_attempts);
    lemma_attempts_left_at_least_len(k.batch, max_attempts);
    lemma_attempts_left_at_least_len(k.single, max_attempts);
}

/// Arriving entries never make the queues hold more than `max` entries, and trimming drops
/// only the oldest entries, so the newest one is always kept. Retries keep the same bound
/// ([`law_retry_respects_capacity`]).
pub proof fn law_enqueue_respects_capacity(q: QueueView, entry: LogEntry, max: nat)
    requires
        max > 0,
    ensures
        queued_total(enqueued(q, entry, max)) <= max,
        queued_total(q) < max ==> queued_total(enqueued(q, entry, max)) == queued_total(q) + 1,
        is_urgent(entry.level) ==> enqueued(q, entry, max).single.last() == (QueuedEntry {
            entry,
            attempts: 0,
        }),
        !is_urgent(entry.level) ==> enqueued(q, entry, max).batch.last() == (QueuedEntry {
            entry,
            attempts: 0,
        }),
        enqueued(q, entry, max).stopped == q.stopped,
{
}

/// A failed delivery that puts entries back never makes the queues hold more than `max`
/// entries: after putting them back the oldest entries are dropped until at most `max`
/// remain. With the queues within capacity before a delivery, they stay within capacity
/// whatever the outcome, even when new entries arrived while the delivery was under way.
pub proof fn law_retry_respects_capacity(
    q: QueueView,
    entries: Seq<QueuedEntry>,
    single: bool,
    max_attempts: nat,
    max: nat,
)
    ensures
        queued_total(kept_at_most(requeued(q, entries, single, max_attempts), max)) <= max,
        queued_total(q) + survivors(entries, max_attempts).len() <= max ==> kept_at_most(
            requeued(q, entries, single, max_attempts),
            max,
        ) == requeued(q, entries, single, max_attempts),
{
    let r = requeued(q, entries, single, max_attempts);
    if queued_total(r) <= max {
        assert(r.batch.skip(0) =~= r.batch);
        assert(r.single.skip(0) =~= r.single);
    }
}

/// Error and fatal entries are delivered before any batch, one at a time; a batch holds the
/// oldest batch entries in order, at least one and at most `max_batch`.
pub proof fn law_delivery_order(q: QueueView, max_batch: nat)
    requires
        max_batch > 0,
        queued_total(q) > 0,
    ensures
        next_delivery(q, max_batch) is Some,
        q.single.len() > 0 ==> next_delivery(q, max_batch).unwrap().0 == seq![q.single[0]]
            && next_delivery(q, max_batch).unwrap().1,
        q.single.len() == 0 ==> ({
            let taken = next_delivery(q, max_batch).unwrap().0;
            &&& !next_delivery(q, max_batch).unwrap().1
            &&& 1 <= taken.len() <= max_batch
            &&& taken =~= q.batch.take(taken.len() as int)
        }),
{
}

/// A failed delivery never puts back an entry that has used up its attempts: every waiting
/// entry always has had fewer failed attempts than the limit, so each entry is tried at most
/// `max_attempts` times.
pub proof fn law_attempts_stay_below_limit(
    q: QueueView,
    entry: LogEntry,
    max_queue: nat,
    max_batch: nat,
    max_attempts: nat,
    outcome: SendOutcome,
)
    requires
        attempts_below(q, max_attempts),
        0 < max_attempts <= usize::MAX,
        max_queue > 0,
    ensures
        attempts_below(enqueued(q, entry, max_queue), max_attempts),
        next_delivery(q, max_batch) matches Some((taken, single, rest)) ==> ({
            &&& attempts_below(rest, max_attempts)
            &&& attempts_below(requeued(rest, taken, single, max_attempts), max_attempts)
            &&& attempts_below(
                kept_at_most(requeued(rest, taken, single, max_attempts), max_queue),
                max_attempts,
            )
        }),
{
    let e = enqueued(q, entry, max_queue);
    let t = trimmed(q, max_queue);
    assert forall|i: int| 0 <= i < e.batch.len() implies #[trigger] e.batch[i].attempts
        < max_attempts by {
        if i < t.batch.len() {
            assert(e.batch[i] == t.batch[i]);
        }
    }
    assert forall|i: int| 0 <= i < e.single.len() implies #[trigger] e.single[i].attempts
        < max_attempts by {
        if i < t.single.len() {
            assert(e.single[i] == t.single[i]);
        }
    }
    if let Some((taken, single, rest)) = next_delivery(q, max_batch) {
        lemma_next_delivery_parts(q, max_batch, max_attempts);
        lemma_survivors_lose_attempts(taken, max_attempts);
        let back = survivors(taken, max_attempts);
        let r = requeued(rest, taken, single, max_attempts);
        if single {
            assert forall|i: int| 0 <= i < r.single.len() implies #[trigger] r.single[i].attempts
                < max_attempts by {
                if i >= back.len() {
                    assert(r.single[i] == rest.single[i - back.len()]);
                }
            }
        } else {
            assert forall|i: int| 0 <= i < r.batch.len() implies #[trigger] r.batch[i].attempts
                < max_attempts by {
                if i >= back.len() {
                    assert(r.batch[i] == rest.batch[i - back.len()]);
                }
            }
        }
        lemma_kept_at_most(r, max_queue, max_attempts);
    }
}

/// The entries taken by a delivery and the rest split the waiting entries.
proof fn lemma_next_delivery_parts(q: QueueView, max_batch: nat, max_attempts: nat)
    requires
        attempts_below(q, max_attempts),
        next_delivery(q, max_batch) is Some,
    ensures
        ({
            let (taken, single, rest) = next_delivery(q, max_batch)->0;
            &&& queue_attempts_left(q, max_attempts) == attempts_left(taken, max_attempts)
                + queue_attempts_left(rest, max_attempts)
            &&& attempts_below(rest, max_attempts)
            &&& forall|i: int| 0 <= i < taken.len() ==> #[trigger] taken[i].attempts < max_attempts
            &&& rest.stopped == q.stopped
        }),
{
    let (taken, single, rest) = next_delivery(q, max_batch)->0;
    if q.single.len() > 0 {
        lemma_attempts_left_split(q.single, 1, max_attempts);
        assert(q.single.take(1) =~= taken);
        assert(q.single.skip(1) =~= rest.single);
        assert forall|i: int| 0 <= i < rest.single.len() implies #[trigger] rest.single[i].attempts
            < max_attempts by {
            assert(rest.single[i] == q.single[i + 1]);
        }
    } else {
        let k = taken.len() as int;
        lemma_attempts_left_split(q.batch, k, max_attempts);
        assert forall|i: int| 0 <= i < rest.batch.len() implies #[trigger] rest.batch[i].attempts
            < max_attempts by {
            assert(rest.batch[i] == q.batch[i + k]);
        }
    }
}

/// Every delivery of waiting entries, whatever its outcome, lowers the number of attempts
/// the waiting entries have left: a success or a refusal removes the entries, and a retryable
/// failure puts back only entries with one attempt fewer left, then may drop the oldest. So draining the queues with
/// nothing new arriving ends after finitely many deliveries.
pub proof fn law_delivery_makes_progress(
    q: QueueView,
    max_batch: nat,
    max_attempts: nat,
    max_queue: nat,
    outcome: SendOutcome,
)
    requires
        max_batch > 0,
        0 < max_attempts <= usize::MAX,
        attempts_below(q, max_attempts),
        queued_total(q) > 0,
    ensures
        next_delivery(q, max_batch) is Some,
        ({
            let (taken, single, rest) = next_delivery(q, max_batch)->0;
            let after = if outcome is RetryableFailure {
                kept_at_most(requeued(rest, taken, single, max_attempts), max_queue)
            } else {
                rest
            };
            &&& 0 <= queue_attempts_left(after, max_attempts) < queue_attempts_left(
                q,
                max_attempts,
            )
            &&& attempts_below(after, max_attempts)
        }),
{
    let (taken, single, rest) = next_delivery(q, max_batch)->0;
    lemma_next_delivery_parts(q, max_batch, max_attempts);
    lemma_survivors_lose_attempts(taken, max_attempts);
    lemma_attempts_left_at_least_len(rest.batch, max_attempts);
    lemma_attempts_left_at_least_len(rest.single, max_attempts);
    assert(taken.len() >= 1);
    let back = survivors(taken, max_attempts);
    lemma_attempts_left_at_least_len(back, max_attempts);
    if single {
        lemma_attempts_left_concat(back, rest.single, max_attempts);
    } else {
        lemma_attempts_left_concat(back, rest.batch, max_attempts);
    }
    law_attempts_stay_below_limit(q, taken[0].entry, 1, max_batch, max_attempts, outcome);
    lemma_kept_at_most(requeued(rest, taken, single, max_attempts), max_queue, max_attempts);
}

/// The queues after one delivery with the given outcome: the delivered entries leave, and
/// after a retryable failure their survivors are put back and the queues trimmed to at most
/// `max_queue` entries. Empty queues stay as they are.
pub open spec fn after_delivery(
    q: QueueView,
    max_batch: nat,
    max_attempts: nat,
    max_queue: nat,
    outcome: SendOutcome,
) -> QueueView {
    match next_delivery(q, max_batch) {
        Some((taken, single, rest)) => if outcome is RetryableFailure {
            kept_at_most(requeued(rest, taken, single, max_attempts), max_queue)
        } else {
            rest
        },
        None => q,
    }
}

/// The queues after draining them with nothing new arriving: one delivery for each outcome
/// in turn, stopping as soon as the queues are empty.
pub open spec fn drained(
    q: QueueView,
    max_batch: nat,
    max_attempts: nat,
    max_queue: nat,
    outcomes: Seq<SendOutcome>,
) -> QueueView
    decreases outcomes.len(),
{
    if outcomes.len() == 0 || queued_total(q) == 0 {
        q
    } else {
        drained(
            after_delivery(q, max_batch, max_attempts, max_queue, outcomes[0]),
            max_batch,
            max_attempts,
            max_queue,
            outcomes.drop_first(),
        )
    }
}

/// Draining empties the queues whatever the outcomes of its deliveries: with nothing new
/// arriving, as many deliveries as the waiting entries have attempts left
/// ([`queue_attempts_left`]) leave no entry waiting.
pub proof fn law_drain_empties_queues(
    q: QueueView,
    max_batch: nat,
    max_attempts: nat,
    max_queue: nat,
    outcomes: Seq<SendOutcome>,
)
    requires
        max_batch > 0,
        0 < max_attempts <= usize::MAX,
        attempts_below(q, max_attempts),
        outcomes.len() >= queue_attempts_left(q, max_attempts),
    ensures
        queued_total(drained(q, max_batch, max_attempts, max_queue, outcomes)) == 0,
    decreases outcomes.len(),
{
    lemma_attempts_left_at_least_len(q.batch, max_attempts);
    lemma_attempts_left_at_least_len(q.single, max_attempts);
    if outcomes.len() > 0 && queued_total(q) > 0 {
        law_delivery_makes_progress(q, max_batch, max_attempts, max_queue, outcomes[0]);
        law_drain_empties_queues(
            after_delivery(q, max_batch, max_attempts, max_queue, outcomes[0]),
            max_batch,
            max_attempts,
            max_queue,
            outcomes.drop_first(),
        );
    }
}

/// One thing that happens to the queues: an entry arrives, a delivery is made with the given
/// outcome, or the client is asked to stop.
pub enum QueueStep {
    Arrive(LogEntry),
    Deliver(SendOutcome),
    Stop,
}

/// The queues after one step (see [`enqueued`], [`after_delivery`] and
/// [`TransportState::stop`]).
pub open spec fn stepped(
    q: QueueView,
    step: QueueStep,
    max_batch: nat,
    max_attempts: nat,
    max_queue: nat,
) -> QueueView {
    match step {
        QueueStep::Arrive(entry) => enqueued(q, entry, max_queue),
        QueueStep::Deliver(outcome) => after_delivery(
            q,
            max_batch,
            max_attempts,
            max_queue,
            outcome,
        ),
        QueueStep::Stop => QueueView { stopped: true, ..q },
    }
}

/// The queues after the steps, one after the other.
pub open spec fn run(
    q: QueueView,
    steps: Seq<QueueStep>,
    max_batch: nat,
    max_attempts: nat,
    max_queue: nat,
) -> QueueView
    decreases steps.len(),
{
    if steps.len() == 0 {
        q
    } else {
        run(
            stepped(q, steps[0], max_batch, max_attempts, max_queue),
            steps.drop_first(),
            max_batch,
            max_attempts,
            max_queue,
        )
    }
}

/// Once asked to stop, the queues stay stopped: after any steps the stop flag is set exactly
/// when it was set before or one of the steps was a stop. Arrivals, deliveries and retries
/// leave the flag as it is.
pub proof fn law_stop_is_kept(
    q: QueueView,
    steps: Seq<QueueStep>,
    max_batch: nat,
    max_attempts: nat,
    max_queue: nat,
)
    ensures
        run(q, steps, max_batch, max_attempts, max_queue).stopped == (q.stopped || exists|i: int|
            0 <= i < steps.len() && #[trigger] steps[i] is Stop),
    decreases steps.len(),
{
    if steps.len() > 0 {
        let next = stepped(q, steps[0], max_batch, max_attempts, max_queue);
        let rest = steps.drop_first();
        assert(next.stopped == (q.stopped || steps[0] is Stop));
        law_stop_is_kept(next, rest, max_batch, max_attempts, max_queue);
        if exists|i: int| 0 <= i < steps.len() && #[trigger] steps[i] is Stop {
            let i = choose|i: int| 0 <= i < steps.len() && #[trigger] steps[i] is Stop;
            if i > 0 {
                assert(rest[i - 1] == steps[i]);
            }
        }
        if exists|i: int| 0 <= i < rest.len() && #[trigger] rest[i] is Stop {
            let i = choose|i: int| 0 <= i < rest.len() && #[trigger] rest[i] is Stop;
            assert(steps[i + 1] == rest[i]);
        }
    }
}

} // verus!
