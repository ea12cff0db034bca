use vstd::prelude::*;
use vstd::rwlock::{RwLock, RwLockPredicate};
use std::sync::atomic::{AtomicUsize, Ordering};
use std::sync::Arc;

verus! {

/// A worker pushes its buffered counts into the shared tally once its local
/// `done` count exceeds this, bounding contention on the shared counters.
pub const FLUSH_THRESHOLD: usize = 50;

/// Counts as `(done, successes, failures)`.
pub open spec fn counts_plus(a: (int, int, int), b: (int, int, int)) -> (int, int, int) {
    (a.0 + b.0, a.1 + b.1, a.2 + b.2)
}

/// The counts after one more job, which succeeded or not.
pub open spec fn counts_bump(c: (int, int, int), succeeded: bool) -> (int, int, int) {
    if succeeded {
        (c.0 + 1, c.1 + 1, c.2)
    } else {
        (c.0 + 1, c.1, c.2 + 1)
    }
}

/// One job recorded into a worker's local counts `c`: the new local counts,
/// and the counts to flush into the shared tally, if any. Once `done`
/// exceeds `threshold` everything is flushed and the local counts restart
/// from zero.
pub open spec fn record_model(c: (int, int, int), succeeded: bool, threshold: int) -> (
    (int, int, int),
    Option<(int, int, int)>,
) {
    let n = counts_bump(c, succeeded);
    if n.0 > threshold {
        ((0, 0, 0), Some(n))
    } else {
        (n, None)
    }
}

/// A worker's run over its jobs' outcomes from local counts `c`: the local
/// counts left at the end, and the sum of what was flushed on the way.
pub open spec fn replay(c: (int, int, int), outcomes: Seq<bool>, threshold: int) -> (
    (int, int, int),
    (int, int, int),
)
    decreases outcomes.len(),
{
    if outcomes.len() == 0 {
        (c, (0, 0, 0))
    } else {
        let (next, flushed) = record_model(c, outcomes[0], threshold);
        let (last, rest) = replay(next, outcomes.drop_first(), threshold);
        let now = match flushed {
            Some(f) => f,
            None => (0, 0, 0),
        };
        (last, counts_plus(now, rest))
    }
}

/// All that one worker adds to the shared tally: its flushes on the way and
/// the final flush of what is left when its queue runs dry.
pub open spec fn worker_contribution(outcomes: Seq<bool>, threshold: int) -> (int, int, int) {
    let (last, flushed) = replay((0, 0, 0), outcomes, threshold);
    counts_plus(flushed, last)
}

/// What all workers add to the shared tally, each over its own jobs.
pub open spec fn batch_contribution(workers: Seq<Seq<bool>>, threshold: int) -> (int, int, int)
    decreases workers.len(),
{
    if workers.len() == 0 {
        (0, 0, 0)
    } else {
        counts_plus(
            worker_contribution(workers[0], threshold),
            batch_contribution(workers.drop_first(), threshold),
        )
    }
}

/// The true counts of a sequence of outcomes.
pub open spec fn outcome_counts(outcomes: Seq<bool>) -> (int, int, int)
    decreases outcomes.len(),
{
    if outcomes.len() == 0 {
        (0, 0, 0)
    } else {
        counts_bump(outcome_counts(outcomes.drop_first()), outcomes[0])
    }
}

/// The true counts of all the workers' outcomes together.
pub open spec fn batch_counts(workers: Seq<Seq<bool>>) -> (int, int, int)
    decreases workers.len(),
{
    if workers.len() == 0 {
        (0, 0, 0)
    } else {
        counts_plus(outcome_counts(workers[0]), batch_counts(workers.drop_first()))
    }
}

/// The number of jobs in a batch split among workers.
pub open spec fn batch_jobs(workers: Seq<Seq<bool>>) -> int
    decreases workers.len(),
{
    if workers.len() == 0 {
        0
    } else {
        workers[0].len() + batch_jobs(workers.drop_first())
    }
}

proof fn lemma_outcome_counts(outcomes: Seq<bool>)
    ensures
        outcome_counts(outcomes).0 == outcomes.len(),
        outcome_counts(outcomes).1 + outcome_counts(outcomes).2 == outcomes.len(),
        outcome_counts(outcomes).1 >= 0,
        outcome_counts(outcomes).2 >= 0,
    decreases outcomes.len(),
{
    if outcomes.len() > 0 {
        lemma_outcome_counts(outcomes.drop_first());
    }
}

proof fn lemma_replay_accounts(c: (int, int, int), outcomes: Seq<bool>, threshold: int)
    ensures
        counts_plus(replay(c, outcomes, threshold).1, replay(c, outcomes, threshold).0)
            == counts_plus(c, outcome_counts(outcomes)),
    decreases outcomes.len(),
{
    if outcomes.len() > 0 {
        let (next, flushed) = record_model(c, outcomes[0], threshold);
        lemma_replay_accounts(next, outcomes.drop_first(), threshold);
    }
}

/// Whatever the flush threshold, the counts that one worker adds to the
/// shared tally are exactly the counts of the jobs it ran.
pub proof fn lemma_worker_accounts(outcomes: Seq<bool>, threshold: int)
    ensures
        worker_contribution(outcomes, threshold) == outcome_counts(outcomes),
{
    lemma_replay_accounts((0, 0, 0), outcomes, threshold);
}

/// Whatever the number of workers, the way the jobs are split among them and
/// the flush threshold, the final tally of a batch of N jobs has
/// `successes + failures == N == done`, with `successes` the number of jobs
/// that succeeded.
pub proof fn lemma_batch_tally_complete(workers: Seq<Seq<bool>>, threshold: int)
    ensures
        batch_contribution(workers, threshold) == batch_counts(workers),
        batch_counts(workers).0 == batch_jobs(workers),
        batch_counts(workers).1 + batch_counts(workers).2 == batch_jobs(workers),
    decreases workers.len(),
{
    if workers.len() > 0 {
        lemma_worker_accounts(workers[0], threshold);
        lemma_outcome_counts(workers[0]);
        lemma_batch_tally_complete(workers.drop_first(), threshold);
    }
}

proof fn lemma_counts_concat(x: Seq<bool>, y: Seq<bool>)
    ensures
        outcome_counts(x + y) == counts_plus(outcome_counts(x), outcome_counts(y)),
    decreases x.len(),
{
    if x.len() == 0 {
        assert(x + y =~= y);
    } else {
        assert((x + y).drop_first() =~= x.drop_first() + y);
        lemma_counts_concat(x.drop_first(), y);
    }
}

proof fn lemma_counts_multiset(s: Seq<bool>)
    ensures
        outcome_counts(s) == (
            s.len() as int,
            s.to_multiset().count(true) as int,
            s.to_multiset().count(false) as int,
        ),
    decreases s.len(),
{
    broadcast use vstd::seq_lib::group_to_multiset_ensures;
    broadcast use vstd::multiset::group_multiset_axioms;

    if s.len() == 0 {
        assert(!s.contains(true));
        assert(!s.contains(false));
    } else {
        let rest = s.drop_first();
        lemma_counts_multiset(rest);
        assert(s =~= seq![s[0]] + rest);
        vstd::seq_lib::lemma_multiset_commutative(seq![s[0]], rest);
        assert(seq![s[0]] =~= Seq::<bool>::empty().push(s[0]));
        assert(!Seq::<bool>::empty().contains(true));
        assert(!Seq::<bool>::empty().contains(false));
    }
}

proof fn lemma_batch_counts_flatten(workers: Seq<Seq<bool>>)
    ensures
        batch_counts(workers) == outcome_counts(workers.flatten()),
    decreases workers.len(),
{
    if workers.len() > 0 {
        lemma_batch_counts_flatten(workers.drop_first());
        lemma_counts_concat(workers[0], workers.drop_first().flatten());
    }
}

/// Running the same jobs split in any way among any number of workers, with
/// any flush thresholds, gives the same final tally: it depends only on the
/// outcomes of the jobs, not on their order or on who ran them.
pub proof fn lemma_tally_independent_of_split(
    a: Seq<Seq<bool>>,
    b: Seq<Seq<bool>>,
    threshold_a: int,
    threshold_b: int,
)
    requires
        a.flatten().to_multiset() == b.flatten().to_multiset(),
    ensures
        batch_contribution(a, threshold_a) == batch_contribution(b, threshold_b),
{
    broadcast use vstd::seq_lib::group_to_multiset_ensures;

    lemma_batch_tally_complete(a, threshold_a);
    lemma_batch_tally_complete(b, threshold_b);
    lemma_batch_counts_flatten(a);
    lemma_batch_counts_flatten(b);
    lemma_counts_multiset(a.flatten());
    lemma_counts_multiset(b.flatten());
}

/// Progress counts buffered by one worker between flushes.
#[derive(Debug, Clone, Copy, PartialEq, Eq, Structural)]
pub struct LocalExtractionProgress {
    pub done: usize,
    pub successes: usize,
    pub failures: usize,
}

impl View for LocalExtractionProgress {
    type V = (int, int, int);

    open spec fn view(&self) -> (int, int, int) {
        (self.done as int, self.successes as int, self.failures as int)
    }
}

impl LocalExtractionProgress {
    /// The counts are consistent and at most one threshold's worth of jobs
    /// is buffered.
    pub open spec fn wf(self) -> bool {
        self.successes + self.failures == self.done && self.done <= FLUSH_THRESHOLD
    }

    pub fn new() -> (r: LocalExtractionProgress)
        ensures
            r@ == (0int, 0int, 0int),
            r.wf(),
    {
        LocalExtractionProgress { done: 0, successes: 0, failures: 0 }
    }

    /// Records one finished job. Once `done` exceeds the flush threshold the
    /// buffered counts are handed back for flushing and restart from zero.
    pub fn record(&mut self, succeeded: bool) -> (flush: Option<LocalExtractionProgress>)
        requires
            old(self).wf(),
        ensures
            final(self).wf(),
            final(self)@ == record_model(old(self)@, succeeded, FLUSH_THRESHOLD as int).0,
            match record_model(old(self)@, succeeded, FLUSH_THRESHOLD as int).1 {
                Some(c) => flush matches Some(f) && f@ == c && f.successes + f.failures == f.done,
                None => flush is None,
            },
    {
        self.done = self.done + 1;
        if succeeded {
            self.successes = self.successes + 1;
        } else {
            self.failures = self.failures + 1;
        }
        if self.done > FLUSH_THRESHOLD {
            let full = *self;
            *self = LocalExtractionProgress::new();
            Some(full)
        } else {
            None
        }
    }

    /// Hands back what is buffered, for the final flush, and restarts from
    /// zero.
    pub fn take(&mut self) -> (r: LocalExtractionProgress)
        ensures
            r == *old(self),
            final(self)@ == (0int, 0int, 0int),
            final(self).wf(),
    {
        let r = *self;
        *self = LocalExtractionProgress::new();
        r
    }
}

/// The error log's lock holds any list of messages.
pub struct ErrorLogInv;

impl RwLockPredicate<Vec<String>> for ErrorLogInv {
    open spec fn inv(self, v: Vec<String>) -> bool {
        true
    }
}

/// A copy of the in-flight progress, for polling.
#[derive(Debug, Clone)]
pub struct ProgressSnapshot {
    pub done: usize,
    pub errors: Vec<String>,
}

/// The tally of a finished batch.
#[derive(Debug, Clone)]
pub struct BatchSummary {
    pub success: usize,
    pub failed: usize,
    pub errors: Vec<String>,
    pub total: usize,
}

/// The progress of the running or most recent batch, shared by every worker
/// and by the polling path: counters updated by atomic adds and an error log
/// behind a lock. Cloning shares the same state.
pub struct ExtractionProgress {
    done: Arc<AtomicUsize>,
    errors: Arc<RwLock<Vec<String>, ErrorLogInv>>,
    successes: Arc<AtomicUsize>,
    failures: Arc<AtomicUsize>,
}

impl ExtractionProgress {
    /// Zeroed counters and an empty error log.
    pub fn new() -> (r: ExtractionProgress) {
        let log = RwLock::new(Vec::new(), Ghost(ErrorLogInv));
        ExtractionProgress {
            done: Arc::new(AtomicUsize::new(0)),
            errors: Arc::new(log),
            successes: Arc::new(AtomicUsize::new(0)),
            failures: Arc::new(AtomicUsize::new(0)),
        }
    }

    /// Another handle on the same shared state.
    pub fn clone(&self) -> (r: ExtractionProgress)
        ensures
            r == *self,
    {
        ExtractionProgress {
            done: Arc::clone(&self.done),
            errors: Arc::clone(&self.errors),
            successes: Arc::clone(&self.successes),
            failures: Arc::clone(&self.failures),
        }
    }

    /// Adds a worker's buffered counts into the shared counters, `done`
    /// first, each by one atomic add.
    pub fn flush(&self, local: LocalExtractionProgress) {
        self.done.fetch_add(local.done, Ordering::SeqCst);
        self.successes.fetch_add(local.successes, Ordering::SeqCst);
        self.failures.fetch_add(local.failures, Ordering::SeqCst);
    }

    /// Accounts for one finished job of a worker: a failure's message goes
    /// to the error log, the outcome into the worker's buffered counts, and
    /// those counts into the shared counters once they pass the threshold.
    pub fn complete_job(&self, local: &mut LocalExtractionProgress, outcome: Result<(), String>)
        requires
            old(local).wf(),
        ensures
            final(local).wf(),
            final(local)@ == record_model(old(local)@, outcome is Ok, FLUSH_THRESHOLD as int).0,
    {
        let succeeded = match outcome {
            Ok(()) => true,
            Err(message) => {
                self.record_error(message);
                false
            },
        };
        if let Some(full) = local.record(succeeded) {
            self.flush(full);
        }
    }

    /// The final flush of a worker whose queue has run dry.
    pub fn finish_worker(&self, local: &mut LocalExtractionProgress)
        ensures
            final(local)@ == (0int, 0int, 0int),
            final(local).wf(),
    {
        let rest = local.take();
        self.flush(rest);
    }

    /// Appends one message to the error log; the lock is held for the append
    /// alone.
    pub fn record_error(&self, message: String) {
        let (mut log, handle) = self.errors.acquire_write();
        log.push(message);
        handle.release_write(log);
    }

    fn error_list(&self) -> Vec<String> {
        let handle = self.errors.acquire_read();
        let list = handle.borrow().clone();
        handle.release_read();
        list
    }

    /// The jobs completed so far and a copy of the error log, readable while
    /// workers are running.
    pub fn snapshot(&self) -> (r: ProgressSnapshot) {
        let done = self.done.load(Ordering::SeqCst);
        ProgressSnapshot { done, errors: self.error_list() }
    }

    /// The tally once all workers of a batch of `total` jobs have finished.
    pub fn summary(&self, total: usize) -> (r: BatchSummary)
        ensures
            r.total == total,
    {
        let failed = self.failures.load(Ordering::SeqCst);
        let success = self.successes.load(Ordering::SeqCst);
        BatchSummary { success, failed, errors: self.error_list(), total }
    }

    /// Zeroes the counters and clears the error log. Only to be called once
    /// every worker of the previous batch has finished.
    pub fn reset(&self) {
        self.done.store(0, Ordering::SeqCst);
        self.successes.store(0, Ordering::SeqCst);
        self.failures.store(0, Ordering::SeqCst);
        let (mut log, handle) = self.errors.acquire_write();
        log.clear();
        handle.release_write(log);
    }
}

} // verus!
