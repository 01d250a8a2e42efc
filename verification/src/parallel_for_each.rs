//! Public configuration surface of the engine and the outcome aggregation
//! rules: how a worker-count policy resolves to a concrete thread count, and
//! how per-worker results, the supervisor's result and panics combine into the
//! one value the engine returns.

use vstd::prelude::*;
use vstd::string::StringExecFns;

verus! {

/// Signal returned by the supervisor routine: `Continue` lets the workers
/// drain the sequence, `Stop` requests cooperative cancellation.
#[must_use]
#[derive(Copy, Clone, Debug)]
pub enum Continue {
    Continue,
    Stop,
}

/// Worker-count policy: `Auto` resolves to the host's logical parallelism,
/// `Manual(n)` to exactly `n` threads. `n` must be positive.
#[derive(Copy, Clone, Debug)]
pub enum WorkerCount {
    Auto,
    Manual(usize),
}

impl WorkerCount {
    /// A policy is well formed when a manual count is positive; the engine
    /// always runs at least one worker.
    pub open spec fn wf(self) -> bool {
        match self {
            WorkerCount::Auto => true,
            WorkerCount::Manual(n) => n >= 1,
        }
    }
}

/// Relies on `num_cpus::get`: the number of logical CPUs available to the
/// process, documented to always be at least 1.
#[verifier::external_body]
fn logical_cpu_count() -> (n: usize)
    ensures
        n >= 1,
{
    num_cpus::get()
}

/// Resolves a worker-count policy into the concrete number of threads to
/// spawn: a manual count is taken as given, `Auto` asks the host for its
/// logical parallelism. The result is always positive.
pub fn resolve_worker_count(worker_count: WorkerCount) -> (n: usize)
    requires
        worker_count.wf(),
    ensures
        n >= 1,
        worker_count matches WorkerCount::Manual(m) ==> n == m,
{
    match worker_count {
        WorkerCount::Auto => logical_cpu_count(),
        WorkerCount::Manual(n) => n,
    }
}

/// The engine's result on failure: one tag per place a caller-supplied
/// function can fail, each carrying the original causal error value.
#[derive(Debug)]
pub enum ParallelForEachError<Ei, Ew, Eb> {
    InitTaskError { source: Ei },
    WorkerTaskError { source: Ew },
    BackgroundTaskError { source: Eb },
}

impl<Ei, Ew, Eb> ParallelForEachError<Ei, Ew, Eb> {
    /// A short description of which task failed; the causal error itself is
    /// in the variant's `source` field.
    pub fn message(&self) -> (r: String)
        ensures
            *self is InitTaskError ==> r@ == "Init task failed"@,
            *self is WorkerTaskError ==> r@ == "Worker task failed"@,
            *self is BackgroundTaskError ==> r@ == "Background task failed"@,
    {
        match self {
            ParallelForEachError::InitTaskError { .. } => String::from_str("Init task failed"),
            ParallelForEachError::WorkerTaskError { .. } => String::from_str("Worker task failed"),
            ParallelForEachError::BackgroundTaskError { .. } => String::from_str(
                "Background task failed",
            ),
        }
    }
}

/// How one worker thread ended, short of panicking: normal exhaustion of the
/// source, a failed per-worker initialization, or a failed work call.
#[derive(Debug)]
pub enum WorkerOutcome<Ei, Ew> {
    Completed,
    InitFailed(Ei),
    WorkFailed(Ew),
}

impl<Ei, Ew> WorkerOutcome<Ei, Ew> {
    /// Whether the worker ran to a normal end, with no failure of its own.
    pub fn is_completed(&self) -> (r: bool)
        ensures
            r <==> *self is Completed,
    {
        match self {
            WorkerOutcome::Completed => true,
            _ => false,
        }
    }
}

/// The failure a worker outcome surfaces as: an init failure keeps its tag
/// and error, a work failure likewise. Meaningful only for a non-completed
/// outcome.
pub open spec fn worker_failure_error<Ei, Ew, Eb>(outcome: WorkerOutcome<Ei, Ew>) -> ParallelForEachError<
    Ei,
    Ew,
    Eb,
> {
    match outcome {
        WorkerOutcome::InitFailed(source) => ParallelForEachError::InitTaskError { source },
        WorkerOutcome::WorkFailed(source) => ParallelForEachError::WorkerTaskError { source },
        WorkerOutcome::Completed => arbitrary(),
    }
}

/// Every worker ran to a normal end.
pub open spec fn all_workers_completed<Ei, Ew>(outcomes: Seq<WorkerOutcome<Ei, Ew>>) -> bool {
    forall|i: int| 0 <= i < outcomes.len() ==> (#[trigger] outcomes[i]) is Completed
}

/// `i` is the position of the first failed worker, in spawn order.
pub open spec fn first_failure_at<Ei, Ew>(outcomes: Seq<WorkerOutcome<Ei, Ew>>, i: int) -> bool {
    &&& 0 <= i < outcomes.len()
    &&& !((outcomes[i]) is Completed)
    &&& forall|j: int| 0 <= j < i ==> (#[trigger] outcomes[j]) is Completed
}

/// The supervisor's verdict decides whether the cursor is stopped before the
/// join phase: any result other than `Ok(Continue)` — an explicit stop
/// request or an error — halts further pulls.
pub fn supervisor_requests_stop<Eb>(supervisor: &Result<Continue, Eb>) -> (stop: bool)
    ensures
        stop <==> !(*supervisor matches Ok(Continue::Continue)),
{
    match supervisor {
        Ok(Continue::Continue) => false,
        _ => true,
    }
}

/// Resolves the per-worker outcomes and the supervisor's result into the
/// engine's final result, once no panic is left in play.
///
/// The precedence is fixed so behavior is deterministic and reproducible: a
/// supervisor error is returned first (the engine's caller saw it on the
/// calling thread, ahead of any join); otherwise the first failure in worker
/// spawn order is returned, tagged and carrying the original error value;
/// otherwise the run succeeded.
pub fn aggregate_outcomes<Ei, Ew, Eb>(
    outcomes: Vec<WorkerOutcome<Ei, Ew>>,
    supervisor: Result<Continue, Eb>,
) -> (r: Result<(), ParallelForEachError<Ei, Ew, Eb>>)
    ensures
        supervisor matches Err(source) ==> r == Result::<(), ParallelForEachError<Ei, Ew, Eb>>::Err(
            ParallelForEachError::BackgroundTaskError { source },
        ),
        supervisor is Ok && all_workers_completed(outcomes@) ==> r is Ok,
        supervisor is Ok ==> forall|i: int|
            #[trigger] first_failure_at(outcomes@, i) ==> r == Result::<
                (),
                ParallelForEachError<Ei, Ew, Eb>,
            >::Err(worker_failure_error(outcomes@[i])),
{
    let mut remaining = outcomes;
    match supervisor {
        Err(source) => Err(ParallelForEachError::BackgroundTaskError { source }),
        Ok(_) => {
            let n = remaining.len();
            let mut i: usize = 0;
            while i < n && remaining[i].is_completed()
                invariant
                    i <= n,
                    n == remaining@.len(),
                    forall|j: int| 0 <= j < i ==> (#[trigger] remaining@[j]) is Completed,
                decreases n - i,
            {
                i = i + 1;
            }
            if i == n {
                Ok(())
            } else {
                let failed = remaining.remove(i);
                match failed {
                    WorkerOutcome::InitFailed(source) => Err(
                        ParallelForEachError::InitTaskError { source },
                    ),
                    WorkerOutcome::WorkFailed(source) => Err(
                        ParallelForEachError::WorkerTaskError { source },
                    ),
                    WorkerOutcome::Completed => {
                        proof {
                            assert(false);
                        }
                        Ok(())
                    },
                }
            }
        },
    }
}

/// How one worker thread's join ended: either the thread ran to an outcome,
/// or it unwound with a panic whose payload the joiner now holds.
#[derive(Copy, Clone, Debug)]
pub enum JoinStatus {
    Finished,
    Panicked,
}

/// Panic precedence: any worker panic takes priority over every returned
/// error, and among panicked workers the first in spawn order is the one
/// whose payload is re-raised. Returns that worker's position, or `None`
/// when no worker panicked and the outcomes may be aggregated normally.
pub fn first_panicked(statuses: &Vec<JoinStatus>) -> (r: Option<usize>)
    ensures
        r is None ==> forall|i: int|
            0 <= i < statuses@.len() ==> !((#[trigger] statuses@[i]) is Panicked),
        r matches Some(p) ==> p < statuses@.len() && statuses@[p as int] is Panicked && forall|
            j: int,
        | 0 <= j < p ==> !((#[trigger] statuses@[j]) is Panicked),
{
    let n = statuses.len();
    let mut i: usize = 0;
    while i < n
        invariant
            i <= n,
            n == statuses@.len(),
            forall|j: int| 0 <= j < i ==> !((#[trigger] statuses@[j]) is Panicked),
        decreases n - i,
    {
        match statuses[i] {
            JoinStatus::Panicked => {
                return Some(i);
            },
            JoinStatus::Finished => {
                i = i + 1;
            },
        }
    }
    None
}

} // verus!
