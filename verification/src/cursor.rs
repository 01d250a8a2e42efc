//! The shared cursor: the one piece of engine-owned shared state. It holds
//! the remaining work sequence together with the live-worker counter, and all
//! of the engine's coordination decisions are transitions on it.
//!
//! The callers (the worker threads and the supervisor) serialize every access
//! through a single lock; the cursor itself is the verified state logic that
//! runs under that lock. Its contracts pin down the stop protocol: the source
//! is present exactly until exhaustion, an explicit stop, or a failure, and
//! once cleared it never becomes present again.

use vstd::prelude::*;

verus! {

/// A sequence of work items, pulled one at a time. The engine drives a source
/// only through [`SharedCursor::next`], under the cursor's lock, so an
/// implementation need not be thread safe. Nothing is assumed of an
/// implementation: a source may be infinite, and it may even misbehave by
/// yielding further items after once reporting exhaustion — the cursor never
/// polls it again after the first `None`.
pub trait WorkSource {
    type Item;

    /// Yields the next work item, or `None` when the source is exhausted.
    fn next_item(&mut self) -> Option<Self::Item>;
}

/// The remaining work sequence and the live-worker counter.
///
/// The source is present iff no stop condition (exhaustion, explicit stop, or
/// failure) has occurred yet; every transition below keeps that invariant.
/// The live-worker counter starts at the resolved worker count and only ever
/// decreases, by exactly one per [`SharedCursor::finish_one`] call.
pub struct SharedCursor<S: WorkSource> {
    source: Option<S>,
    live_workers: usize,
}

impl<S: WorkSource> SharedCursor<S> {
    /// Whether the work source is still present, i.e. no stop condition has
    /// occurred yet.
    pub closed spec fn source_present(self) -> bool {
        self.source is Some
    }

    /// The number of workers that have not yet finished.
    pub closed spec fn live(self) -> int {
        self.live_workers as int
    }

    /// Creates the cursor for one engine invocation: the full source is
    /// present and all `worker_count` workers are counted as live.
    pub fn new(source: S, worker_count: usize) -> (cursor: Self)
        requires
            worker_count >= 1,
        ensures
            cursor.source_present(),
            cursor.live() == worker_count,
    {
        SharedCursor { source: Some(source), live_workers: worker_count }
    }

    /// Pulls the next work item, if a source is present and yields one.
    ///
    /// The source stays present exactly as long as items keep coming: on the
    /// first pull that yields nothing the source is cleared, so a
    /// partially-consumed, non-idempotent source is polled at most once past
    /// exhaustion — once the cursor has returned `None` it returns `None`
    /// forever, without touching the source again.
    pub fn next(&mut self) -> (item: Option<S::Item>)
        ensures
            final(self).live() == old(self).live(),
            final(self).source_present() <==> item is Some,
            item is Some ==> old(self).source_present(),
    {
        match &mut self.source {
            None => None,
            Some(source) => {
                let item = source.next_item();
                if item.is_none() {
                    self.source = None;
                }
                item
            },
        }
    }

    /// Requests cooperative cancellation: clears the source so that no
    /// further item is handed out. Idempotent, and safe to call whether or
    /// not a stop condition has already occurred.
    pub fn stop(&mut self)
        ensures
            final(self).live() == old(self).live(),
            !final(self).source_present(),
    {
        self.source = None;
    }

    /// The number of workers still counted as live.
    pub fn live_count(&self) -> (n: usize)
        ensures
            n == self.live(),
    {
        self.live_workers
    }

    /// Records that one worker has finished, decrementing the live-worker
    /// counter. Returns `true` exactly when this call brought the counter to
    /// zero: the caller then — and only then — invokes the completion
    /// callback, after releasing the cursor's lock.
    pub fn finish_one(&mut self) -> (fire: bool)
        requires
            old(self).live() >= 1,
        ensures
            final(self).live() == old(self).live() - 1,
            final(self).source_present() == old(self).source_present(),
            fire <==> final(self).live() == 0,
    {
        self.live_workers = self.live_workers - 1;
        self.live_workers == 0
    }
}

/// One step of the cursor protocol, as the contracts of [`SharedCursor::next`],
/// [`SharedCursor::stop`] and [`SharedCursor::finish_one`] constrain the
/// cursor's two views. `Pull(got)` stands for a `next` call that returned an
/// item (`got == true`) or none.
pub enum CursorStep {
    Pull(bool),
    Stop,
    FinishOne,
}

/// Whether the contracts allow one step to take the cursor from the view
/// state `(present0, live0)` to `(present1, live1)`.
pub open spec fn step_allowed(
    present0: bool,
    live0: int,
    step: CursorStep,
    present1: bool,
    live1: int,
) -> bool {
    match step {
        CursorStep::Pull(got) => (got ==> present0) && (present1 <==> got) && live1 == live0,
        CursorStep::Stop => !present1 && live1 == live0,
        CursorStep::FinishOne => live0 >= 1 && live1 == live0 - 1 && present1 == present0,
    }
}

/// A run of the protocol: `steps[i]` takes the cursor from the view state
/// `(presents[i], lives[i])` to `(presents[i + 1], lives[i + 1])`.
pub open spec fn trace_allowed(presents: Seq<bool>, lives: Seq<int>, steps: Seq<CursorStep>) -> bool {
    &&& presents.len() == steps.len() + 1
    &&& lives.len() == steps.len() + 1
    &&& forall|i: int|
        0 <= i < steps.len() ==> step_allowed(
            presents[i],
            lives[i],
            #[trigger] steps[i],
            presents[i + 1],
            lives[i + 1],
        )
}

/// The cursor's state invariant, over every run of the protocol: the stop is
/// monotonic — once the source is absent it never becomes present again —
/// and the live-worker counter only ever decreases.
pub proof fn lemma_cursor_monotone(
    presents: Seq<bool>,
    lives: Seq<int>,
    steps: Seq<CursorStep>,
    i: int,
    j: int,
)
    requires
        trace_allowed(presents, lives, steps),
        0 <= i <= j <= steps.len(),
    ensures
        !presents[i] ==> !presents[j],
        lives[j] <= lives[i],
    decreases j - i,
{
    if i < j {
        assert(step_allowed(presents[i], lives[i], steps[i], presents[i + 1], lives[i + 1]));
        lemma_cursor_monotone(presents, lives, steps, i + 1, j);
    }
}

/// Cooperative cancellation takes hold: after any stop, no later pull in the
/// run yields an item, so a worker completes at most the item it already
/// holds and then winds down.
pub proof fn lemma_no_item_after_stop(
    presents: Seq<bool>,
    lives: Seq<int>,
    steps: Seq<CursorStep>,
    i: int,
    j: int,
)
    requires
        trace_allowed(presents, lives, steps),
        0 <= i < j < steps.len(),
        steps[i] is Stop,
    ensures
        steps[j] matches CursorStep::Pull(got) ==> !got,
{
    assert(step_allowed(presents[i], lives[i], steps[i], presents[i + 1], lives[i + 1]));
    lemma_cursor_monotone(presents, lives, steps, i + 1, j);
    assert(step_allowed(presents[j], lives[j], steps[j], presents[j + 1], lives[j + 1]));
}

/// The live-worker counter after `i` of the `n` cleanup calls, given that it
/// starts at `n` and that each call decrements it by one (the contract of
/// [`SharedCursor::finish_one`]).
proof fn lemma_live_counter_linear(lives: Seq<int>, n: int, i: int)
    requires
        n >= 1,
        lives.len() == n + 1,
        lives[0] == n,
        forall|j: int| 0 <= j < n ==> lives[j + 1] == #[trigger] lives[j] - 1,
        0 <= i <= n,
    ensures
        lives[i] == n - i,
    decreases i,
{
    if i > 0 {
        lemma_live_counter_linear(lives, n, i - 1);
    }
}

/// Exactly-once completion: over any run with `n >= 1` workers, each of whose
/// cleanups decrements the live-worker counter by one (the contract of
/// [`SharedCursor::finish_one`]), exactly one cleanup call observes the
/// counter reach zero — so the completion callback fires exactly once, from
/// the last worker to finish. `lives[j]` is the counter value before the
/// `j`-th cleanup call.
pub proof fn lemma_completion_fires_exactly_once(lives: Seq<int>, n: int)
    requires
        n >= 1,
        lives.len() == n + 1,
        lives[0] == n,
        forall|j: int| 0 <= j < n ==> lives[j + 1] == #[trigger] lives[j] - 1,
    ensures
        exists|j: int| 0 <= j < n && #[trigger] lives[j + 1] == 0,
        forall|j1: int, j2: int|
            0 <= j1 < n && 0 <= j2 < n && #[trigger] lives[j1 + 1] == 0 && #[trigger] lives[j2
                + 1] == 0 ==> j1 == j2,
{
    assert forall|i: int| 0 <= i <= n implies #[trigger] lives[i] == n - i by {
        lemma_live_counter_linear(lives, n, i);
    }
    assert(lives[(n - 1) + 1] == 0);
}

} // verus!
