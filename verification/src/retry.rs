//! Retry/timeout policies.
//!
//! On bare metal there is no blocking wait: every "wait" is a busy-retry loop.
//! A policy value is reusable configuration; `start` hands out a fresh
//! instance that carries the progress of one wait (an attempt count, or a tick
//! baseline).  An instance answers `timeout()` — consuming one attempt and
//! telling whether the budget is spent — and offers `restart()` to reset its
//! progress and `interval()` as a scheduling hint between attempts.
//!
//! Every instance carries a `fuel` measure that strictly shrinks on each
//! `timeout()` answering `false`, so a retry loop that stops on `true` always
//! terminates.

use vstd::prelude::*;

verus! {

/// The progress tracker of one wait.
///
/// `step_ok` is the transition relation of `timeout()`: which successor states
/// and which answers one call may produce.  Deterministic policies pin both
/// down exactly; a policy that consults a hardware clock leaves the answer
/// open and promises only what holds of every outcome.
pub trait TimeoutInstance: Sized {
    /// Upper bound on the number of `false` answers still possible.
    spec fn fuel(&self) -> nat;

    /// The transition relation of one `timeout()` call.
    spec fn step_ok(&self, post: Self, timed_out: bool) -> bool;

    /// The transition relation of `restart()`.
    spec fn restart_ok(&self, post: Self) -> bool;

    /// Consumes one attempt; true means the budget is spent.
    fn timeout(&mut self) -> (r: bool)
        ensures
            old(self).step_ok(*final(self), r),
            !r ==> final(self).fuel() < old(self).fuel(),
    ;

    /// Resets the progress without re-deriving the configuration.
    fn restart(&mut self)
        ensures
            old(self).restart_ok(*final(self)),
    ;

    /// A scheduling hint between attempts; on this target a no-op.
    fn interval(&mut self)
        ensures
            *final(self) == *old(self),
    ;
}

/// Reusable wait configuration; `start` produces one independent instance per
/// wait, so a single policy value serves many calls without reset races.
pub trait Timeout: Sized {
    type Instance: TimeoutInstance;

    /// Which instances `start` may hand out.
    spec fn fresh_ok(&self, inst: Self::Instance) -> bool;

    /// Begins one wait.
    fn start(&self) -> (r: Self::Instance)
        ensures
            self.fresh_ok(r),
    ;
}

/// Every adjacent pair of `tr` is a `timeout()` transition that answered
/// `false`.
pub open spec fn failing_steps<I: TimeoutInstance>(tr: Seq<I>) -> bool {
    forall|i: int| 0 <= i < tr.len() - 1 ==> tr[i].step_ok(#[trigger] tr[i + 1], false)
}

/// `tr` is the full history of one wait under policy `p` that ended in a
/// timeout: it starts at a fresh instance, every recorded `timeout()` call
/// answered `false`, and from the last state one more call answered `true`.
pub open spec fn timed_out_run<P: Timeout>(p: P, tr: Seq<P::Instance>) -> bool {
    &&& tr.len() >= 1
    &&& p.fresh_ok(tr[0])
    &&& failing_steps(tr)
    &&& exists|post: P::Instance| tr.last().step_ok(post, true)
}

/// Extending a failing history by one more failing step keeps it a failing
/// history.
pub proof fn lemma_failing_push<I: TimeoutInstance>(tr: Seq<I>, next: I)
    requires
        tr.len() >= 1,
        failing_steps(tr),
        tr.last().step_ok(next, false),
    ensures
        failing_steps(tr.push(next)),
        tr.push(next).last() == next,
        tr.push(next)[0] == tr[0],
        tr.push(next).len() == tr.len() + 1,
{
    let p = tr.push(next);
    assert forall|i: int| 0 <= i < p.len() - 1 implies p[i].step_ok(#[trigger] p[i + 1], false) by {
        if i < tr.len() - 1 {
            assert(tr[i].step_ok(tr[i + 1], false));
            assert(p[i] == tr[i]);
            assert(p[i + 1] == tr[i + 1]);
        } else {
            assert(i == tr.len() - 1);
            assert(p[i] == tr[i]);
            assert(tr[i] == tr.last());
            assert(p[i + 1] == next);
        }
    }
}

// Bounded retry -------------------------------------------------------------

/// Bounded-retry policy: allow exactly `times` failing attempts, then time
/// out.
#[derive(Clone, Copy, Debug, PartialEq, Eq, Structural)]
pub struct RetryTimes {
    pub times: u32,
}

impl RetryTimes {
    pub fn new(times: u32) -> (r: RetryTimes)
        ensures
            r.times == times,
    {
        RetryTimes { times }
    }
}

/// Progress of one bounded-retry wait: how many attempts were consumed.
#[derive(Clone, Copy, Debug, PartialEq, Eq, Structural)]
pub struct RetryInstance {
    pub times: u32,
    pub used: u32,
}

impl TimeoutInstance for RetryInstance {
    open spec fn fuel(&self) -> nat {
        if self.used <= self.times {
            (self.times - self.used) as nat
        } else {
            0
        }
    }

    open spec fn step_ok(&self, post: Self, timed_out: bool) -> bool {
        &&& timed_out == (self.used >= self.times)
        &&& if timed_out {
            post == *self
        } else {
            post.times == self.times && post.used == self.used + 1
        }
    }

    open spec fn restart_ok(&self, post: Self) -> bool {
        post.times == self.times && post.used == 0
    }

    /// Answers `false` for the first `times` calls after a start or restart
    /// and `true` from then on.
    fn timeout(&mut self) -> (r: bool)
        ensures
            old(self).step_ok(*final(self), r),
            !r ==> final(self).fuel() < old(self).fuel(),
            r == (old(self).used >= old(self).times),
    {
        if self.used >= self.times {
            true
        } else {
            self.used = self.used + 1;
            false
        }
    }

    /// Resets the attempt count to zero.
    fn restart(&mut self)
        ensures
            old(self).restart_ok(*final(self)),
            final(self).times == old(self).times,
            final(self).used == 0,
    {
        self.used = 0;
    }

    fn interval(&mut self)
        ensures
            *final(self) == *old(self),
    {
    }
}

impl Timeout for RetryTimes {
    type Instance = RetryInstance;

    open spec fn fresh_ok(&self, inst: RetryInstance) -> bool {
        inst.times == self.times && inst.used == 0
    }

    fn start(&self) -> (r: RetryInstance)
        ensures
            self.fresh_ok(r),
            r.times == self.times,
            r.used == 0,
    {
        RetryInstance { times: self.times, used: 0 }
    }
}

/// In a bounded run every state carries its own index as the attempt count.
proof fn lemma_retry_used_is_index(p: RetryTimes, tr: Seq<RetryInstance>, i: int)
    requires
        p.fresh_ok(tr[0]),
        failing_steps(tr),
        0 <= i < tr.len(),
    ensures
        tr[i].used == i,
        tr[i].times == p.times,
    decreases i,
{
    if i > 0 {
        let j = i - 1;
        lemma_retry_used_is_index(p, tr, j);
        assert(tr[j].step_ok(tr[j + 1], false));
    }
}

/// A wait under a bounded-retry policy with bound `B` times out after exactly
/// `B` failing `timeout()` calls — never earlier, never later: every run that
/// ends in a timeout has length `B + 1`.
pub proof fn lemma_retry_run_length(p: RetryTimes, tr: Seq<RetryInstance>)
    requires
        timed_out_run(p, tr),
    ensures
        tr.len() == p.times + 1,
{
    let k = tr.len() - 1;
    lemma_retry_used_is_index(p, tr, k);
    let post = choose|post: RetryInstance| tr.last().step_ok(post, true);
    assert(tr[k].used >= tr[k].times);
    if k > p.times {
        lemma_retry_used_is_index(p, tr, p.times as int);
        assert(tr[p.times as int].step_ok(tr[p.times as int + 1], false));
    }
}

// Unconditional -------------------------------------------------------------

/// Unconditional policy: `timeout()` answers `true` at once, for callers that
/// want at most one try and no retry loop.
#[derive(Clone, Copy, Debug, PartialEq, Eq, Structural)]
pub struct NoRetry;

/// Progress of an unconditional wait; it has none.
#[derive(Clone, Copy, Debug, PartialEq, Eq, Structural)]
pub struct NoRetryInstance;

impl TimeoutInstance for NoRetryInstance {
    open spec fn fuel(&self) -> nat {
        0
    }

    open spec fn step_ok(&self, post: Self, timed_out: bool) -> bool {
        timed_out && post == *self
    }

    open spec fn restart_ok(&self, post: Self) -> bool {
        post == *self
    }

    fn timeout(&mut self) -> (r: bool)
        ensures
            old(self).step_ok(*final(self), r),
            !r ==> final(self).fuel() < old(self).fuel(),
            r,
    {
        true
    }

    fn restart(&mut self)
        ensures
            old(self).restart_ok(*final(self)),
    {
    }

    fn interval(&mut self)
        ensures
            *final(self) == *old(self),
    {
    }
}

impl Timeout for NoRetry {
    type Instance = NoRetryInstance;

    open spec fn fresh_ok(&self, inst: NoRetryInstance) -> bool {
        true
    }

    fn start(&self) -> (r: NoRetryInstance)
        ensures
            self.fresh_ok(r),
    {
        NoRetryInstance
    }
}

// Tick window ---------------------------------------------------------------

/// A free-running down-counter, as the hardware presents it: `now` is the
/// current count, always at most the reload value from which the counter
/// restarts after reaching zero.
pub trait TickCounter: Sized {
    /// The reload value the counter was configured with.
    spec fn reload_spec(&self) -> u32;

    fn reload(&self) -> (r: u32)
        ensures
            r == self.reload_spec(),
    ;

    /// Reads the current count.  What comes back depends on time alone;
    /// nothing more than the range can be promised.
    fn now(&mut self) -> (r: u32)
        ensures
            r <= old(self).reload_spec(),
            final(self).reload_spec() == old(self).reload_spec(),
    ;
}

/// Ticks elapsed on a down-counter between a `baseline` reading and a later
/// `current` reading, tolerant of one wraparound: the counter counts down
/// from `reload`, so the distance is `baseline - current` until the counter
/// wraps, and `baseline + (reload - current)` after it has.
pub fn elapsed_ticks(baseline: u32, current: u32, reload: u32) -> (r: u32)
    requires
        baseline <= reload,
        current <= reload,
    ensures
        r == (if current <= baseline {
            baseline - current
        } else {
            baseline + (reload - current)
        }),
{
    if current <= baseline {
        baseline - current
    } else {
        baseline + (reload - current)
    }
}

/// Tick-window policy: a wait times out once `window` ticks have elapsed on
/// the clock, or — as a safeguard against a stalled clock — after `poll_cap`
/// polls.
#[derive(Clone, Copy, Debug)]
pub struct TickWindow<C> {
    pub window: u32,
    pub poll_cap: u32,
    pub clock: C,
}

impl<C: TickCounter + Copy> TickWindow<C> {
    pub fn new(window: u32, poll_cap: u32, clock: C) -> (r: TickWindow<C>)
        ensures
            r.window == window,
            r.poll_cap == poll_cap,
            r.clock == clock,
    {
        TickWindow { window, poll_cap, clock }
    }
}

/// Progress of one tick-window wait: the baseline reading, taken on the first
/// poll, and the polls still allowed.
#[derive(Clone, Copy, Debug)]
pub struct TickWindowInstance<C> {
    pub window: u32,
    pub poll_cap: u32,
    pub started: bool,
    pub baseline: u32,
    pub polls_left: u32,
    pub clock: C,
}

impl<C: TickCounter + Copy> TimeoutInstance for TickWindowInstance<C> {
    open spec fn fuel(&self) -> nat {
        self.polls_left as nat
    }

    /// The clock decides the answer; the configuration is preserved and the
    /// poll budget never grows.
    open spec fn step_ok(&self, post: Self, timed_out: bool) -> bool {
        &&& post.window == self.window
        &&& post.poll_cap == self.poll_cap
        &&& post.polls_left <= self.polls_left
        &&& !timed_out ==> post.polls_left < self.polls_left
    }

    open spec fn restart_ok(&self, post: Self) -> bool {
        &&& post.window == self.window
        &&& post.poll_cap == self.poll_cap
        &&& post.polls_left == self.poll_cap
        &&& !post.started
    }

    fn timeout(&mut self) -> (r: bool)
        ensures
            old(self).step_ok(*final(self), r),
            !r ==> final(self).fuel() < old(self).fuel(),
    {
        if !self.started {
            self.baseline = self.clock.now();
            self.started = true;
        }
        let current = self.clock.now();
        let reload = self.clock.reload();
        let base = if self.baseline <= reload {
            self.baseline
        } else {
            current
        };
        let elapsed = elapsed_ticks(base, current, reload);
        if elapsed >= self.window {
            return true;
        }
        if self.polls_left == 0 {
            return true;
        }
        self.polls_left = self.polls_left - 1;
        false
    }

    /// Forgets the baseline; the next poll takes a fresh one, and the poll
    /// budget is refilled.
    fn restart(&mut self)
        ensures
            old(self).restart_ok(*final(self)),
    {
        self.started = false;
        self.polls_left = self.poll_cap;
    }

    fn interval(&mut self)
        ensures
            *final(self) == *old(self),
    {
    }
}

impl<C: TickCounter + Copy> Timeout for TickWindow<C> {
    type Instance = TickWindowInstance<C>;

    open spec fn fresh_ok(&self, inst: TickWindowInstance<C>) -> bool {
        &&& inst.window == self.window
        &&& inst.poll_cap == self.poll_cap
        &&& inst.polls_left == self.poll_cap
        &&& !inst.started
    }

    fn start(&self) -> (r: TickWindowInstance<C>)
        ensures
            self.fresh_ok(r),
    {
        TickWindowInstance {
            window: self.window,
            poll_cap: self.poll_cap,
            started: false,
            baseline: 0,
            polls_left: self.poll_cap,
            clock: self.clock,
        }
    }
}

// Software clock ------------------------------------------------------------

/// A software down-counter for targets without the hardware one: each reading
/// steps the count down by `step`, wrapping to `reload`.
#[derive(Clone, Copy, Debug)]
pub struct SoftTicker {
    count: u32,
    step: u32,
    reload_value: u32,
}

impl SoftTicker {
    pub fn new(reload_value: u32, step: u32) -> (r: SoftTicker)
        ensures
            r.reload_spec() == reload_value,
    {
        SoftTicker { count: reload_value, step, reload_value }
    }
}

impl TickCounter for SoftTicker {
    closed spec fn reload_spec(&self) -> u32 {
        self.reload_value
    }

    fn reload(&self) -> (r: u32)
        ensures
            r == self.reload_spec(),
    {
        self.reload_value
    }

    fn now(&mut self) -> (r: u32)
        ensures
            r <= old(self).reload_spec(),
            final(self).reload_spec() == old(self).reload_spec(),
    {
        let current = if self.count <= self.reload_value {
            self.count
        } else {
            self.reload_value
        };
        self.count = if current >= self.step {
            current - self.step
        } else {
            self.reload_value
        };
        current
    }
}

} // verus!
