use vstd::prelude::*;

verus! {

/// How long a freshly spawned worker is given to become healthy.
pub const STARTUP_DEADLINE_MS: u64 = 10_000;

/// The pause between two health probes while waiting for readiness.
pub const POLL_INTERVAL_MS: u64 = 500;

/// What the caller does next while waiting for a spawned worker.
#[derive(Debug, Clone, Copy, PartialEq, Eq)]
pub enum WaitStep {
    /// The worker answered its health probe: report it running.
    Ready,
    /// Sleep this many milliseconds, then probe again.
    Sleep(u64),
    /// The deadline is spent: report a startup timeout.
    TimedOut,
}

/// The bounded polling loop that waits for a spawned worker to become healthy.
/// The caller probes once, hands the verdict to `step`, and follows the answer.
pub struct StartupWait {
    elapsed_ms: u64,
    deadline_ms: u64,
    interval_ms: u64,
}

impl StartupWait {
    /// Time slept so far.
    pub closed spec fn elapsed(&self) -> nat {
        self.elapsed_ms as nat
    }

    /// The total time the wait may sleep.
    pub closed spec fn deadline(&self) -> nat {
        self.deadline_ms as nat
    }

    /// The pause between two probes.
    pub closed spec fn interval(&self) -> nat {
        self.interval_ms as nat
    }

    /// The interval is positive and the time slept never passes the deadline.
    pub open spec fn wf(&self) -> bool {
        &&& self.interval() > 0
        &&& self.elapsed() <= self.deadline()
    }

    /// The answer `step` gives to a probe verdict, and the time slept after it.
    pub open spec fn next(&self, healthy: bool) -> (WaitStep, nat) {
        if healthy {
            (WaitStep::Ready, self.elapsed())
        } else if self.elapsed() + self.interval() <= self.deadline() {
            (WaitStep::Sleep(self.interval() as u64), self.elapsed() + self.interval())
        } else {
            (WaitStep::TimedOut, self.elapsed())
        }
    }

    /// A wait that has slept nothing yet.
    pub fn new(deadline_ms: u64, interval_ms: u64) -> (r: StartupWait)
        requires
            interval_ms > 0,
        ensures
            r.wf(),
            r.elapsed() == 0,
            r.deadline() == deadline_ms,
            r.interval() == interval_ms,
    {
        StartupWait { elapsed_ms: 0, deadline_ms, interval_ms }
    }

    /// The wait with the default deadline and interval.
    pub fn with_defaults() -> (r: StartupWait)
        ensures
            r.wf(),
            r.elapsed() == 0,
            r.deadline() == STARTUP_DEADLINE_MS,
            r.interval() == POLL_INTERVAL_MS,
    {
        StartupWait::new(STARTUP_DEADLINE_MS, POLL_INTERVAL_MS)
    }

    /// Time slept so far, in milliseconds.
    pub fn elapsed_ms(&self) -> (r: u64)
        ensures
            r == self.elapsed(),
    {
        self.elapsed_ms
    }

    /// Decides what follows a probe: a healthy worker ends the wait at once;
    /// an unhealthy one is probed again after one interval while that interval
    /// still fits before the deadline, and times out otherwise.
    pub fn step(&mut self, healthy: bool) -> (r: WaitStep)
        requires
            old(self).wf(),
        ensures
            final(self).wf(),
            final(self).deadline() == old(self).deadline(),
            final(self).interval() == old(self).interval(),
            (r, final(self).elapsed()) == old(self).next(healthy),
    {
        if healthy {
            WaitStep::Ready
        } else if self.interval_ms <= self.deadline_ms - self.elapsed_ms {
            self.elapsed_ms = self.elapsed_ms + self.interval_ms;
            WaitStep::Sleep(self.interval_ms)
        } else {
            WaitStep::TimedOut
        }
    }
}

/// How many more pauses the wait can take before it times out.
pub open spec fn pauses_left(w: StartupWait) -> nat
    recommends
        w.wf(),
{
    ((w.deadline() - w.elapsed()) as nat) / w.interval()
}

/// The wait always ends: each unhealthy probe that is answered with a pause
/// uses up exactly one of the pauses left, and an unhealthy probe with none
/// left is answered with a timeout. A healthy probe ends it at once.
pub proof fn startup_wait_is_bounded(w: StartupWait, healthy: bool)
    requires
        w.wf(),
    ensures
        healthy ==> w.next(healthy).0 is Ready,
        !healthy && pauses_left(w) == 0 ==> w.next(healthy).0 is TimedOut,
        !healthy && pauses_left(w) > 0 ==> (w.next(healthy).0 is Sleep
            && w.next(healthy).1 <= w.deadline()
            && ((w.deadline() - w.next(healthy).1) as nat) / w.interval() == pauses_left(w) - 1),
{
    let r = (w.deadline() - w.elapsed()) as nat;
    let i = w.interval();
    if r >= i {
        assert((r - i) as nat / i == r / i - 1) by (nonlinear_arith)
            requires r >= i, i > 0;
    } else {
        assert(r / i == 0) by (nonlinear_arith)
            requires r < i, i > 0, r >= 0;
    }
}

} // verus!
