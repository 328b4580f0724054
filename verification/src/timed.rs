//! The timed-future core: a two-state timer and the resumption step that
//! measures how long a wrapped computation took to run to completion.

use vstd::prelude::*;
use vstd::pervasive::unreached;

verus! {

/// Explicit two-state model of the wrapper's clock: the start timestamp is
/// absent until the first resumption attempt and, once recorded, is never
/// cleared or overwritten for the lifetime of the wrapper.
///
/// Timestamps are wall-clock readings in nanoseconds from a monotonic clock.
#[derive(Clone, Copy, Debug, PartialEq, Eq, Structural)]
pub enum TimerState {
    NotStarted,
    Started { start_ns: u64 },
}

/// The elapsed wall-clock time between a recorded start and a later reading,
/// saturating to zero if the readings are out of order (a monotonic clock
/// never produces that case).
pub open spec fn spec_elapsed_ns(start_ns: u64, now_ns: u64) -> u64 {
    if now_ns >= start_ns {
        (now_ns - start_ns) as u64
    } else {
        0
    }
}

impl TimerState {
    /// The timer after one resumption attempt at `now_ns`: recorded on the
    /// very first attempt, untouched on every later one.
    pub open spec fn spec_after_resume(self, now_ns: u64) -> TimerState {
        match self {
            TimerState::NotStarted => TimerState::Started { start_ns: now_ns },
            TimerState::Started { start_ns } => TimerState::Started { start_ns },
        }
    }

    /// Record `now_ns` as the start timestamp if none is recorded yet;
    /// otherwise keep the recorded one.
    pub fn after_resume(self, now_ns: u64) -> (r: TimerState)
        ensures
            r == self.spec_after_resume(now_ns),
    {
        match self {
            TimerState::NotStarted => TimerState::Started { start_ns: now_ns },
            TimerState::Started { start_ns } => TimerState::Started { start_ns },
        }
    }

    /// The wall-clock time elapsed at `now_ns`, or `None` before the first
    /// resumption attempt.
    pub fn elapsed_at(self, now_ns: u64) -> (r: Option<u64>)
        ensures
            self is Started ==> r == Some(spec_elapsed_ns(self->start_ns, now_ns)),
            self is NotStarted ==> r is None,
    {
        match self {
            TimerState::NotStarted => None,
            TimerState::Started { start_ns } => Some(elapsed_ns_between(start_ns, now_ns)),
        }
    }
}

/// The elapsed wall-clock time between two readings of a monotonic clock,
/// saturating to zero if they are out of order.
pub fn elapsed_ns_between(start_ns: u64, now_ns: u64) -> (r: u64)
    ensures
        r == spec_elapsed_ns(start_ns, now_ns),
{
    if now_ns >= start_ns {
        now_ns - start_ns
    } else {
        0
    }
}

/// The result of a finished [`InstrumentFuture`]: the inner computation's
/// output together with the measured wall-clock time in nanoseconds.
#[derive(Debug)]
pub struct InstrumentFutureResult<R> {
    pub result: R,
    pub elapsed_ns: u64,
}

/// What one resumption attempt of the inner computation came to: still
/// suspended, or finished with its output.
#[derive(Debug)]
pub enum PollOutcome<R> {
    Pending,
    Ready(R),
}

/// What one resumption attempt of the wrapper comes to: the wrapper handed
/// back to be resumed again, or the finished result.
#[derive(Debug)]
pub enum PollStep<F, R> {
    Pending(InstrumentFuture<F>),
    Ready(InstrumentFutureResult<R>),
}

/// Wraps a not-yet-started computation and measures the wall-clock time from
/// its first resumption attempt to its completion.
///
/// Construction has no side effect: the clock starts only when the wrapper is
/// first resumed, not when it is built.
#[derive(Debug)]
pub struct InstrumentFuture<F> {
    future: F,
    timer: TimerState,
}

impl<F> InstrumentFuture<F> {
    /// The wrapped inner computation.
    pub closed spec fn inner(self) -> F {
        self.future
    }

    /// The timer state: `NotStarted` until the first resumption attempt.
    pub closed spec fn timer(self) -> TimerState {
        self.timer
    }

    /// Wrap a not-yet-started computation. No timestamp is taken here: the
    /// clock must not start before the first resumption attempt.
    pub fn new(future: F) -> (r: Self)
        ensures
            r.timer() == TimerState::NotStarted,
            r.inner() == future,
    {
        InstrumentFuture { future, timer: TimerState::NotStarted }
    }

    /// The timer state, for callers that drive the wrapper.
    pub fn current_timer(&self) -> (t: TimerState)
        ensures
            t == self.timer(),
    {
        self.timer
    }

    /// The first half of a resumption attempt: record `now_ns` as the start
    /// timestamp on the very first attempt, and never again.
    pub fn ensure_started(&mut self, now_ns: u64)
        ensures
            final(self).inner() == old(self).inner(),
            final(self).timer() == old(self).timer().spec_after_resume(now_ns),
            final(self).timer() is Started,
    {
        self.timer = self.timer.after_resume(now_ns);
    }

    /// One full resumption attempt: record the start timestamp if this is the
    /// first attempt, then fold in the inner computation's outcome. A pending
    /// outcome hands the wrapper back with the inner computation untouched; a
    /// ready outcome converts the wrapper into an [`InstrumentFutureResult`]
    /// carrying the inner output unchanged and the elapsed wall-clock time
    /// between the recorded start and `now_complete_ns`.
    pub fn poll_step<R>(
        self,
        now_resume_ns: u64,
        outcome: PollOutcome<R>,
        now_complete_ns: u64,
    ) -> (r: PollStep<F, R>)
        ensures
            ({
                let started = self.timer().spec_after_resume(now_resume_ns);
                match outcome {
                    PollOutcome::Pending => r matches PollStep::Pending(f) && f.inner()
                        == self.inner() && f.timer() == started,
                    PollOutcome::Ready(v) => r matches PollStep::Ready(res) && res.result == v
                        && res.elapsed_ns == spec_elapsed_ns(started->start_ns, now_complete_ns),
                }
            }),
    {
        let mut this = self;
        this.ensure_started(now_resume_ns);
        match outcome {
            PollOutcome::Pending => PollStep::Pending(this),
            PollOutcome::Ready(v) => match this.timer {
                TimerState::Started { start_ns } => PollStep::Ready(
                    InstrumentFutureResult {
                        result: v,
                        elapsed_ns: elapsed_ns_between(start_ns, now_complete_ns),
                    },
                ),
                TimerState::NotStarted => unreached(),
            },
        }
    }
}

/// Law: starting the timer is idempotent. Resuming any number of times never
/// resets or advances a recorded start timestamp: a second resumption attempt
/// leaves exactly the timer the first one produced.
pub proof fn lemma_start_idempotent(t: TimerState, now1_ns: u64, now2_ns: u64)
    ensures
        t.spec_after_resume(now1_ns).spec_after_resume(now2_ns) == t.spec_after_resume(now1_ns),
        t is Started ==> t.spec_after_resume(now1_ns) == t,
{
}

/// Law: the reported elapsed time is exactly the wall-clock interval between
/// the recorded start and the completion reading. In particular, for an inner
/// computation that completes only after a delay of `d` nanoseconds, the
/// report is at least `d`, and it exceeds `d` only by the scheduling overhead
/// that the interval itself contains.
pub proof fn lemma_elapsed_brackets_delay(start_ns: u64, now_ns: u64, d: u64)
    requires
        start_ns + d <= now_ns,
    ensures
        spec_elapsed_ns(start_ns, now_ns) == now_ns - start_ns,
        spec_elapsed_ns(start_ns, now_ns) >= d,
        spec_elapsed_ns(start_ns, now_ns) <= d + ((now_ns - start_ns) - d),
{
}

} // verus!
