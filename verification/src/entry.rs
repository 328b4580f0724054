//! The two instrumentation entry points, modeled as sessions: the state a
//! caller drives by handing it clock readings and the inner computation's
//! outcomes. The unconditional entry point times its computation and emits
//! one debug-level record on completion; the debug-gated one does the same
//! in a debug build and is a plain pass-through otherwise.

use vstd::prelude::*;
use vstd::pervasive::unreached;
use crate::message::LogFormat;
use crate::message::LogRecord;
use crate::message::record_matches;
use crate::message::render_record;
use crate::timed::InstrumentFuture;
use crate::timed::PollOutcome;
use crate::timed::PollStep;
use crate::timed::TimerState;
use crate::timed::spec_elapsed_ns;

verus! {

/// What the build-configuration flag decides: wrap and log, or run the
/// computation untouched.
#[derive(Clone, Copy, Debug, PartialEq, Eq, Structural)]
pub enum GateMode {
    Direct,
    Instrumented,
}

/// The mode chosen for a given build-configuration flag.
pub open spec fn spec_gate_mode(debug: bool) -> GateMode {
    if debug {
        GateMode::Instrumented
    } else {
        GateMode::Direct
    }
}

/// Decide from the build-configuration flag whether to instrument: wrap and
/// log in a debug build, run the computation untouched otherwise.
pub fn gate_mode(debug: bool) -> (m: GateMode)
    ensures
        m == spec_gate_mode(debug),
{
    if debug {
        GateMode::Instrumented
    } else {
        GateMode::Direct
    }
}

/// The unconditional entry point's session: it owns the timed wrapper over
/// the inner computation and the format the completion is to be reported
/// with, and records which log records it has handed to the sink.
pub struct InstrumentSession<F> {
    fut: Option<InstrumentFuture<F>>,
    format: LogFormat,
    emitted: Ghost<Seq<LogRecord>>,
}

impl<F> InstrumentSession<F> {
    /// Whether the inner computation has completed (and the wrapper was
    /// consumed to report it).
    pub closed spec fn is_done(self) -> bool {
        self.fut is None
    }

    /// Every log record this session has handed to the sink, in order.
    pub closed spec fn emitted(self) -> Seq<LogRecord> {
        self.emitted@
    }

    /// The format the completion is to be reported with.
    pub closed spec fn format(self) -> LogFormat {
        self.format
    }

    /// The wrapper's timer state, meaningful until the session completes.
    pub closed spec fn timer(self) -> TimerState {
        match self.fut {
            Some(f) => f.timer(),
            None => TimerState::NotStarted,
        }
    }

    /// The wrapped inner computation, meaningful until the session completes.
    pub closed spec fn inner(self) -> F {
        match self.fut {
            Some(f) => f.inner(),
            None => arbitrary(),
        }
    }

    /// A session emits exactly one record, at the moment it completes; one
    /// abandoned earlier has emitted none, and the one record reports this
    /// session's format.
    pub closed spec fn wf(self) -> bool {
        &&& self.emitted@.len() == (if self.is_done() {
            1nat
        } else {
            0nat
        })
        &&& self.is_done() ==> exists|e: u64| record_matches(self.emitted@[0], self.format, e)
    }

    /// Open a session over a not-yet-started computation. No timestamp is
    /// taken and nothing is logged here: the clock starts at the first
    /// resumption attempt, and a record is emitted only at completion.
    pub fn new(future: F, format: LogFormat) -> (s: Self)
        ensures
            s.wf(),
            !s.is_done(),
            s.emitted() == Seq::<LogRecord>::empty(),
            s.format() == format,
            s.timer() == TimerState::NotStarted,
            s.inner() == future,
    {
        InstrumentSession {
            fut: Some(InstrumentFuture::new(future)),
            format,
            emitted: Ghost(Seq::empty()),
        }
    }

    /// One resumption of the entry point's body: drive the timed wrapper one
    /// step. While the inner computation is pending, nothing is emitted and
    /// the inner computation and recorded start are untouched; when it
    /// completes, the session hands back the inner output unchanged together
    /// with the one record that reports the elapsed time in the session's
    /// format.
    pub fn step<R>(
        &mut self,
        now_resume_ns: u64,
        outcome: PollOutcome<R>,
        now_complete_ns: u64,
    ) -> (r: Option<(R, LogRecord)>)
        requires
            old(self).wf(),
            !old(self).is_done(),
        ensures
            final(self).wf(),
            final(self).format() == old(self).format(),
            match outcome {
                PollOutcome::Pending => {
                    &&& r is None
                    &&& !final(self).is_done()
                    &&& final(self).inner() == old(self).inner()
                    &&& final(self).timer() == old(self).timer().spec_after_resume(now_resume_ns)
                    &&& final(self).emitted() == old(self).emitted()
                },
                PollOutcome::Ready(v) => {
                    &&& r matches Some(pair) && pair.0 == v && record_matches(
                        pair.1,
                        old(self).format(),
                        spec_elapsed_ns(
                            old(self).timer().spec_after_resume(now_resume_ns)->start_ns,
                            now_complete_ns,
                        ),
                    ) && final(self).emitted() == old(self).emitted().push(pair.1)
                    &&& final(self).is_done()
                },
            },
    {
        let fut = match self.fut.take() {
            Some(f) => f,
            None => unreached(),
        };
        match fut.poll_step(now_resume_ns, outcome, now_complete_ns) {
            PollStep::Pending(f2) => {
                self.fut = Some(f2);
                None
            },
            PollStep::Ready(res) => {
                let rec = render_record(&self.format, res.elapsed_ns);
                self.emitted = Ghost(self.emitted@.push(rec));
                proof {
                    assert(self.emitted@[0] == rec);
                    assert(exists|e: u64| record_matches(self.emitted@[0], self.format, e)) by {
                        assert(record_matches(self.emitted@[0], self.format, res.elapsed_ns));
                    };
                }
                Some((res.result, rec))
            },
        }
    }
}

/// The unconditional entry point: produce the not-yet-started session that,
/// once driven to completion, yields the inner output and reports the
/// elapsed time in the given format.
pub fn instrument<F>(future: F, format: LogFormat) -> (s: InstrumentSession<F>)
    ensures
        s.wf(),
        !s.is_done(),
        s.emitted() == Seq::<LogRecord>::empty(),
        s.format() == format,
        s.timer() == TimerState::NotStarted,
        s.inner() == future,
{
    InstrumentSession::new(future, format)
}

/// The debug-gated entry point's session: an instrumentation session in a
/// debug build, and on the direct path the bare inner computation with no
/// timer and no format at all.
pub enum DbgSession<F> {
    Direct { future: Option<F> },
    Instrumented { session: InstrumentSession<F> },
}

impl<F> DbgSession<F> {
    /// Whether the inner computation has completed.
    pub closed spec fn is_done(self) -> bool {
        match self {
            DbgSession::Direct { future } => future is None,
            DbgSession::Instrumented { session } => session.is_done(),
        }
    }

    /// Every log record this session has handed to the sink: on the direct
    /// path, none, ever.
    pub closed spec fn emitted(self) -> Seq<LogRecord> {
        match self {
            DbgSession::Direct { future } => Seq::empty(),
            DbgSession::Instrumented { session } => session.emitted(),
        }
    }

    pub closed spec fn wf(self) -> bool {
        match self {
            DbgSession::Direct { future } => true,
            DbgSession::Instrumented { session } => session.wf(),
        }
    }

    /// One resumption of the gated entry point's body. On the direct path
    /// the inner outcome passes through identically — same output value,
    /// failure values included, no timer touched and no record emitted — so
    /// it is indistinguishable from awaiting the unwrapped computation. On
    /// the instrumented path it behaves exactly as the unconditional entry
    /// point does.
    pub fn step<R>(
        &mut self,
        now_resume_ns: u64,
        outcome: PollOutcome<R>,
        now_complete_ns: u64,
    ) -> (r: Option<(R, Option<LogRecord>)>)
        requires
            old(self).wf(),
            !old(self).is_done(),
        ensures
            final(self).wf(),
            (*old(self)) is Direct ==> (*final(self)) is Direct && final(self).emitted()
                == Seq::<LogRecord>::empty() && match outcome {
                PollOutcome::Pending => r is None && *final(self) == *old(self),
                PollOutcome::Ready(v) => r matches Some(pair) && pair.0 == v && pair.1 is None
                    && final(self).is_done(),
            },
            (*old(self)) is Instrumented ==> (*final(self)) is Instrumented
                && (*final(self))->session.format() == (*old(self))->session.format()
                && match outcome {
                PollOutcome::Pending => r is None && !final(self).is_done()
                    && final(self).emitted() == old(self).emitted()
                    && (*final(self))->session.timer()
                    == (*old(self))->session.timer().spec_after_resume(now_resume_ns)
                    && (*final(self))->session.inner() == (*old(self))->session.inner(),
                PollOutcome::Ready(v) => r matches Some(pair) && pair.0 == v
                    && (pair.1 matches Some(rec) && record_matches(
                    rec,
                    (*old(self))->session.format(),
                    spec_elapsed_ns(
                        (*old(self))->session.timer().spec_after_resume(now_resume_ns)->start_ns,
                        now_complete_ns,
                    ),
                ) && final(self).emitted() == old(self).emitted().push(rec))
                    && final(self).is_done(),
            },
    {
        match self {
            DbgSession::Direct { future } => match outcome {
                PollOutcome::Pending => None,
                PollOutcome::Ready(v) => {
                    // The inner computation has completed: release it.
                    *future = None;
                    Some((v, None))
                },
            },
            DbgSession::Instrumented { session } => match session.step(
                now_resume_ns,
                outcome,
                now_complete_ns,
            ) {
                None => None,
                Some((v, rec)) => Some((v, Some(rec))),
            },
        }
    }
}

/// The debug-gated entry point: in a debug build, exactly the unconditional
/// entry point's session; otherwise the bare computation, with no timer
/// constructed, no timestamp taken and nothing ever logged.
pub fn dbg_instrument<F>(debug: bool, future: F, format: LogFormat) -> (s: DbgSession<F>)
    ensures
        s.wf(),
        !s.is_done(),
        s.emitted() == Seq::<LogRecord>::empty(),
        spec_gate_mode(debug) is Instrumented ==> (s matches DbgSession::Instrumented { session }
            && session.format() == format && session.timer() == TimerState::NotStarted
            && session.inner() == future),
        spec_gate_mode(debug) is Direct ==> (s matches DbgSession::Direct { future: f } && f
            == Some(future)),
{
    match gate_mode(debug) {
        GateMode::Instrumented => DbgSession::Instrumented {
            session: InstrumentSession::new(future, format),
        },
        GateMode::Direct => DbgSession::Direct { future: Some(future) },
    }
}

/// Law: with the debug flag off, the chosen mode is the direct path, on which
/// the gated entry point holds the inner computation bare: no timer, no
/// format, and an always-empty record trace.
pub proof fn lemma_gate_off_is_direct(debug: bool)
    requires
        !debug,
    ensures
        spec_gate_mode(debug) is Direct,
{
}

/// Law: a session on the direct path never emits a log record, whatever
/// state it is in.
pub proof fn lemma_direct_emits_nothing<F>(s: DbgSession<F>)
    requires
        s is Direct,
    ensures
        s.emitted() == Seq::<LogRecord>::empty(),
{
}

/// Law: exactly one record per completion. An instrumentation session that
/// has run to completion has emitted exactly one log record, and that record
/// reports the session's format; a session abandoned before completion has
/// emitted none.
pub proof fn lemma_one_record_per_completion<F>(s: InstrumentSession<F>)
    requires
        s.wf(),
    ensures
        s.is_done() ==> s.emitted().len() == 1 && (exists|e: u64|
            record_matches(s.emitted()[0], s.format(), e)),
        !s.is_done() ==> s.emitted().len() == 0,
{
}

/// Law: exactly one record per completion holds of the gated entry point
/// too — and on its direct path, none at all, completed or not.
pub proof fn lemma_dbg_one_record_per_completion<F>(s: DbgSession<F>)
    requires
        s.wf(),
    ensures
        s is Direct ==> s.emitted().len() == 0,
        s is Instrumented && s.is_done() ==> s.emitted().len() == 1,
        !s.is_done() ==> s.emitted().len() == 0,
{
}

} // verus!
