use instrument_future::InstrumentFuture;
use instrument_future::PollOutcome;
use instrument_future::PollStep;
use instrument_future::TimerState;
use instrument_future::timed::elapsed_ns_between;

#[test]
fn immediate_completion_is_timed_as_zero() {
    // A computation that yields 42 on the very first resumption attempt,
    // with both clock readings at the same instant.
    let fut = InstrumentFuture::new(());
    match fut.poll_step(1_000, PollOutcome::Ready(42), 1_000) {
        PollStep::Ready(res) => {
            assert_eq!(res.result, 42);
            assert_eq!(res.elapsed_ns, 0);
        }
        PollStep::Pending(_) => panic!("a ready outcome must produce a result"),
    }
}

#[test]
fn suspension_interval_is_reported() {
    // A computation that suspends once, then yields "done" a known interval
    // after the first resumption attempt.
    let interval: u64 = 25_000_000;
    let fut = InstrumentFuture::new(());
    let fut = match fut.poll_step(10_000, PollOutcome::<&str>::Pending, 10_000) {
        PollStep::Pending(f) => f,
        PollStep::Ready(_) => panic!("a pending outcome must hand the wrapper back"),
    };
    match fut.poll_step(10_000 + interval, PollOutcome::Ready("done"), 10_000 + interval) {
        PollStep::Ready(res) => {
            assert_eq!(res.result, "done");
            assert_eq!(res.elapsed_ns, interval);
        }
        PollStep::Pending(_) => panic!("a ready outcome must produce a result"),
    }
}

#[test]
fn construction_does_not_start_the_clock() {
    let fut = InstrumentFuture::new(7u8);
    assert_eq!(fut.current_timer(), TimerState::NotStarted);
}

#[test]
fn start_is_recorded_on_first_resumption_only() {
    // Polling twice with no progress yields the same stored start time on
    // both attempts: later resumptions neither reset nor advance it.
    let fut = InstrumentFuture::new(7u8);
    let fut = match fut.poll_step(500, PollOutcome::<u8>::Pending, 500) {
        PollStep::Pending(f) => f,
        PollStep::Ready(_) => panic!("a pending outcome must hand the wrapper back"),
    };
    assert_eq!(fut.current_timer(), TimerState::Started { start_ns: 500 });
    let fut = match fut.poll_step(9_000, PollOutcome::<u8>::Pending, 9_000) {
        PollStep::Pending(f) => f,
        PollStep::Ready(_) => panic!("a pending outcome must hand the wrapper back"),
    };
    assert_eq!(fut.current_timer(), TimerState::Started { start_ns: 500 });
}

#[test]
fn elapsed_covers_the_delay() {
    // A completion observed d nanoseconds after the start reading is
    // reported as at least d.
    let d: u64 = 1_500;
    let start: u64 = 2_000;
    let fut = InstrumentFuture::new(());
    match fut.poll_step(start, PollOutcome::Ready(0u8), start + d + 3) {
        PollStep::Ready(res) => {
            assert!(res.elapsed_ns >= d);
            assert_eq!(res.elapsed_ns, d + 3);
        }
        PollStep::Pending(_) => panic!("a ready outcome must produce a result"),
    }
}

#[test]
fn result_passes_through_unchanged() {
    let fut = InstrumentFuture::new(());
    let payload = vec![1u32, 2, 3];
    match fut.poll_step(0, PollOutcome::Ready(payload.clone()), 10) {
        PollStep::Ready(res) => assert_eq!(res.result, payload),
        PollStep::Pending(_) => panic!("a ready outcome must produce a result"),
    }
}

#[test]
fn timer_elapsed_at_readings() {
    let t = TimerState::NotStarted;
    assert_eq!(t.elapsed_at(99), None);
    let t = t.after_resume(40);
    assert_eq!(t, TimerState::Started { start_ns: 40 });
    assert_eq!(t.elapsed_at(100), Some(60));
    // Out-of-order readings saturate to zero rather than wrapping.
    assert_eq!(t.elapsed_at(10), Some(0));
    assert_eq!(elapsed_ns_between(50, 20), 0);
}

#[test]
fn real_clock_readings_measure_the_interval() {
    // Two readings of the process clock, fed to the library as plain
    // nanosecond values: the report is exactly their difference.
    let base = std::time::Instant::now();
    let start = base.elapsed().as_nanos() as u64;
    let mut acc: u64 = 0;
    for i in 0..10_000u64 {
        acc = acc.wrapping_add(i);
    }
    assert!(acc > 0);
    let done = base.elapsed().as_nanos() as u64;
    assert!(done >= start);
    let fut = InstrumentFuture::new(());
    match fut.poll_step(start, PollOutcome::Ready(acc), done) {
        PollStep::Ready(res) => assert_eq!(res.elapsed_ns, done - start),
        PollStep::Pending(_) => panic!("a ready outcome must produce a result"),
    }
}
