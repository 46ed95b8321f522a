use maybe_done::{Computation, MaybeDone, Progress, Step};

/// Suspends `remaining` times, then finishes with `value`.
struct CountDown {
    remaining: u32,
    value: u32,
}

impl Computation for CountDown {
    type Context = ();
    type Output = u32;

    fn step(&mut self, _cx: &mut ()) -> Step<u32> {
        if self.remaining == 0 {
            Step::Finished(self.value)
        } else {
            self.remaining -= 1;
            Step::Suspended
        }
    }
}

/// Finishes on the first advancement with the held value.
struct Immediate {
    value: Option<String>,
}

impl Computation for Immediate {
    type Context = ();
    type Output = String;

    fn step(&mut self, _cx: &mut ()) -> Step<String> {
        match self.value.take() {
            Some(v) => Step::Finished(v),
            None => Step::Suspended,
        }
    }
}

/// Bumps the scheduling context on every advancement and finishes, with the
/// count it saw, once the context reaches `target`.
struct Tally {
    target: u32,
}

impl Computation for Tally {
    type Context = u32;
    type Output = u32;

    fn step(&mut self, cx: &mut u32) -> Step<u32> {
        *cx += 1;
        if *cx >= self.target {
            Step::Finished(*cx)
        } else {
            Step::Suspended
        }
    }
}

#[test]
fn new_slot_is_pending() {
    let slot = MaybeDone::new(CountDown {
        remaining: 3,
        value: 1,
    });
    assert!(slot.output().is_none());
    assert!(!slot.is_gone());
}

#[test]
fn suspends_once_then_yields() {
    let mut slot = MaybeDone::new(CountDown {
        remaining: 1,
        value: 42,
    });
    assert!(matches!(slot.poll(&mut ()), Progress::Suspended));
    assert!(slot.output().is_none());
    assert!(matches!(slot.poll(&mut ()), Progress::Finished));
    assert_eq!(slot.output(), Some(&42));
    assert_eq!(slot.take(), Some(42));
    assert_eq!(slot.take(), None);
    assert!(slot.is_gone());
}

#[test]
fn immediate_completion_yields_value() {
    let mut slot = MaybeDone::new(Immediate {
        value: Some(String::from("x")),
    });
    assert!(matches!(slot.poll(&mut ()), Progress::Finished));
    assert_eq!(slot.take(), Some(String::from("x")));
}

#[test]
fn completes_after_k_steps_exactly_once() {
    let mut slot = MaybeDone::new(CountDown {
        remaining: 2,
        value: 7,
    });
    assert!(matches!(slot.poll(&mut ()), Progress::Suspended));
    assert!(slot.output().is_none());
    assert!(matches!(slot.poll(&mut ()), Progress::Suspended));
    assert!(slot.output().is_none());
    assert!(matches!(slot.poll(&mut ()), Progress::Finished));
    assert_eq!(slot.output(), Some(&7));
}

#[test]
fn completed_advance_is_idempotent() {
    let mut slot = MaybeDone::new(CountDown {
        remaining: 0,
        value: 9,
    });
    assert!(matches!(slot.poll(&mut ()), Progress::Finished));
    for _ in 0..5 {
        assert!(matches!(slot.poll(&mut ()), Progress::Finished));
        assert_eq!(slot.output(), Some(&9));
    }
}

#[test]
fn take_exactly_once_despite_peeks() {
    let mut slot = MaybeDone::new(CountDown {
        remaining: 0,
        value: 11,
    });
    assert!(matches!(slot.poll(&mut ()), Progress::Finished));
    assert_eq!(slot.output(), Some(&11));
    assert_eq!(slot.take(), Some(11));
    assert!(slot.output().is_none());
    assert_eq!(slot.take(), None);
    assert!(slot.is_gone());
}

#[test]
fn peek_is_non_destructive() {
    let mut slot = MaybeDone::new(CountDown {
        remaining: 0,
        value: 5,
    });
    assert!(matches!(slot.poll(&mut ()), Progress::Finished));
    for _ in 0..10 {
        assert_eq!(slot.output(), Some(&5));
    }
    assert_eq!(slot.take(), Some(5));
}

#[test]
fn take_on_pending_never_advances() {
    let mut slot = MaybeDone::new(CountDown {
        remaining: 1,
        value: 3,
    });
    assert_eq!(slot.take(), None);
    assert_eq!(slot.take(), None);
    // Had either take advanced the computation, this poll would finish.
    assert!(matches!(slot.poll(&mut ()), Progress::Suspended));
    assert!(matches!(slot.poll(&mut ()), Progress::Finished));
    assert_eq!(slot.take(), Some(3));
}

#[test]
fn resolve_suspended_keeps_computation() {
    let (mut slot, report) = MaybeDone::resolve(
        CountDown {
            remaining: 0,
            value: 9,
        },
        Step::Suspended,
    );
    assert!(matches!(report, Progress::Suspended));
    assert!(slot.output().is_none());
    assert!(matches!(slot.poll(&mut ()), Progress::Finished));
    assert_eq!(slot.take(), Some(9));
}

#[test]
fn resolve_finished_installs_value() {
    let (mut slot, report) = MaybeDone::resolve(
        CountDown {
            remaining: 4,
            value: 0,
        },
        Step::Finished(8),
    );
    assert!(matches!(report, Progress::Finished));
    assert_eq!(slot.output(), Some(&8));
    assert_eq!(slot.take(), Some(8));
}

#[test]
fn context_forwarded_unmodified() {
    let mut slot = MaybeDone::new(Tally { target: 3 });
    let mut cx: u32 = 0;
    assert!(matches!(slot.poll(&mut cx), Progress::Suspended));
    assert_eq!(cx, 1);
    assert!(matches!(slot.poll(&mut cx), Progress::Suspended));
    assert_eq!(cx, 2);
    assert!(matches!(slot.poll(&mut cx), Progress::Finished));
    assert_eq!(cx, 3);
    assert_eq!(slot.take(), Some(3));
}
