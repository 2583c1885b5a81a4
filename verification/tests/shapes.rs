//! The two composite task shapes: fan-out/join completion in any
//! order, and the sequential shape's stage discipline.

use minirt::coroutine::{Coroutine, Stage};
use minirt::executor::{Executor, StepOutcome, Waker};
use minirt::future::{join_all, Countdown, Future, PollState};

#[test]
fn countdown_parks_then_resolves() {
    let w = Waker { id: 0 };
    let mut c = Countdown::new(2);
    assert!(matches!(c.poll(&w), PollState::NotReady));
    assert!(matches!(c.poll(&w), PollState::NotReady));
    assert!(matches!(c.poll(&w), PollState::Ready(_)));
}

#[test]
fn join_all_completes_only_when_every_slot_did() {
    let w = Waker { id: 0 };
    let mut j = join_all(vec![Countdown::new(2), Countdown::new(0), Countdown::new(1)]);
    assert!(matches!(j.poll(&w), PollState::NotReady));
    assert!(matches!(j.poll(&w), PollState::NotReady));
    assert!(matches!(j.poll(&w), PollState::Ready(_)));
}

#[test]
fn join_all_order_of_completion_does_not_matter() {
    let w = Waker { id: 0 };
    let mut ascending = join_all(vec![Countdown::new(0), Countdown::new(1), Countdown::new(2)]);
    let mut descending = join_all(vec![Countdown::new(2), Countdown::new(1), Countdown::new(0)]);
    let mut polls_ascending: usize = 0;
    let mut polls_descending: usize = 0;
    while let PollState::NotReady = ascending.poll(&w) {
        polls_ascending += 1;
        assert!(polls_ascending < 10);
    }
    while let PollState::NotReady = descending.poll(&w) {
        polls_descending += 1;
        assert!(polls_descending < 10);
    }
    assert_eq!(polls_ascending, 2);
    assert_eq!(polls_descending, 2);
}

#[test]
fn join_all_of_nothing_is_ready_at_once() {
    let w = Waker { id: 0 };
    let mut j = join_all(Vec::<Countdown>::new());
    assert!(matches!(j.poll(&w), PollState::Ready(_)));
}

#[test]
fn join_all_single_poll_when_every_slot_is_ready() {
    let w = Waker { id: 0 };
    let mut j = join_all(vec![Countdown::new(0), Countdown::new(0), Countdown::new(0)]);
    assert!(matches!(j.poll(&w), PollState::Ready(_)));
}

#[test]
fn sequential_stops_at_first_pending_stage() {
    let w = Waker { id: 0 };
    let mut c = Coroutine::new(Countdown::new(2), Countdown::new(0));
    assert_eq!(c.stage(), Stage::Start);
    assert!(matches!(c.poll(&w), PollState::NotReady));
    assert_eq!(c.stage(), Stage::Wait1);
    assert!(matches!(c.poll(&w), PollState::NotReady));
    assert_eq!(c.stage(), Stage::Wait1);
    assert!(matches!(c.poll(&w), PollState::Ready(_)));
    assert_eq!(c.stage(), Stage::Resolved);
}

#[test]
fn sequential_waits_for_its_second_stage() {
    let w = Waker { id: 0 };
    let mut c = Coroutine::new(Countdown::new(0), Countdown::new(1));
    assert!(matches!(c.poll(&w), PollState::NotReady));
    assert_eq!(c.stage(), Stage::Wait2);
    assert!(matches!(c.poll(&w), PollState::Ready(_)));
    assert_eq!(c.stage(), Stage::Resolved);
}

#[test]
fn sequential_may_cross_both_stages_in_one_poll() {
    let w = Waker { id: 0 };
    let mut c = Coroutine::new(Countdown::new(0), Countdown::new(0));
    assert!(matches!(c.poll(&w), PollState::Ready(_)));
    assert_eq!(c.stage(), Stage::Resolved);
}

#[test]
fn executor_drives_composite_shapes() {
    let mut e: Executor<Coroutine<Countdown>> = Executor::new();
    let id = e.spawn(Coroutine::new(Countdown::new(1), Countdown::new(1)));
    e.run_ready();
    assert_eq!(e.task_count(), 1);
    let w = e.get_waker(id);
    e.wake(&w);
    assert_eq!(e.step(), StepOutcome::Pending { id });
    e.wake(&w);
    assert_eq!(e.step(), StepOutcome::Completed { id });
    assert_eq!(e.task_count(), 0);
}
