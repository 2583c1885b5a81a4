//! Executor behaviour: spawning, the ready queue, spurious wakeups,
//! and the rule that a completed task is never polled again.

use minirt::executor::{spawn, Executor, StepOutcome};
use minirt::future::Countdown;

#[test]
fn spawn_assigns_monotonic_ids_from_zero() {
    let mut e: Executor<Countdown> = Executor::new();
    let a = e.spawn(Countdown::new(0));
    let b = e.spawn(Countdown::new(0));
    let c = e.spawn(Countdown::new(0));
    assert_eq!((a, b, c), (0, 1, 2));
    assert_eq!(e.task_count(), 3);
}

#[test]
fn new_task_is_polled_eagerly_once() {
    let mut e: Executor<Countdown> = Executor::new();
    let id = e.spawn(Countdown::new(0));
    assert_eq!(e.step(), StepOutcome::Completed { id });
    assert_eq!(e.task_count(), 0);
}

#[test]
fn free_spawn_queues_like_the_method() {
    let mut e: Executor<Countdown> = Executor::new();
    spawn(&mut e, Countdown::new(0));
    assert_eq!(e.task_count(), 1);
    assert_eq!(e.step(), StepOutcome::Completed { id: 0 });
    assert_eq!(e.task_count(), 0);
}

#[test]
fn ready_queue_pops_most_recent_first() {
    let mut e: Executor<Countdown> = Executor::new();
    let a = e.spawn(Countdown::new(1));
    let b = e.spawn(Countdown::new(1));
    assert_eq!(e.step(), StepOutcome::Pending { id: b });
    assert_eq!(e.step(), StepOutcome::Pending { id: a });
    assert_eq!(e.step(), StepOutcome::Idle);
    assert_eq!(e.task_count(), 2);
}

#[test]
fn woken_tasks_run_to_completion() {
    let mut e: Executor<Countdown> = Executor::new();
    let a = e.spawn(Countdown::new(1));
    let b = e.spawn(Countdown::new(1));
    e.run_ready();
    assert_eq!(e.task_count(), 2);
    let wa = e.get_waker(a);
    let wb = e.get_waker(b);
    e.wake(&wa);
    e.wake(&wb);
    e.run_ready();
    assert_eq!(e.task_count(), 0);
}

#[test]
fn spurious_wake_is_noop() {
    let mut e: Executor<Countdown> = Executor::new();
    let id = e.spawn(Countdown::new(0));
    assert_eq!(e.step(), StepOutcome::Completed { id });
    assert_eq!(e.task_count(), 0);
    let w = e.get_waker(id);
    e.wake(&w);
    e.wake(&w);
    assert_eq!(e.step(), StepOutcome::Spurious { id });
    assert_eq!(e.step(), StepOutcome::Spurious { id });
    assert_eq!(e.step(), StepOutcome::Idle);
    assert_eq!(e.task_count(), 0);
}

#[test]
fn completed_task_is_never_polled_again() {
    let mut e: Executor<Countdown> = Executor::new();
    let early = e.spawn(Countdown::new(0));
    let late = e.spawn(Countdown::new(2));
    assert_eq!(e.step(), StepOutcome::Pending { id: late });
    assert_eq!(e.step(), StepOutcome::Completed { id: early });
    let w = e.get_waker(early);
    e.wake(&w);
    assert_eq!(e.step(), StepOutcome::Spurious { id: early });
    let wl = e.get_waker(late);
    e.wake(&wl);
    assert_eq!(e.step(), StepOutcome::Pending { id: late });
    e.wake(&wl);
    assert_eq!(e.step(), StepOutcome::Completed { id: late });
    assert_eq!(e.task_count(), 0);
}

#[test]
fn wake_of_unknown_id_is_skipped() {
    let mut e: Executor<Countdown> = Executor::new();
    let w = e.get_waker(42);
    e.wake(&w);
    assert_eq!(e.step(), StepOutcome::Spurious { id: 42 });
    assert_eq!(e.step(), StepOutcome::Idle);
}

#[test]
fn pop_ready_on_empty_queue_is_none() {
    let mut e: Executor<Countdown> = Executor::new();
    assert_eq!(e.pop_ready(), None);
    let id = e.spawn(Countdown::new(0));
    assert_eq!(e.pop_ready(), Some(id));
    assert_eq!(e.pop_ready(), None);
}

#[test]
fn eager_first_poll_skips_the_table_when_ready() {
    let mut e: Executor<Countdown> = Executor::new();
    assert_eq!(e.block_on_start(Countdown::new(0)), None);
    assert_eq!(e.task_count(), 0);
    assert_eq!(e.block_on_start(Countdown::new(2)), Some(0));
    assert_eq!(e.task_count(), 1);
    let w = e.get_waker(0);
    e.wake(&w);
    assert_eq!(e.step(), StepOutcome::Pending { id: 0 });
    e.wake(&w);
    assert_eq!(e.step(), StepOutcome::Completed { id: 0 });
}

#[test]
fn removed_future_leaves_its_slot_vacant() {
    let mut e: Executor<Countdown> = Executor::new();
    let id = e.spawn(Countdown::new(3));
    let taken = e.get_future(id);
    assert!(taken.is_some());
    assert!(e.get_future(id).is_none());
    assert_eq!(e.task_count(), 0);
    e.insert_task(id, taken.unwrap());
    assert_eq!(e.task_count(), 1);
    assert!(e.get_future(7).is_none());
}

#[test]
fn waker_reports_its_task_id() {
    let mut e: Executor<Countdown> = Executor::new();
    let w = e.get_waker(7);
    assert_eq!(w.id(), 7);
}
