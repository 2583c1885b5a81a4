//! The executor: a task table keyed by task id, a ready queue of ids
//! awaiting a poll, and the wakeup handle bound to one task id.
//!
//! The table is an arena: a task's id is its index, ids are handed out
//! monotonically, and a finished task leaves a vacant slot behind.  The
//! ready queue is drained last-in-first-out.  A queued id whose slot is
//! vacant is a spurious wakeup and pops as a no-op.

use vstd::prelude::*;

use crate::future::{Future, PollState};

verus! {

/// A wakeup handle bound to one task id.  Invoking it (through
/// `Executor::wake`) pushes the id onto the executor's ready queue; the
/// unparking of the executor's thread is the embedding program's part.
#[derive(Clone, Copy, PartialEq, Eq, Structural, Debug)]
pub struct Waker {
    pub id: usize,
}

impl Waker {
    /// The task id this handle wakes.
    pub fn id(&self) -> (r: usize)
        ensures
            r == self.id,
    {
        self.id
    }
}

/// True when `id` does not name a live task: it lies outside the table,
/// or its slot has been emptied.
pub open spec fn slot_vacant<F>(tasks: Seq<Option<F>>, id: int) -> bool {
    !(0 <= id < tasks.len()) || tasks[id] is None
}

/// How many slots of the table hold a live task.
pub open spec fn live_count<F>(tasks: Seq<Option<F>>) -> int
    decreases tasks.len(),
{
    if tasks.len() == 0 {
        0
    } else {
        live_count(tasks.drop_last()) + if tasks.last() is Some {
            1int
        } else {
            0int
        }
    }
}

/// What a popped ready-queue entry led to: a vacant slot (a spurious
/// wakeup, skipped), a task that parked again, or a task that resolved.
#[derive(Clone, Copy, PartialEq, Eq, Structural, Debug)]
pub enum StepOutcome {
    /// The ready queue was empty; nothing was done.
    Idle,
    /// The popped id had no live task behind it; skipped.
    Spurious { id: usize },
    /// The task was polled and reported `NotReady`; it was put back.
    Pending { id: usize },
    /// The task was polled and resolved; its slot is now vacant.
    Completed { id: usize },
}

/// The state a spurious wakeup leaves behind: the queue entry is gone,
/// the task table is untouched.
pub open spec fn spurious_step<F>(
    tasks: Seq<Option<F>>,
    ready: Seq<usize>,
) -> (Seq<Option<F>>, Seq<usize>) {
    (tasks, ready.drop_last())
}

/// Per-thread scheduler state: the task table and the ready queue.
pub struct Executor<F: Future> {
    tasks: Vec<Option<F>>,
    ready: Vec<usize>,
}

impl<F: Future> Executor<F> {
    /// The task table: slot `id` holds the task spawned under `id`, or
    /// nothing once that task resolved.
    pub closed spec fn tasks_view(&self) -> Seq<Option<F>> {
        self.tasks@
    }

    /// The ready queue, oldest entry first; the last entry pops next.
    pub closed spec fn ready_view(&self) -> Seq<usize> {
        self.ready@
    }

    /// Every live task may legitimately be polled.
    pub open spec fn wf(&self) -> bool {
        forall|i: int|
            0 <= i < self.tasks_view().len() && self.tasks_view()[i] is Some
                ==> (#[trigger] self.tasks_view()[i])->0.pollable()
    }

    /// A fresh executor: no tasks, nothing ready.
    pub fn new() -> (e: Executor<F>)
        ensures
            e.wf(),
            e.tasks_view() == Seq::<Option<F>>::empty(),
            e.ready_view() == Seq::<usize>::empty(),
    {
        let e = Executor { tasks: Vec::new(), ready: Vec::new() };
        proof {
            assert(e.tasks@ =~= Seq::<Option<F>>::empty());
            assert(e.ready@ =~= Seq::<usize>::empty());
        }
        e
    }

    /// Inserts the task under a fresh id — the next table index — and
    /// queues that id, so every new task is polled eagerly once.
    pub fn spawn(&mut self, future: F) -> (id: usize)
        requires
            old(self).wf(),
            future.pollable(),
        ensures
            final(self).wf(),
            id == old(self).tasks_view().len(),
            final(self).tasks_view() == old(self).tasks_view().push(Some(future)),
            final(self).ready_view() == old(self).ready_view().push(id),
    {
        let id = self.tasks.len();
        self.tasks.push(Some(future));
        self.ready.push(id);
        id
    }

    /// Pops the most recently queued ready id, if any.
    pub fn pop_ready(&mut self) -> (r: Option<usize>)
        ensures
            final(self).tasks_view() == old(self).tasks_view(),
            old(self).ready_view().len() == 0 ==> r is None && final(self).ready_view()
                == old(self).ready_view(),
            old(self).ready_view().len() > 0 ==> r == Some(old(self).ready_view().last())
                && final(self).ready_view() == old(self).ready_view().drop_last(),
    {
        self.ready.pop()
    }

    /// Removes and returns the task behind `id`, leaving the slot
    /// vacant.  An id with no live task behind it yields nothing.
    pub fn get_future(&mut self, id: usize) -> (r: Option<F>)
        ensures
            final(self).ready_view() == old(self).ready_view(),
            slot_vacant(old(self).tasks_view(), id as int) ==> r is None
                && final(self).tasks_view() == old(self).tasks_view(),
            !slot_vacant(old(self).tasks_view(), id as int) ==> r == old(
                self,
            ).tasks_view()[id as int] && final(self).tasks_view() == old(self).tasks_view().update(
                id as int,
                None,
            ),
    {
        if id < self.tasks.len() {
            let mut slot: Option<F> = None;
            core::mem::swap(&mut self.tasks[id], &mut slot);
            proof {
                if old(self).tasks@[id as int] is None {
                    assert(self.tasks@ =~= old(self).tasks@);
                }
            }
            slot
        } else {
            None
        }
    }

    /// A fresh wakeup handle bound to `id`.
    pub fn get_waker(&self, id: usize) -> (w: Waker)
        ensures
            w.id == id,
    {
        Waker { id }
    }

    /// Puts a task that reported `NotReady` back into its slot.
    pub fn insert_task(&mut self, id: usize, task: F)
        requires
            id < old(self).tasks_view().len(),
            old(self).tasks_view()[id as int] is None,
            task.pollable(),
        ensures
            final(self).ready_view() == old(self).ready_view(),
            final(self).tasks_view() == old(self).tasks_view().update(id as int, Some(task)),
    {
        self.tasks[id] = Some(task);
    }

    /// Counts the live tasks; the executor is done when this is zero.
    pub fn task_count(&self) -> (n: usize)
        ensures
            n == live_count(self.tasks_view()),
    {
        let mut n: usize = 0;
        let mut i: usize = 0;
        while i < self.tasks.len()
            invariant
                i <= self.tasks@.len(),
                n <= i,
                n == live_count(self.tasks@.take(i as int)),
            decreases self.tasks@.len() - i,
        {
            proof {
                assert(self.tasks@.take(i + 1).drop_last() =~= self.tasks@.take(i as int));
                assert(self.tasks@.take(i + 1).last() == self.tasks@[i as int]);
            }
            if self.tasks[i].is_some() {
                n = n + 1;
            }
            i = i + 1;
        }
        proof {
            assert(self.tasks@.take(self.tasks@.len() as int) =~= self.tasks@);
        }
        n
    }

    /// What a `Waker` does on its queue side: the bound id is pushed
    /// onto the ready queue, even if it is already there, and even if
    /// the task is long gone — a spurious entry pops as a no-op.
    pub fn wake(&mut self, waker: &Waker)
        ensures
            final(self).tasks_view() == old(self).tasks_view(),
            final(self).ready_view() == old(self).ready_view().push(waker.id),
    {
        self.ready.push(waker.id);
    }

    /// One turn of the scheduling loop: pop a ready id and act on it.
    ///
    /// Only an occupied slot is ever polled; a resolved task's slot is
    /// left vacant and the task is dropped, so it can never be polled
    /// again; a task that parked is put back unchanged in place.
    pub fn step(&mut self) -> (r: StepOutcome)
        requires
            old(self).wf(),
        ensures
            final(self).wf(),
            r is Idle <==> old(self).ready_view().len() == 0,
            r is Idle ==> final(self).tasks_view() == old(self).tasks_view()
                && final(self).ready_view() == old(self).ready_view(),
            !(r is Idle) ==> final(self).ready_view() == old(self).ready_view().drop_last(),
            old(self).ready_view().len() > 0 && slot_vacant(
                old(self).tasks_view(),
                old(self).ready_view().last() as int,
            ) ==> r == (StepOutcome::Spurious { id: old(self).ready_view().last() }),
            r matches StepOutcome::Spurious { id } ==> id == old(self).ready_view().last()
                && slot_vacant(old(self).tasks_view(), id as int) && (
            final(self).tasks_view(),
            final(self).ready_view(),
            ) == spurious_step(old(self).tasks_view(), old(self).ready_view()),
            r matches StepOutcome::Pending { id } ==> id == old(self).ready_view().last() && !
            slot_vacant(old(self).tasks_view(), id as int) && final(self).tasks_view().len()
                == old(self).tasks_view().len() && final(self).tasks_view()[id as int] is Some && (
            forall|j: int|
                0 <= j < old(self).tasks_view().len() && j != id ==> final(self).tasks_view()[j]
                    == old(self).tasks_view()[j]),
            r matches StepOutcome::Completed { id } ==> id == old(self).ready_view().last() && !
            slot_vacant(old(self).tasks_view(), id as int) && final(self).tasks_view() == old(
                self,
            ).tasks_view().update(id as int, None),
    {
        let popped = self.pop_ready();
        match popped {
            None => StepOutcome::Idle,
            Some(id) => {
                match self.get_future(id) {
                    None => StepOutcome::Spurious { id },
                    Some(mut future) => {
                        let waker = self.get_waker(id);
                        match future.poll(&waker) {
                            PollState::NotReady => {
                                self.insert_task(id, future);
                                StepOutcome::Pending { id }
                            },
                            PollState::Ready(_) => StepOutcome::Completed { id },
                        }
                    },
                }
            },
        }
    }

    /// The opening move of driving a task to completion: poll it once,
    /// eagerly, under a wakeup handle bound to no real task.  A task
    /// that resolves on that very first poll is never inserted at all;
    /// one that parks is spawned as usual and its fresh id returned.
    pub fn block_on_start(&mut self, future: F) -> (spawned: Option<usize>)
        requires
            old(self).wf(),
            future.pollable(),
        ensures
            final(self).wf(),
            spawned is None ==> final(self).tasks_view() == old(self).tasks_view()
                && final(self).ready_view() == old(self).ready_view(),
            spawned matches Some(id) ==> {
                &&& id == old(self).tasks_view().len()
                &&& final(self).tasks_view().len() == old(self).tasks_view().len() + 1
                &&& final(self).tasks_view()[id as int] is Some
                &&& final(self).ready_view() == old(self).ready_view().push(id)
                &&& forall|j: int|
                    0 <= j < old(self).tasks_view().len() ==> final(self).tasks_view()[j] == old(
                        self,
                    ).tasks_view()[j]
            },
    {
        let waker = self.get_waker(usize::MAX);
        let mut future = future;
        match future.poll(&waker) {
            PollState::Ready(_) => None,
            PollState::NotReady => Some(self.spawn(future)),
        }
    }

    /// Drains the ready queue: steps until nothing is ready.  Every
    /// turn pops one entry and pushes none, so the queue runs dry; and
    /// no task whose slot was vacant when the drain began — resolved,
    /// or never spawned — is revived or polled along the way.
    pub fn run_ready(&mut self)
        requires
            old(self).wf(),
        ensures
            final(self).wf(),
            final(self).ready_view().len() == 0,
            final(self).tasks_view().len() == old(self).tasks_view().len(),
            forall|id: int|
                slot_vacant(old(self).tasks_view(), id) ==> slot_vacant(
                    final(self).tasks_view(),
                    id,
                ),
    {
        while self.ready.len() > 0
            invariant
                self.wf(),
                self.tasks_view().len() == old(self).tasks_view().len(),
                forall|id: int|
                    slot_vacant(old(self).tasks_view(), id) ==> slot_vacant(
                        self.tasks_view(),
                        id,
                    ),
            decreases self.ready@.len(),
        {
            let ghost before = self.tasks_view();
            let outcome = self.step();
            proof {
                assert forall|id: int| slot_vacant(before, id) implies slot_vacant(
                    self.tasks_view(),
                    id,
                ) by {
                    match outcome {
                        StepOutcome::Pending { id: polled } => {
                            if id != polled && 0 <= id < before.len() {
                                assert(self.tasks_view()[id] == before[id]);
                            }
                        },
                        StepOutcome::Completed { id: polled } => {
                            if id != polled && 0 <= id < before.len() {
                                assert(self.tasks_view()[id] == before[id]);
                            }
                        },
                        _ => {},
                    }
                }
            }
        }
    }
}

/// Spawns a task on the given executor: it is inserted under a fresh id
/// and that id is queued, so the task is polled eagerly once.
pub fn spawn<F: Future>(executor: &mut Executor<F>, future: F)
    requires
        old(executor).wf(),
        future.pollable(),
    ensures
        final(executor).wf(),
        final(executor).tasks_view() == old(executor).tasks_view().push(Some(future)),
        final(executor).ready_view() == old(executor).ready_view().push(
            old(executor).tasks_view().len() as usize,
        ),
{
    let _ = executor.spawn(future);
}

/// Pushing the id of an already-removed task onto the ready queue twice
/// is harmless: both entries pop as spurious no-ops, the task table is
/// untouched, and nothing resolves a second time.
pub proof fn lemma_spurious_wake_idempotent<F: Future>(
    tasks: Seq<Option<F>>,
    ready: Seq<usize>,
    id: usize,
)
    requires
        slot_vacant(tasks, id as int),
    ensures
        ({
            let (t1, q1) = spurious_step(tasks, ready.push(id).push(id));
            let (t2, q2) = spurious_step(t1, q1);
            t2 == tasks && q2 == ready && slot_vacant(t2, id as int)
        }),
{
    assert(ready.push(id).push(id).drop_last() =~= ready.push(id));
    assert(ready.push(id).drop_last() =~= ready);
}

/// Once a task has resolved its slot is vacant, and no later turn of the
/// scheduler fills it again on its behalf: reinserting a parked task or
/// emptying another slot touches only that other slot, and spawning
/// appends a fresh slot.  Since only occupied slots are ever polled, a
/// resolved task is never polled again.
pub proof fn lemma_vacant_slot_stays_vacant<F: Future>(
    tasks: Seq<Option<F>>,
    id: int,
    other: int,
    task: F,
)
    requires
        0 <= id,
        slot_vacant(tasks, id),
        other != id,
        0 <= other < tasks.len(),
    ensures
        slot_vacant(tasks.update(other, Some(task)), id),
        slot_vacant(tasks.update(other, None), id),
        slot_vacant(tasks.push(Some(task)), id) || id == tasks.len(),
{
    if id < tasks.len() {
        assert(tasks.update(other, Some(task))[id] == tasks[id]);
        assert(tasks.update(other, None)[id] == tasks[id]);
    }
}

} // verus!
