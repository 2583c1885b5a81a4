//! The poll contract — the result of advancing a task and the trait that
//! every task implements — the simplest task obeying it, and the
//! fan-out/join composite shape, which holds N sub-tasks and resolves
//! once every one of them has resolved.

use vstd::prelude::*;

use crate::executor::Waker;

verus! {

/// What one attempt to advance a task reports: either the task's final
/// output, or "not ready yet" (the task has parked itself and arranged
/// to be woken).
pub enum PollState<T> {
    Ready(T),
    NotReady,
}

/// A unit of suspendable work.
///
/// `poll` attempts to make progress and must not block.  A task may only
/// be polled while `pollable` holds; a task that reports `NotReady` is
/// still pollable, so the executor may try it again after a wakeup.
/// Polling past a final state is a programming error, which each
/// implementor rules out through its `pollable` condition.
pub trait Future: Sized {
    type Output;

    /// When the task may legitimately be polled.
    spec fn pollable(&self) -> bool;

    fn poll(&mut self, waker: &Waker) -> (r: PollState<Self::Output>)
        requires
            old(self).pollable(),
        ensures
            r is NotReady ==> final(self).pollable(),
    ;
}

/// A task that parks a fixed number of times before resolving with an
/// empty output: the simplest shape obeying the poll contract, useful
/// to drive the executor and the composite shapes without any I/O.
pub struct Countdown {
    remaining: usize,
}

impl Countdown {
    /// How many more polls will report NotReady.
    pub closed spec fn remaining_view(&self) -> usize {
        self.remaining
    }

    /// A task that reports NotReady `remaining` times, then Ready.
    pub fn new(remaining: usize) -> (c: Countdown)
        ensures
            c.remaining_view() == remaining,
    {
        Countdown { remaining }
    }
}

impl Future for Countdown {
    type Output = String;

    /// A countdown tolerates being polled in any state.
    open spec fn pollable(&self) -> bool {
        true
    }

    /// Counts one park down, or resolves once nothing is left.
    fn poll(&mut self, waker: &Waker) -> (r: PollState<String>)
        ensures
            r is Ready <==> old(self).remaining_view() == 0,
            old(self).remaining_view() > 0 ==> final(self).remaining_view() == old(
                self,
            ).remaining_view() - 1,
            old(self).remaining_view() == 0 ==> final(self).remaining_view() == 0,
    {
        if self.remaining == 0 {
            PollState::Ready(String::new())
        } else {
            self.remaining = self.remaining - 1;
            PollState::NotReady
        }
    }
}

/// How many slots of a join have completed (their flag is set).
pub open spec fn finished_of<F>(slots: Seq<(bool, F)>) -> int
    decreases slots.len(),
{
    if slots.len() == 0 {
        0
    } else {
        finished_of(slots.drop_last()) + if slots.last().0 {
            1int
        } else {
            0int
        }
    }
}

proof fn lemma_finished_of_bounds<F>(slots: Seq<(bool, F)>)
    ensures
        0 <= finished_of(slots) <= slots.len(),
        forall|i: int|
            0 <= i < slots.len() && !(#[trigger] slots[i]).0 ==> finished_of(slots) < slots.len(),
    decreases slots.len(),
{
    if slots.len() > 0 {
        lemma_finished_of_bounds(slots.drop_last());
        assert forall|i: int| 0 <= i < slots.len() && !(#[trigger] slots[i]).0 implies finished_of(
            slots,
        ) < slots.len() by {
            if i < slots.len() - 1 {
                assert(slots.drop_last()[i] == slots[i]);
            }
        }
    }
}

proof fn lemma_finished_of_update<F>(slots: Seq<(bool, F)>, i: int, p: (bool, F))
    requires
        0 <= i < slots.len(),
    ensures
        finished_of(slots.update(i, p)) == finished_of(slots) + (if p.0 {
            1int
        } else {
            0int
        }) - (if slots[i].0 {
            1int
        } else {
            0int
        }),
    decreases slots.len(),
{
    if i == slots.len() - 1 {
        assert(slots.update(i, p).drop_last() =~= slots.drop_last());
        assert(slots.update(i, p).last() == p);
    } else {
        assert(slots.update(i, p).drop_last() =~= slots.drop_last().update(i, p));
        assert(slots.update(i, p).last() == slots.last());
        lemma_finished_of_update(slots.drop_last(), i, p);
    }
}

/// The fan-out/join shape: an ordered list of sub-tasks, each with a
/// completion flag, and a running count of the completed ones.  Ready
/// only once the count equals the number of slots.
pub struct JoinAll<F: Future> {
    futures: Vec<(bool, F)>,
    finished_count: usize,
}

impl<F: Future> JoinAll<F> {
    /// The slots in order: a completion flag beside each sub-task.
    pub closed spec fn slots_view(&self) -> Seq<(bool, F)> {
        self.futures@
    }

    /// The running count of completed slots.
    pub closed spec fn finished(&self) -> int {
        self.finished_count as int
    }

    /// The count matches the flags, and every unfinished sub-task may
    /// still be polled.
    pub open spec fn wf(&self) -> bool {
        &&& self.finished() == finished_of(self.slots_view())
        &&& forall|i: int|
            0 <= i < self.slots_view().len() && !(#[trigger] self.slots_view()[i]).0
                ==> self.slots_view()[i].1.pollable()
    }
}

/// Wraps the given sub-tasks into a join: every slot starts unfinished,
/// in the order given, with the completed count at zero.
pub fn join_all<F: Future>(futures: Vec<F>) -> (j: JoinAll<F>)
    requires
        forall|i: int| 0 <= i < futures@.len() ==> (#[trigger] futures@[i]).pollable(),
    ensures
        j.wf(),
        j.finished() == 0,
        j.slots_view().len() == futures@.len(),
        forall|i: int| 0 <= i < futures@.len() ==> #[trigger] j.slots_view()[i] == (
        false,
        futures@[i],
        ),
{
    let ghost orig = futures@;
    let mut rest = futures;
    let mut slots: Vec<(bool, F)> = Vec::new();
    while rest.len() > 0
        invariant
            slots@.len() + rest@.len() == orig.len(),
            rest@ =~= orig.subrange(slots@.len() as int, orig.len() as int),
            forall|i: int| 0 <= i < slots@.len() ==> #[trigger] slots@[i] == (false, orig[i]),
            forall|i: int| 0 <= i < orig.len() ==> (#[trigger] orig[i]).pollable(),
            finished_of(slots@) == 0,
        decreases rest@.len(),
    {
        let f = rest.remove(0);
        proof {
            assert(orig[slots@.len() as int] == f);
            assert(slots@.push((false, f)).drop_last() =~= slots@);
        }
        slots.push((false, f));
    }
    proof {
        assert(slots@.len() == orig.len());
    }
    JoinAll { futures: slots, finished_count: 0 }
}

impl<F: Future> Future for JoinAll<F> {
    type Output = String;

    /// A join may always be polled while well formed; polling a
    /// completed join just reports Ready again.
    open spec fn pollable(&self) -> bool {
        self.wf()
    }

    /// One poll scans every not-yet-completed slot exactly once — an
    /// individual NotReady never stops the scan, so each remaining
    /// sub-task gets a chance to progress on the same poll — and reports
    /// Ready exactly when the completed count has reached the number of
    /// slots, in whatever order the slots resolved.
    fn poll(&mut self, waker: &Waker) -> (r: PollState<String>)
        ensures
            final(self).wf(),
            final(self).slots_view().len() == old(self).slots_view().len(),
            r is Ready <==> final(self).finished() == final(self).slots_view().len(),
            old(self).finished() <= final(self).finished(),
            forall|i: int|
                0 <= i < old(self).slots_view().len() && (#[trigger] old(self).slots_view()[i]).0
                    ==> final(self).slots_view()[i] == old(self).slots_view()[i],
    {
        let ghost orig = self.futures@;
        let n = self.futures.len();
        let mut i: usize = 0;
        while i < n
            invariant
                n == self.futures@.len(),
                n == orig.len(),
                i <= n,
                self.wf(),
                self.finished_count as int >= finished_of(orig),
                forall|j: int| i <= j < n ==> #[trigger] self.futures@[j] == orig[j],
                forall|j: int|
                    0 <= j < n && (#[trigger] orig[j]).0 ==> self.futures@[j] == orig[j],
            decreases n - i,
        {
            if !self.futures[i].0 {
                let ghost pre = self.futures@;
                let sub = self.futures[i].1.poll(waker);
                proof {
                    assert(self.futures@ =~= pre.update(i as int, self.futures@[i as int]));
                    lemma_finished_of_update(pre, i as int, self.futures@[i as int]);
                }
                match sub {
                    PollState::Ready(_) => {
                        let ghost cur = self.futures@;
                        proof {
                            lemma_finished_of_bounds(cur);
                            lemma_finished_of_update(cur, i as int, (true, cur[i as int].1));
                        }
                        self.futures[i].0 = true;
                        proof {
                            assert(self.futures@ =~= cur.update(i as int, (true, cur[i as int].1)));
                        }
                        self.finished_count = self.finished_count + 1;
                    },
                    PollState::NotReady => {},
                }
            }
            i = i + 1;
        }
        if self.finished_count == n {
            PollState::Ready(String::new())
        } else {
            PollState::NotReady
        }
    }
}

} // verus!
