//! The reactor: a table mapping an interest id to the most recently
//! stored wakeup handle, the set of ids currently registered with the
//! readiness multiplexer, and the monotonic counter that hands out
//! fresh interest ids.
//!
//! The blocking side — the dedicated thread that waits on the
//! multiplexer and, for every readiness event, looks the id up here and
//! invokes the handle — is the embedding program's part; this type holds
//! the bookkeeping it decides by.

use vstd::prelude::*;

use crate::executor::{Executor, Waker};
use crate::future::Future;
use vstd::hash_map::HashMapWithView;
use vstd::hash_set::HashSetWithView;

verus! {

/// What the reactor's loop does with one readiness event: resolve the
/// event's token to the stored wakeup handle and invoke it — its task
/// id is pushed onto the executor's ready queue — or, if no handle is
/// stored (the task already completed and deregistered), ignore the
/// event silently.  No event ever wakes a task other than the one whose
/// handle is stored under its token.
pub fn dispatch_event<F: Future>(
    reactor: &Reactor,
    executor: &mut Executor<F>,
    token: usize,
) -> (woken: Option<usize>)
    ensures
        final(executor).tasks_view() == old(executor).tasks_view(),
        reactor.wakers_view().contains_key(token) ==> woken == Some(
            reactor.wakers_view()[token].id,
        ) && final(executor).ready_view() == old(executor).ready_view().push(
            reactor.wakers_view()[token].id,
        ),
        !reactor.wakers_view().contains_key(token) ==> woken is None
            && final(executor).ready_view() == old(executor).ready_view(),
{
    match reactor.waker_for(token) {
        Some(waker) => {
            executor.wake(&waker);
            Some(waker.id())
        },
        None => None,
    }
}

/// Reactor bookkeeping: waker table, registered interest ids, and the
/// id counter.
pub struct Reactor {
    wakers: HashMapWithView<usize, Waker>,
    registered: HashSetWithView<usize>,
    next_id: usize,
}

impl Reactor {
    /// The waker table: at most one stored handle per interest id;
    /// storing overwrites, never merges.
    pub closed spec fn wakers_view(&self) -> Map<usize, Waker> {
        self.wakers@
    }

    /// The interest ids currently registered with the multiplexer.
    pub closed spec fn registered_view(&self) -> Set<usize> {
        self.registered@
    }

    /// The next interest id to hand out.
    pub closed spec fn counter(&self) -> usize {
        self.next_id
    }

    /// Ids are handed out from 1 upward, and everything registered or
    /// holding a waker was handed out earlier, so a fresh id collides
    /// with nothing.
    pub open spec fn wf(&self) -> bool {
        &&& 1 <= self.counter()
        &&& forall|id: usize| self.registered_view().contains(id) ==> id < self.counter()
        &&& forall|id: usize| self.wakers_view().contains_key(id) ==> id < self.counter()
    }

    /// A fresh reactor: nothing registered, no wakers stored, and the
    /// id counter starting at 1.
    pub fn new() -> (r: Reactor)
        ensures
            r.wf(),
            r.wakers_view() == Map::<usize, Waker>::empty(),
            r.registered_view() == Set::<usize>::empty(),
            r.counter() == 1,
    {
        Reactor {
            wakers: HashMapWithView::new(),
            registered: HashSetWithView::new(),
            next_id: 1,
        }
    }

    /// Hands out a fresh interest id: the counter's current value, with
    /// the counter moved past it.  Ids are process-wide monotonic and
    /// never handed out twice.
    pub fn next_id(&mut self) -> (id: usize)
        requires
            old(self).wf(),
            old(self).counter() < usize::MAX,
        ensures
            final(self).wf(),
            id == old(self).counter(),
            final(self).counter() == id + 1,
            final(self).wakers_view() == old(self).wakers_view(),
            final(self).registered_view() == old(self).registered_view(),
            !final(self).registered_view().contains(id),
            !final(self).wakers_view().contains_key(id),
    {
        let id = self.next_id;
        self.next_id = self.next_id + 1;
        proof {
            assert(self.registered@ == old(self).registered@);
            assert(self.wakers@ == old(self).wakers@);
            assert(old(self).registered_view().contains(id) ==> id < old(self).counter());
            assert(old(self).wakers_view().contains_key(id) ==> id < old(self).counter());
        }
        id
    }

    /// Records that the given interest id is now registered with the
    /// multiplexer.  Registering an id twice is an OS error, so a live
    /// registration rules the id out.
    pub fn register(&mut self, id: usize)
        requires
            old(self).wf(),
            !old(self).registered_view().contains(id),
            id < old(self).counter(),
        ensures
            final(self).wf(),
            final(self).registered_view() == old(self).registered_view().insert(id),
            final(self).wakers_view() == old(self).wakers_view(),
            final(self).counter() == old(self).counter(),
    {
        let _ = self.registered.insert(id);
        proof {
            assert forall|x: usize| self.registered@.contains(x) implies x < self.next_id by {
                if x != id {
                    assert(old(self).registered@.contains(x));
                    assert(old(self).registered_view().contains(x) ==> x < old(self).counter());
                }
            }
            assert forall|x: usize| self.wakers@.contains_key(x) implies x < self.next_id by {
                assert(old(self).wakers_view().contains_key(x) ==> x < old(self).counter());
            }
        }
    }

    /// Stores the given wakeup handle for the given interest id, always
    /// replacing any previously stored one: a task may be polled several
    /// times before data arrives, each time handing in a handle bound to
    /// a possibly different executor thread, and only the most recent
    /// one may be invoked.
    pub fn set_waker(&mut self, waker: &Waker, id: usize)
        requires
            old(self).wf(),
            id < old(self).counter(),
        ensures
            final(self).wf(),
            final(self).wakers_view() == old(self).wakers_view().insert(id, *waker),
            final(self).registered_view() == old(self).registered_view(),
            final(self).counter() == old(self).counter(),
    {
        self.wakers.insert(id, *waker);
        proof {
            assert forall|x: usize| self.wakers@.contains_key(x) implies x < self.next_id by {
                if x == id {
                    assert(old(self).counter() == old(self).next_id);
                } else {
                    assert(old(self).wakers@.contains_key(x));
                    assert(old(self).wakers_view().contains_key(x) ==> x < old(self).counter());
                }
            }
            assert forall|x: usize| self.registered@.contains(x) implies x < self.next_id by {
                assert(old(self).registered_view().contains(x) ==> x < old(self).counter());
            }
        }
    }

    /// Removes the waker stored for the given interest id, then records
    /// that the id is no longer registered with the multiplexer.
    pub fn deregister(&mut self, id: usize)
        requires
            old(self).wf(),
            old(self).registered_view().contains(id),
        ensures
            final(self).wf(),
            final(self).wakers_view() == old(self).wakers_view().remove(id),
            final(self).registered_view() == old(self).registered_view().remove(id),
            final(self).counter() == old(self).counter(),
    {
        let _ = self.wakers.remove(&id);
        let _ = self.registered.remove(&id);
        proof {
            if !old(self).wakers_view().contains_key(id) {
                assert(self.wakers@ =~= old(self).wakers_view().remove(id));
            }
        }
    }

    /// At most one wakeup handle is ever stored per interest id:
    /// storing a second one for the same id replaces the first outright,
    /// as if the first had never been stored.
    pub proof fn lemma_waker_overwrite(
        wakers: Map<usize, Waker>,
        id: usize,
        first: Waker,
        second: Waker,
    )
        ensures
            wakers.insert(id, first).insert(id, second) == wakers.insert(id, second),
    {
        assert(wakers.insert(id, first).insert(id, second) =~= wakers.insert(id, second));
    }

    /// Whether the given interest id is currently registered with the
    /// multiplexer.
    pub fn is_registered(&self, id: usize) -> (r: bool)
        ensures
            r == self.registered_view().contains(id),
    {
        self.registered.contains(&id)
    }

    /// Looks up the wakeup handle stored for an interest id, as the
    /// reactor's loop does for every readiness event.  An id with no
    /// stored handle — a task that already completed and deregistered —
    /// yields nothing, and the event is to be ignored silently: no
    /// unrelated task may be woken for it.
    pub fn waker_for(&self, id: usize) -> (r: Option<Waker>)
        ensures
            match r {
                Some(w) => self.wakers_view().contains_key(id) && w == self.wakers_view()[id],
                None => !self.wakers_view().contains_key(id),
            },
    {
        match self.wakers.get(&id) {
            Some(w) => Some(*w),
            None => None,
        }
    }
}

} // verus!
