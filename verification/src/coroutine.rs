//! The sequential composite shape: a tagged state machine that waits on
//! exactly one sub-task at a time and advances its tag when that
//! sub-task completes.  One poll may cross several tags — if the first
//! sub-task is Ready at once, the second is tried in the same call —
//! but once the current sub-task reports NotReady the poll stops there:
//! no later stage is touched.

use vstd::prelude::*;

use crate::executor::Waker;
use crate::future::{Future, PollState};

verus! {

/// Where the sequential state machine stands.
#[derive(Clone, Copy, PartialEq, Eq, Structural, Debug)]
pub enum Stage {
    /// Nothing run yet; the first poll moves on to the first wait.
    Start,
    /// Waiting on the first sub-task.
    Wait1,
    /// The first sub-task is done; waiting on the second.
    Wait2,
    /// Both sub-tasks are done.  Polling here is a programming error.
    Resolved,
}

/// A two-stage sequential task: wait for the first sub-task, then for
/// the second, then resolve with the second one's output.
pub struct Coroutine<F: Future> {
    stage: Stage,
    first: Option<F>,
    second: Option<F>,
}

impl<F: Future> Coroutine<F> {
    /// The tag of the state machine.
    pub closed spec fn stage_view(&self) -> Stage {
        self.stage
    }

    /// The first stage's sub-task, while it is still held.
    pub closed spec fn first_view(&self) -> Option<F> {
        self.first
    }

    /// The second stage's sub-task, while it is still held.
    pub closed spec fn second_view(&self) -> Option<F> {
        self.second
    }

    /// Each tag holds exactly the sub-tasks of the stages still to run,
    /// and every held sub-task may still be polled.
    pub open spec fn wf(&self) -> bool {
        match self.stage_view() {
            Stage::Start | Stage::Wait1 => {
                &&& self.first_view() is Some
                &&& self.first_view()->0.pollable()
                &&& self.second_view() is Some
                &&& self.second_view()->0.pollable()
            },
            Stage::Wait2 => {
                &&& self.first_view() is None
                &&& self.second_view() is Some
                &&& self.second_view()->0.pollable()
            },
            Stage::Resolved => self.first_view() is None && self.second_view() is None,
        }
    }

    /// The tag the state machine currently stands at.
    pub fn stage(&self) -> (s: Stage)
        ensures
            s == self.stage_view(),
    {
        self.stage
    }

    /// A fresh sequential task at its start tag, holding both stages.
    pub fn new(first: F, second: F) -> (c: Coroutine<F>)
        requires
            first.pollable(),
            second.pollable(),
        ensures
            c.wf(),
            c.stage_view() is Start,
            c.first_view() == Some(first),
            c.second_view() == Some(second),
    {
        Coroutine { stage: Stage::Start, first: Some(first), second: Some(second) }
    }
}

impl<F: Future> Future for Coroutine<F> {
    type Output = F::Output;

    /// Pollable until resolved: polling past completion is the caller's
    /// error and is ruled out here rather than tolerated.
    open spec fn pollable(&self) -> bool {
        self.wf() && !(self.stage_view() is Resolved)
    }

    /// Polls only the current stage's sub-task.  If it reports
    /// NotReady, so does this poll, at once: a later stage's sub-task
    /// is neither polled nor replaced during the same call.  When the
    /// current sub-task completes, the tag advances and the next stage
    /// is tried within the same poll; the second stage's output is the
    /// whole task's output.
    fn poll(&mut self, waker: &Waker) -> (r: PollState<F::Output>)
        ensures
            r is Ready ==> final(self).stage_view() is Resolved && final(self).wf(),
            r is NotReady ==> !(final(self).stage_view() is Resolved),
            r is NotReady && final(self).stage_view() is Wait1 ==> final(self).second_view() == old(
                self,
            ).second_view(),
            (old(self).stage_view() is Start || old(self).stage_view() is Wait1) && r is NotReady
                ==> final(self).stage_view() is Wait1 || final(self).stage_view() is Wait2,
            old(self).stage_view() is Wait2 ==> final(self).first_view() == old(self).first_view()
                && (r is NotReady ==> final(self).stage_view() is Wait2),
    {
        if self.stage == Stage::Start {
            self.stage = Stage::Wait1;
        }
        if self.stage == Stage::Wait1 {
            let done = match &mut self.first {
                Some(f) => {
                    match f.poll(waker) {
                        PollState::Ready(_) => true,
                        PollState::NotReady => false,
                    }
                },
                None => unreached(),
            };
            if !done {
                return PollState::NotReady;
            }
            self.first = None;
            self.stage = Stage::Wait2;
        }
        let out = match &mut self.second {
            Some(f) => {
                match f.poll(waker) {
                    PollState::Ready(out) => Some(out),
                    PollState::NotReady => None,
                }
            },
            None => unreached(),
        };
        match out {
            Some(out) => {
                self.second = None;
                self.stage = Stage::Resolved;
                PollState::Ready(out)
            },
            None => PollState::NotReady,
        }
    }
}

} // verus!
