//! The leaf I/O task: a non-blocking HTTP GET over a byte stream,
//! bridged into the poll contract.
//!
//! The sockets themselves stay outside this crate.  The embedding
//! program opens the connection, writes the request this module
//! renders, and reads; it reports each read's outcome here as a
//! [`ReadEvent`], and this state machine decides what follows: keep
//! draining, park with the current waker stored, resolve with the
//! decoded text, or fail.  The edge-triggered discipline — drain until
//! would-block, deregister exactly at end of stream — lives in these
//! transitions.

use vstd::prelude::*;

use crate::executor::Waker;
use crate::reactor::Reactor;
use vstd::string::StringExecFns;

verus! {

/// The request line and headers sent for a path: a minimal HTTP/1.1
/// GET against a local peer, asking it to close the stream after the
/// response, so end of stream means "response fully received".
pub open spec fn request_of(path: Seq<char>) -> Seq<char> {
    "GET "@ + path + " HTTP/1.1\r\nHost: localhost\r\nConnection: close\r\n\r\n"@
}

/// Renders the outbound request for a path.
pub fn get_req(path: &str) -> (r: String)
    ensures
        r@ == request_of(path@),
{
    let mut r = String::from_str("GET ");
    r.append(path);
    r.append(" HTTP/1.1\r\nHost: localhost\r\nConnection: close\r\n\r\n");
    proof {
        assert(r@ =~= request_of(path@));
    }
    r
}

/// What `String::from_utf8_lossy` yields on the given bytes; the
/// result depends on the bytes alone.
pub uninterp spec fn lossy_of(bytes: Seq<u8>) -> Seq<char>;

/// Relies on `String::from_utf8_lossy`: bytes that are valid UTF-8
/// decode exactly; invalid sequences are patched with the replacement
/// character.
#[verifier::external_body]
fn utf8_lossy(bytes: &Vec<u8>) -> (r: String)
    ensures
        r@ == lossy_of(bytes@),
        vstd::utf8::valid_utf8(bytes@) ==> r@ == vstd::utf8::decode_utf8(bytes@),
{
    String::from_utf8_lossy(bytes.as_slice()).into_owned()
}

/// What one non-blocking read of the stream reported, as observed by
/// the embedding program.
#[derive(Debug)]
pub enum ReadEvent {
    /// The read returned zero bytes: end of stream.
    Eof,
    /// The read returned these bytes (at least one).
    Data(Vec<u8>),
    /// The read would block: no data yet.
    WouldBlock,
    /// The read was interrupted; it is to be retried at once.
    Interrupted,
    /// The read failed with any other error: the task fails.
    Fatal,
}

/// What the leaf task asks its driver to do next.
#[derive(Debug)]
pub enum LeafStep {
    /// Keep draining: read again at once (edge-triggered sources must
    /// be read until they report would-block, or no further readiness
    /// notification will come).
    Continue,
    /// The task parked: the current waker is stored, report NotReady.
    Parked,
    /// End of stream: the task resolved with the accumulated bytes
    /// decoded as text.
    Done(String),
    /// The read failed; the failure is the caller's to surface.
    Failed,
}

/// Entry point for the leaf I/O task, named after the one operation it
/// offers.
pub struct Http;

impl Http {
    /// A fresh GET task for the given path, under a freshly allocated
    /// interest id.  Nothing is started yet: the connection is opened
    /// and the interest registered on the first advancement.
    pub fn get(path: &str, reactor: &mut Reactor) -> (f: HttpGetFuture)
        requires
            old(reactor).wf(),
            old(reactor).counter() < usize::MAX,
        ensures
            final(reactor).wf(),
            f.interest_id() == old(reactor).counter(),
            final(reactor).counter() == f.interest_id() + 1,
            final(reactor).wakers_view() == old(reactor).wakers_view(),
            final(reactor).registered_view() == old(reactor).registered_view(),
            !final(reactor).registered_view().contains(f.interest_id()),
            !final(reactor).wakers_view().contains_key(f.interest_id()),
            f.path_view() == path@,
            !f.started(),
            !f.done(),
            f.buffer_view() == Seq::<u8>::empty(),
    {
        let id = reactor.next_id();
        let f = HttpGetFuture {
            path: String::from_str(path),
            id,
            started: false,
            done: false,
            buffer: Vec::new(),
        };
        proof {
            assert(f.buffer@ =~= Seq::<u8>::empty());
        }
        f
    }
}

/// The leaf task's state: which path it fetches, the interest id it is
/// known by at the reactor, whether the operation has started and
/// whether it has finished, and the response bytes accumulated so far.
pub struct HttpGetFuture {
    path: String,
    id: usize,
    started: bool,
    done: bool,
    buffer: Vec<u8>,
}

impl HttpGetFuture {
    /// The path being fetched.
    pub closed spec fn path_view(&self) -> Seq<char> {
        self.path@
    }

    /// The interest id the task registers with the reactor.
    pub closed spec fn interest_id(&self) -> usize {
        self.id
    }

    /// Whether the operation has been started (the stream opened, the
    /// interest registered).
    pub closed spec fn started(&self) -> bool {
        self.started
    }

    /// Whether the task has resolved or failed.  A finished task is
    /// never advanced again.
    pub closed spec fn done(&self) -> bool {
        self.done
    }

    /// The response bytes accumulated so far.
    pub closed spec fn buffer_view(&self) -> Seq<u8> {
        self.buffer@
    }

    /// The interest id, for the driver's bookkeeping.
    pub fn id(&self) -> (r: usize)
        ensures
            r == self.interest_id(),
    {
        self.id
    }

    /// First advancement: marks the operation started, registers the
    /// task's interest id with the reactor — exactly once in the task's
    /// life — stores the waker for it, and renders the request for the
    /// driver to connect and send.
    pub fn start(&mut self, waker: &Waker, reactor: &mut Reactor) -> (request: String)
        requires
            !old(self).started(),
            !old(self).done(),
            old(reactor).wf(),
            !old(reactor).registered_view().contains(old(self).interest_id()),
            old(self).interest_id() < old(reactor).counter(),
        ensures
            final(self).started(),
            !final(self).done(),
            final(self).interest_id() == old(self).interest_id(),
            final(self).path_view() == old(self).path_view(),
            final(self).buffer_view() == old(self).buffer_view(),
            final(reactor).wf(),
            final(reactor).counter() == old(reactor).counter(),
            final(reactor).registered_view() == old(reactor).registered_view().insert(
                old(self).interest_id(),
            ),
            final(reactor).wakers_view() == old(reactor).wakers_view().insert(
                old(self).interest_id(),
                *waker,
            ),
            request@ == request_of(old(self).path_view()),
    {
        self.started = true;
        reactor.register(self.id);
        reactor.set_waker(waker, self.id);
        get_req(self.path.as_str())
    }

    /// Later advancement: folds one read outcome into the state.
    ///
    /// Bytes are appended and draining continues; an interrupted read
    /// is retried at once; would-block parks the task, storing the
    /// waker handed in on this very advancement (it may be bound to a
    /// different thread than the last one); end of stream resolves the
    /// task with the accumulated bytes decoded as text.  The interest
    /// id is deregistered exactly when the task finishes — at end of
    /// stream or on a failed read — and at no other step.
    pub fn advance_read(&mut self, event: ReadEvent, waker: &Waker, reactor: &mut Reactor) -> (step:
        LeafStep)
        requires
            old(self).started(),
            !old(self).done(),
            old(reactor).wf(),
            old(reactor).registered_view().contains(old(self).interest_id()),
            old(self).interest_id() < old(reactor).counter(),
        ensures
            final(self).started(),
            final(self).interest_id() == old(self).interest_id(),
            final(self).path_view() == old(self).path_view(),
            final(reactor).wf(),
            final(reactor).counter() == old(reactor).counter(),
            event is Eof ==> {
                &&& final(self).done()
                &&& final(self).buffer_view() == old(self).buffer_view()
                &&& step matches LeafStep::Done(text) && text@ == lossy_of(old(self).buffer_view())
                    && (vstd::utf8::valid_utf8(old(self).buffer_view()) ==> text@
                    == vstd::utf8::decode_utf8(old(self).buffer_view()))
            },
            event matches ReadEvent::Data(bytes) ==> {
                &&& !final(self).done()
                &&& final(self).buffer_view() == old(self).buffer_view() + bytes@
                &&& final(reactor).wakers_view() == old(reactor).wakers_view()
                &&& step is Continue
            },
            event is WouldBlock ==> {
                &&& !final(self).done()
                &&& final(self).buffer_view() == old(self).buffer_view()
                &&& final(reactor).wakers_view() == old(reactor).wakers_view().insert(
                    old(self).interest_id(),
                    *waker,
                )
                &&& step is Parked
            },
            event is Interrupted ==> {
                &&& !final(self).done()
                &&& final(self).buffer_view() == old(self).buffer_view()
                &&& final(reactor).wakers_view() == old(reactor).wakers_view()
                &&& step is Continue
            },
            event is Fatal ==> final(self).done() && step is Failed,
            event is Eof || event is Fatal ==> {
                &&& final(reactor).registered_view() == old(reactor).registered_view().remove(
                    old(self).interest_id(),
                )
                &&& final(reactor).wakers_view() == old(reactor).wakers_view().remove(
                    old(self).interest_id(),
                )
            },
            !(event is Eof) && !(event is Fatal) ==> final(reactor).registered_view() == old(
                reactor,
            ).registered_view(),
    {
        match event {
            ReadEvent::Eof => {
                let text = utf8_lossy(&self.buffer);
                reactor.deregister(self.id);
                self.done = true;
                LeafStep::Done(text)
            },
            ReadEvent::Data(bytes) => {
                let mut bytes = bytes;
                self.buffer.append(&mut bytes);
                LeafStep::Continue
            },
            ReadEvent::WouldBlock => {
                reactor.set_waker(waker, self.id);
                LeafStep::Parked
            },
            ReadEvent::Interrupted => LeafStep::Continue,
            ReadEvent::Fatal => {
                reactor.deregister(self.id);
                self.done = true;
                LeafStep::Failed
            },
        }
    }
}

} // verus!
