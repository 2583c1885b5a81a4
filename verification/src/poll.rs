//! Data for the readiness multiplexer: the event record the OS fills
//! in, the registry handle that names the multiplexer instance, and the
//! guard that keeps a stream from being counted as finished twice.
//!
//! The syscalls themselves — creating the multiplexer, registering a
//! source, blocking until events arrive — are the embedding program's
//! part; these types carry what that program and the runtime exchange.

use vstd::prelude::*;

verus! {

/// One readiness event: a mask saying what the source is ready for,
/// and the token handed in at registration, returned untouched so the
/// receiver can tell which source fired.
#[derive(Clone, Copy, PartialEq, Eq, Structural, Debug)]
pub struct Event {
    events: u32,
    epoll_data: usize,
}

impl Event {
    /// The readiness mask.
    pub closed spec fn mask(&self) -> u32 {
        self.events
    }

    /// The registration token carried back by the OS.
    pub closed spec fn data(&self) -> usize {
        self.epoll_data
    }

    /// An event record with the given mask and token.
    pub fn new(events: u32, epoll_data: usize) -> (e: Event)
        ensures
            e.mask() == events,
            e.data() == epoll_data,
    {
        Event { events, epoll_data }
    }

    /// The token that identifies the event's source.
    pub fn token(&self) -> (t: usize)
        ensures
            t == self.data(),
    {
        self.epoll_data
    }
}

/// The handle under which sources are registered with one multiplexer
/// instance: the instance's file descriptor.
#[derive(Clone, Copy, PartialEq, Eq, Structural, Debug)]
pub struct Registry {
    raw_fd: i32,
}

impl Registry {
    /// The multiplexer instance's file descriptor.
    pub closed spec fn fd(&self) -> i32 {
        self.raw_fd
    }

    /// A registry handle over the given multiplexer file descriptor.
    pub fn new(raw_fd: i32) -> (r: Registry)
        ensures
            r.fd() == raw_fd,
    {
        Registry { raw_fd }
    }

    /// The file descriptor, for the registering syscall.
    pub fn raw_fd(&self) -> (fd: i32)
        ensures
            fd == self.fd(),
    {
        self.raw_fd
    }
}

/// One readiness multiplexer instance: it owns the registry handle its
/// sources are registered under.
pub struct Poll {
    registry: Registry,
}

impl Poll {
    /// The registry this instance owns.
    pub closed spec fn registry_view(&self) -> Registry {
        self.registry
    }

    /// A multiplexer instance over the given registry handle.
    pub fn from_registry(registry: Registry) -> (p: Poll)
        ensures
            p.registry_view() == registry,
    {
        Poll { registry }
    }

    /// The owned registry, to register sources under.
    pub fn registry(&self) -> (r: &Registry)
        ensures
            *r == self.registry_view(),
    {
        &self.registry
    }
}

/// Records that the stream behind `token` reached end of stream, and
/// says whether that is news.  The OS may report readiness again for a
/// stream that was already read to its end; were the second report
/// counted too, a wait loop would think itself finished early.  Only
/// the first report of a token is fresh.
pub fn mark_handled(handled: &mut Vec<usize>, token: usize) -> (fresh: bool)
    ensures
        fresh == !old(handled)@.contains(token),
        fresh ==> final(handled)@ == old(handled)@.push(token),
        !fresh ==> final(handled)@ == old(handled)@,
        final(handled)@.contains(token),
{
    let mut i: usize = 0;
    while i < handled.len()
        invariant
            i <= handled@.len(),
            forall|j: int| 0 <= j < i ==> handled@[j] != token,
        decreases handled@.len() - i,
    {
        if handled[i] == token {
            proof {
                assert(handled@[i as int] == token);
            }
            return false;
        }
        i = i + 1;
    }
    handled.push(token);
    proof {
        assert(handled@.last() == token);
    }
    true
}

} // verus!
