//! The bookkeeping half of the readiness multiplexer: token allocation and
//! the interpretation of a wait's results.  The kernel half (creating the
//! facility, registering descriptors, blocking) is performed by the caller,
//! which records each wait's outcome here before querying it.

use vstd::prelude::*;

verus! {

/// Pairs a registered descriptor with an internal monotonically increasing
/// key; used to test "was this descriptor ready after the last wait"
/// without re-querying the kernel.
pub struct Token {
    pub fd: i32,
    pub key: u64,
}

/// One entry of the most recent wait's result list: which registration
/// fired, and whether its descriptor is ready for reading.
#[derive(Clone, Copy, Debug, PartialEq, Eq, Structural)]
pub struct ReadyEvent {
    pub key: u64,
    pub readable: bool,
}

/// Whether the first result entry carrying `key` reports the descriptor as
/// readable; false when no entry carries it.
pub open spec fn spec_test_read(events: Seq<ReadyEvent>, key: u64, i: int) -> bool
    decreases events.len() - i,
{
    if i < 0 || i >= events.len() {
        false
    } else if events[i].key == key {
        events[i].readable
    } else {
        spec_test_read(events, key, i + 1)
    }
}

/// Registration bookkeeping for one readiness facility: the next free key
/// and the result list of the most recent wait.
pub struct Epoll {
    pub next_key: u64,
    pub events: Vec<ReadyEvent>,
}

impl Epoll {
    /// Fresh bookkeeping: no registrations, no wait performed yet.
    pub fn new() -> (e: Epoll)
        ensures
            e.next_key == 0,
            e.events@.len() == 0,
    {
        Epoll { next_key: 0, events: Vec::new() }
    }

    /// Allocates the token under which `fd` is registered for
    /// read-readiness interest.  `once` mirrors whether the caller registers
    /// the descriptor single-shot (it must then be re-armed after firing) or
    /// persistently; the choice does not affect the bookkeeping.
    pub fn register_read(&mut self, fd: i32, _once: bool) -> (t: Token)
        requires
            old(self).next_key < u64::MAX,
        ensures
            t.fd == fd,
            t.key == old(self).next_key,
            final(self).next_key == old(self).next_key + 1,
            final(self).events@ == old(self).events@,
    {
        let key = self.next_key;
        self.next_key = self.next_key + 1;
        Token { fd, key }
    }

    /// Records what the most recent wait reported.
    pub fn record_wait(&mut self, ready: Vec<ReadyEvent>)
        ensures
            final(self).events@ == ready@,
            final(self).next_key == old(self).next_key,
    {
        self.events = ready;
    }

    /// Queries whether the descriptor behind `token` was among those
    /// reported ready by the most recent wait.
    pub fn test_read(&self, token: &Token) -> (r: bool)
        ensures
            r == spec_test_read(self.events@, token.key, 0),
    {
        let len = self.events.len();
        let mut i: usize = 0;
        while i < len
            invariant
                i <= len,
                len == self.events@.len(),
                spec_test_read(self.events@, token.key, 0) == spec_test_read(
                    self.events@,
                    token.key,
                    i as int,
                ),
            decreases len - i,
        {
            if self.events[i].key == token.key {
                return self.events[i].readable;
            }
            i += 1;
        }
        false
    }
}

} // verus!
