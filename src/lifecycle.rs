//! The lifecycle of the shared backend handle, from start-up to shutdown.

use vstd::prelude::*;

verus! {

/// Where the backend handle stands.
#[derive(Clone, Copy, Debug, PartialEq, Eq, Structural)]
pub enum Phase {
    Uninitialized,
    /// Connections to the backends are being established.
    Connecting,
    /// Serving requests; `cache` says whether a cache connection is held.
    Ready { cache: bool },
    Draining,
    Closed,
}

/// What happened to the handle.
#[derive(Clone, Copy, Debug, PartialEq, Eq, Structural)]
pub enum Event {
    Start,
    /// The database pool could not be established.
    DatabaseFailed,
    /// The database pool is up; `cache` says whether a cache connection was
    /// both asked for and established.
    DatabaseReady { cache: bool },
    Shutdown,
    Drained,
}

/// The phase that follows `p` on event `e`. A database that cannot be
/// reached at start-up closes the handle without ever serving; a cache that
/// cannot be reached only leaves it out. An event that does not apply leaves
/// the phase as it is.
pub open spec fn next_of(p: Phase, e: Event) -> Phase {
    match (p, e) {
        (Phase::Uninitialized, Event::Start) => Phase::Connecting,
        (Phase::Connecting, Event::DatabaseFailed) => Phase::Closed,
        (Phase::Connecting, Event::DatabaseReady { cache }) => Phase::Ready { cache },
        (Phase::Ready { .. }, Event::Shutdown) => Phase::Draining,
        (Phase::Draining, Event::Drained) => Phase::Closed,
        _ => p,
    }
}

impl Phase {
    /// The phase that follows on event `e`.
    pub fn next(&self, e: &Event) -> (r: Phase)
        ensures
            r == next_of(*self, *e),
    {
        match (self, e) {
            (Phase::Uninitialized, Event::Start) => Phase::Connecting,
            (Phase::Connecting, Event::DatabaseFailed) => Phase::Closed,
            (Phase::Connecting, Event::DatabaseReady { cache }) => Phase::Ready { cache: *cache },
            (Phase::Ready { .. }, Event::Shutdown) => Phase::Draining,
            (Phase::Draining, Event::Drained) => Phase::Closed,
            _ => *self,
        }
    }

    /// Whether requests are served in this phase.
    pub fn is_serving(&self) -> (r: bool)
        ensures
            r == (*self is Ready),
    {
        match self {
            Phase::Ready { .. } => true,
            _ => false,
        }
    }
}

/// Once serving, the handle keeps its cache support, held or not, until it is
/// shut down.
pub proof fn lemma_ready_keeps_shape(cache: bool, e: Event)
    ensures
        e != Event::Shutdown ==> next_of(Phase::Ready { cache }, e) == (Phase::Ready { cache }),
        e == Event::Shutdown ==> next_of(Phase::Ready { cache }, e) == Phase::Draining,
{
}

/// A handle whose database pool failed at start-up never serves.
pub proof fn lemma_database_failure_is_fatal(e: Event)
    ensures
        next_of(Phase::Closed, e) == Phase::Closed,
        next_of(Phase::Connecting, Event::DatabaseFailed) == Phase::Closed,
{
}

} // verus!
