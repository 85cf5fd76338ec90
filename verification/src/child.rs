//! The state every clone of the handle shares: the captured process id and
//! the reap-once bookkeeping behind `wait`, together with the routing
//! decision that keeps `kill` from blocking behind a wait in progress.

use vstd::prelude::*;
use crate::status::ExitStatus;

verus! {

/// Where the shared child stands in its lifecycle, as the bookkeeping sees
/// it: not yet reaped, or reaped with its single terminal status.
#[derive(Clone, Copy, Debug, PartialEq, Eq, Structural)]
pub enum Phase {
    /// No wait has completed yet; the OS still holds the exit status.
    Running,
    /// Some wait has completed; every later wait returns this same status.
    Reaped(ExitStatus),
}

/// The state of the single logical child that all clones of a handle share,
/// as the holder of the exclusive lock on the process resource sees it.
/// Exactly one value of this type exists per spawned process, however many
/// clones point at it.
#[derive(Clone, Copy, Debug, PartialEq, Eq, Structural)]
pub struct ChildCore {
    /// The OS-assigned process identifier, captured once at construction and
    /// immutable afterwards: every clone answers `id` from it, verbatim.
    pub id: u32,
    /// The reap-once bookkeeping behind `wait`.
    pub phase: Phase,
}

impl ChildCore {
    /// Wraps a freshly spawned child: the id is captured here, before any
    /// wait or kill has occurred, and never changes afterwards.
    pub fn new(id: u32) -> (r: ChildCore)
        ensures
            r == (ChildCore { id, phase: Phase::Running }),
    {
        ChildCore { id, phase: Phase::Running }
    }

    /// The OS-assigned process identifier, exactly as captured at
    /// construction; constant time, no I/O, no failure.
    pub fn id(&self) -> (r: u32)
        ensures
            r == self.id,
    {
        self.id
    }

    /// What a wait can answer without the OS: the terminal status once the
    /// child has been reaped, nothing before.
    pub open spec fn cached_status_spec(self) -> Option<ExitStatus> {
        match self.phase {
            Phase::Running => None,
            Phase::Reaped(s) => Some(s),
        }
    }

    /// The cached terminal status, if some wait has already completed. A wait
    /// call consults this first, under the lock: `Some` answers the call
    /// directly and idempotently; `None` sends it on to the OS wait
    /// primitive, whose answer `record_exit` then stores.
    pub fn cached_status(&self) -> (r: Option<ExitStatus>)
        ensures
            r == self.cached_status_spec(),
    {
        match self.phase {
            Phase::Running => None,
            Phase::Reaped(s) => Some(s),
        }
    }

    /// Records the terminal status the OS wait primitive returned. Exactly
    /// one wait call reaps the child -- the one that found the cache empty --
    /// and it calls this once; the id does not move.
    pub fn record_exit(&mut self, status: ExitStatus)
        requires
            old(self).phase is Running,
        ensures
            *final(self) == (ChildCore { id: old(self).id, phase: Phase::Reaped(status) }),
    {
        self.phase = Phase::Reaped(status);
    }
}

/// The two strategies a kill attempt can route to.
#[derive(Clone, Copy, Debug, PartialEq, Eq, Structural)]
pub enum KillPath {
    /// The shared process resource was free: kill through the locked
    /// resource, keeping the OS's own accounting of the handle.
    Direct,
    /// Some other clone holds the resource, most likely mid-`wait`: bypass
    /// the lock and kill through the platform killer's immutable identifier.
    OutOfBand,
}

/// Routes a kill attempt from the outcome of a non-blocking try of the
/// resource lock. A held lock can stay held for the process's whole remaining
/// lifetime (a wait in progress), so a kill that finds it held never blocks
/// on it: it goes out of band, through the platform killer, which needs no
/// lock at all. Either route ends in the same forced termination of the same
/// process; the choice is invisible in the outcome.
pub fn kill_path(lock_acquired: bool) -> (p: KillPath)
    ensures
        p == (if lock_acquired {
            KillPath::Direct
        } else {
            KillPath::OutOfBand
        }),
{
    if lock_acquired {
        KillPath::Direct
    } else {
        KillPath::OutOfBand
    }
}

} // verus!
