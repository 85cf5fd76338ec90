//! A model of the OS side of the wait/kill protocol, and the laws the
//! handle's operations obey against it.
//!
//! The verified core cannot hold the real process resource, so this module
//! writes down the OS facts the design rests on -- what the wait and kill
//! primitives do in each phase of the child's life -- and proves the
//! protocol's guarantees over them: waits are idempotent and every clone
//! observes the one terminal status; a kill on a live child succeeds and
//! turns every later wait into the killer's forced status; a kill after the
//! reap fails; and no operation moves the captured id.

use vstd::prelude::*;
use crate::child::{ChildCore, Phase};
use crate::killer::PlatformKiller;
use crate::status::ExitStatus;

verus! {

/// The OS's view of the child: still alive; exited, with the OS holding the
/// terminal status until someone reaps it; or reaped, the status consumed by
/// a wait and the id returned to the OS.
#[derive(Clone, Copy, Debug, PartialEq, Eq, Structural)]
pub enum OsChild {
    /// The process is running.
    Alive,
    /// The process has terminated with this status, which no wait has
    /// consumed yet.
    Exited(ExitStatus),
    /// A wait has consumed this terminal status.
    Reaped(ExitStatus),
}

/// The bookkeeping agrees with the OS: the cache is filled exactly by the
/// reap, with the status the OS handed out. Construction establishes it (a
/// fresh core is `Running`, a fresh child unreaped), and the two steps below
/// preserve it.
pub open spec fn consistent(os: OsChild, core: ChildCore) -> bool {
    match core.phase {
        Phase::Running => !(os is Reaped),
        Phase::Reaped(s) => os == OsChild::Reaped(s),
    }
}

/// One whole `wait` call, as the holder of the exclusive lock runs it. An
/// already-filled cache answers the call directly. Otherwise the OS wait
/// primitive runs: on a child that is still alive it first blocks until the
/// child terminates -- `pending` is the status that termination produces, a
/// natural exit or a concurrent kill's forced status -- and then consumes and
/// returns the terminal status, which the bookkeeping records.
pub open spec fn wait_step(os: OsChild, core: ChildCore, pending: ExitStatus) -> (OsChild, ChildCore, ExitStatus) {
    match core.cached_status_spec() {
        Some(s) => (os, core, s),
        None => {
            let terminal = match os {
                OsChild::Alive => pending,
                OsChild::Exited(s) => s,
                OsChild::Reaped(s) => s,
            };
            (OsChild::Reaped(terminal), ChildCore { id: core.id, phase: Phase::Reaped(terminal) }, terminal)
        },
    }
}

/// One whole `kill` call. Both routes -- through the locked resource, or out
/// of band through the platform killer -- reduce to the same OS kill
/// primitive on the same process, so the route is invisible in the outcome;
/// the routing only decides whether the lock is used. On a live child the
/// kill succeeds and the child exits with the killer's forced status. On an
/// exited child that nobody has reaped yet, the POSIX signal is still
/// deliverable (the id stays valid until the reap) and the call succeeds as a
/// no-op, while the Windows terminate call fails. After the reap the call
/// fails on either platform.
pub open spec fn kill_step(os: OsChild, killer: PlatformKiller) -> (OsChild, bool) {
    match os {
        OsChild::Alive => (OsChild::Exited(killer.forced_status_spec()), true),
        OsChild::Exited(s) => (OsChild::Exited(s), killer is Posix),
        OsChild::Reaped(s) => (OsChild::Reaped(s), false),
    }
}

/// Waiting is idempotent: of two wait calls, from one clone or two (the lock
/// serializes them), the second returns exactly the status the first
/// returned, moves nothing, and agreement with the OS survives both.
pub proof fn lemma_wait_idempotent(os: OsChild, core: ChildCore, p1: ExitStatus, p2: ExitStatus)
    requires
        consistent(os, core),
    ensures
        ({
            let (os1, core1, s1) = wait_step(os, core, p1);
            let (os2, core2, s2) = wait_step(os1, core1, p2);
            &&& s2 == s1
            &&& os2 == os1
            &&& core2 == core1
            &&& consistent(os1, core1)
        }),
{
}

/// One terminal status for every clone: once some wait has returned a status,
/// every later wait, from any clone and whatever else the child was going to
/// do, returns that same status again.
pub proof fn lemma_single_terminal_status(os: OsChild, core: ChildCore, s: ExitStatus, pending: ExitStatus)
    requires
        consistent(os, core),
        core.phase == Phase::Reaped(s),
    ensures
        wait_step(os, core, pending) == (os, core, s),
{
}

/// Kill before the reap: on a live child, the kill succeeds -- whichever
/// route it took -- and the wait that follows, whatever natural exit was
/// pending, returns the killer's forced-termination status, which is never a
/// clean exit. Agreement with the OS survives the kill and the wait, and the
/// bookkeeping ends holding the forced status: by the one-terminal-status
/// law, every other clone's wait, however many race this one, observes the
/// forced termination too.
pub proof fn lemma_kill_before_reap(os: OsChild, core: ChildCore, killer: PlatformKiller, pending: ExitStatus)
    requires
        consistent(os, core),
        os is Alive,
    ensures
        ({
            let (os1, ok) = kill_step(os, killer);
            let (os2, core2, s) = wait_step(os1, core, pending);
            &&& ok
            &&& consistent(os1, core)
            &&& s == killer.forced_status_spec()
            &&& !s.is_success()
            &&& core2.phase == Phase::Reaped(killer.forced_status_spec())
            &&& consistent(os2, core2)
        }),
{
}

/// Kill after the reap fails: once any wait has returned, a later kill
/// reports failure on either platform and moves nothing.
pub proof fn lemma_kill_after_reap(os: OsChild, core: ChildCore, killer: PlatformKiller, pending: ExitStatus)
    requires
        consistent(os, core),
    ensures
        ({
            let (os1, core1, s) = wait_step(os, core, pending);
            let (os2, ok) = kill_step(os1, killer);
            &&& !ok
            &&& os2 == os1
            &&& consistent(os1, core1)
        }),
{
}

/// Stable identifier: no wait moves the captured id, and no kill touches the
/// bookkeeping at all; `id` answers the same value over the handle's whole
/// lifetime, on every clone.
pub proof fn lemma_id_stable(os: OsChild, core: ChildCore, pending: ExitStatus)
    ensures
        wait_step(os, core, pending).1.id == core.id,
{
}

/// The statuses a run of wait calls returns, one call after the other as the
/// lock admits them, each call fed the status the child would terminate with
/// at that moment.
pub open spec fn run_waits(os: OsChild, core: ChildCore, pendings: Seq<ExitStatus>) -> Seq<ExitStatus>
    decreases pendings.len(),
{
    if pendings.len() == 0 {
        Seq::empty()
    } else {
        let (os1, core1, s) = wait_step(os, core, pendings[0]);
        seq![s] + run_waits(os1, core1, pendings.drop_first())
    }
}

/// However many clones wait, and in whatever order the lock admits them: a
/// child whose terminal status is already recorded answers every one of them
/// with that same status.
pub proof fn lemma_every_wait_observes_the_terminal_status(
    os: OsChild,
    core: ChildCore,
    s: ExitStatus,
    pendings: Seq<ExitStatus>,
)
    requires
        consistent(os, core),
        core.phase == Phase::Reaped(s),
    ensures
        run_waits(os, core, pendings).len() == pendings.len(),
        forall|i: int| 0 <= i < pendings.len() ==> run_waits(os, core, pendings)[i] == s,
    decreases pendings.len(),
{
    if pendings.len() > 0 {
        lemma_single_terminal_status(os, core, s, pendings[0]);
        lemma_every_wait_observes_the_terminal_status(os, core, s, pendings.drop_first());
        assert forall|i: int| 0 <= i < pendings.len() implies run_waits(os, core, pendings)[i]
            == s by {
            if i > 0 {
                assert(run_waits(os, core, pendings)[i] == run_waits(
                    os,
                    core,
                    pendings.drop_first(),
                )[i - 1]);
            }
        }
    }
}

/// A kill racing any number of waiting clones: on a live child the kill
/// succeeds, the wait that reaps returns the killer's forced status, and
/// every further wait -- however many clones were blocked behind the lock --
/// observes that same forced status.
pub proof fn lemma_kill_races_waits(
    os: OsChild,
    core: ChildCore,
    killer: PlatformKiller,
    p0: ExitStatus,
    pendings: Seq<ExitStatus>,
)
    requires
        consistent(os, core),
        os is Alive,
    ensures
        ({
            let (os1, ok) = kill_step(os, killer);
            let (os2, core2, s) = wait_step(os1, core, p0);
            &&& ok
            &&& s == killer.forced_status_spec()
            &&& run_waits(os2, core2, pendings).len() == pendings.len()
            &&& forall|i: int|
                0 <= i < pendings.len() ==> run_waits(os2, core2, pendings)[i]
                    == killer.forced_status_spec()
        }),
{
    lemma_kill_before_reap(os, core, killer, p0);
    let (os1, ok) = kill_step(os, killer);
    let (os2, core2, s) = wait_step(os1, core, p0);
    lemma_every_wait_observes_the_terminal_status(
        os2,
        core2,
        killer.forced_status_spec(),
        pendings,
    );
}

} // verus!
