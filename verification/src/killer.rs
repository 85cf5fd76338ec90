//! The platform killer: the minimal per-OS identifier that force-terminates a
//! process without touching the lock on the shared process resource, together
//! with the decoding of the force-termination syscalls' results.

use vstd::prelude::*;
use crate::error::OsError;
use crate::status::ExitStatus;

verus! {

/// The signal a POSIX forced termination sends: non-ignorable kill.
pub const SIGKILL: i32 = 9;

/// The fixed, non-zero exit code a Windows forced termination passes to the
/// OS terminate call; a process killed this way reports it as its exit code.
pub const WINDOWS_FORCED_EXIT_CODE: i32 = 1;

/// The largest value the OS assigns as a process id: ids travel through the
/// POSIX kill syscall as a signed 32-bit `pid_t`.
pub const MAX_PROCESS_ID: u32 = 0x7fff_ffff;

/// The minimal OS datum sufficient to force-terminate a process while some
/// other clone holds the shared process resource: the process id on POSIX,
/// the raw process handle (stored as its integer value) on Windows. It is
/// captured once, before any wait or kill has occurred, and is immutable
/// afterwards, so reading it never needs a lock; it stays valid for the
/// process's whole lifetime, even after exit.
#[derive(Clone, Copy, Debug, PartialEq, Eq, Structural)]
pub enum PlatformKiller {
    /// POSIX: force-terminate by sending `SIGKILL` to the captured id.
    Posix { pid: i32 },
    /// Windows: force-terminate by calling the OS terminate primitive on the
    /// captured raw handle, with the fixed forced exit code.
    Windows { handle: usize },
}

impl PlatformKiller {
    /// Captures the POSIX identifier from the OS-assigned process id. The
    /// bound on `id` is the machine limit named at `MAX_PROCESS_ID`.
    pub fn new_posix(id: u32) -> (r: PlatformKiller)
        requires
            id <= MAX_PROCESS_ID,
        ensures
            r == (PlatformKiller::Posix { pid: id as i32 }),
    {
        PlatformKiller::Posix { pid: id as i32 }
    }

    /// Captures the Windows identifier from the raw handle's integer value.
    pub fn new_windows(handle: usize) -> (r: PlatformKiller)
        ensures
            r == (PlatformKiller::Windows { handle }),
    {
        PlatformKiller::Windows { handle }
    }

    /// The terminal status the OS reports for a process this killer
    /// terminated: killed by `SIGKILL` on POSIX (no exit code), the fixed
    /// forced exit code on Windows.
    pub open spec fn forced_status_spec(self) -> ExitStatus {
        match self {
            PlatformKiller::Posix { .. } => ExitStatus::Signaled(SIGKILL),
            PlatformKiller::Windows { .. } => ExitStatus::Exited(WINDOWS_FORCED_EXIT_CODE),
        }
    }

    /// The status a wait reports after this killer fired.
    pub fn forced_status(&self) -> (r: ExitStatus)
        ensures
            r == self.forced_status_spec(),
    {
        match self {
            PlatformKiller::Posix { .. } => ExitStatus::Signaled(SIGKILL),
            PlatformKiller::Windows { .. } => ExitStatus::Exited(WINDOWS_FORCED_EXIT_CODE),
        }
    }
}

/// A forced termination is never a clean exit: on either platform the status
/// a killed process reports fails the success test.
pub proof fn lemma_forced_status_not_success(killer: PlatformKiller)
    ensures
        !killer.forced_status_spec().is_success(),
{
}

/// Decodes the result of the POSIX kill syscall: a return of `-1` is failure,
/// surfaced with the platform's last-error code; any other return is success.
pub fn interpret_posix_kill(ret: i32, errno: i32) -> (r: Result<(), OsError>)
    ensures
        r == (if ret == -1 {
            Err::<(), OsError>(OsError { code: errno })
        } else {
            Ok::<(), OsError>(())
        }),
{
    if ret == -1 {
        Err(OsError { code: errno })
    } else {
        Ok(())
    }
}

/// Decodes the result of the Windows terminate primitive: a return of zero is
/// failure, surfaced with the platform's last-error code; any non-zero return
/// is success.
pub fn interpret_windows_terminate(ret: i32, last_error: i32) -> (r: Result<(), OsError>)
    ensures
        r == (if ret == 0 {
            Err::<(), OsError>(OsError { code: last_error })
        } else {
            Ok::<(), OsError>(())
        }),
{
    if ret == 0 {
        Err(OsError { code: last_error })
    } else {
        Ok(())
    }
}

} // verus!
