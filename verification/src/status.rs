//! Exit status of a child process, in the OS-native encoding: either a normal
//! exit carrying a code, or a termination by signal (reported on POSIX).

use vstd::prelude::*;

verus! {

/// The terminal status of a child process.
///
/// `Exited(code)` is a normal exit with the given exit code. `Signaled(sig)`
/// is a termination by the given signal number, which only POSIX targets
/// report; a Windows process always exits with a code.
#[derive(Clone, Copy, Debug, PartialEq, Eq, Structural)]
pub enum ExitStatus {
    Exited(i32),
    Signaled(i32),
}

impl ExitStatus {
    /// Whether the process exited cleanly: a normal exit with code zero.
    pub open spec fn is_success(self) -> bool {
        self == ExitStatus::Exited(0)
    }

    /// True exactly when the process exited normally with code zero.
    pub fn success(&self) -> (r: bool)
        ensures
            r == self.is_success(),
    {
        match self {
            ExitStatus::Exited(code) => *code == 0,
            ExitStatus::Signaled(_) => false,
        }
    }

    /// The exit code of a normal exit; a signal-terminated process has none.
    pub fn code(&self) -> (r: Option<i32>)
        ensures
            r == (match *self {
                ExitStatus::Exited(c) => Some(c),
                ExitStatus::Signaled(_) => None::<i32>,
            }),
    {
        match self {
            ExitStatus::Exited(code) => Some(*code),
            ExitStatus::Signaled(_) => None,
        }
    }

    /// The signal that terminated the process, if it did not exit normally.
    pub fn signal(&self) -> (r: Option<i32>)
        ensures
            r == (match *self {
                ExitStatus::Exited(_) => None::<i32>,
                ExitStatus::Signaled(s) => Some(s),
            }),
    {
        match self {
            ExitStatus::Exited(_) => None,
            ExitStatus::Signaled(sig) => Some(*sig),
        }
    }
}

} // verus!
