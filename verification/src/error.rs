//! The error of OS-facing operations: the platform's last-error information.

use vstd::prelude::*;

verus! {

/// A failure reported by an OS wait, kill or terminate call, carrying the
/// platform's last-error code (`errno` on POSIX, `GetLastError` on Windows).
/// Both kill routes surface their failure as this one kind: a caller cannot
/// tell, and never needs to tell, which route fired.
#[derive(Clone, Copy, Debug, PartialEq, Eq, Structural)]
pub struct OsError {
    pub code: i32,
}

impl OsError {
    /// Wraps a platform last-error code.
    pub fn new(code: i32) -> (r: OsError)
        ensures
            r == (OsError { code }),
    {
        OsError { code }
    }

    /// The platform's last-error code behind this failure.
    pub fn code(&self) -> (r: i32)
        ensures
            r == self.code,
    {
        self.code
    }
}

} // verus!
