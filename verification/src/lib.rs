//! Verified core of a clonable handle to an operating-system child process.
//!
//! A raw process handle normally supports either waiting or killing, but not
//! both at once: a blocking `wait` holds the handle's lock for the remaining
//! lifetime of the process, and a naive `kill` would starve behind it. This
//! crate verifies the logic that resolves that race: the reap-once bookkeeping
//! behind `wait`, the lock-or-fallback routing of `kill`, the platform-killer
//! identifiers and their syscall result decoding, and the take-once cache for
//! the child's standard streams. The thin shell that owns the real OS process,
//! the locks and the syscalls drives these functions and stays outside the
//! verified core.

pub mod child;
pub mod error;
pub mod killer;
pub mod model;
pub mod status;
pub mod stdio;
