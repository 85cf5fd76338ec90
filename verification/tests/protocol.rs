//! The wait/kill protocol of the shared child state, on concrete values.

use clonablechild::child::{ChildCore, KillPath, Phase, kill_path};
use clonablechild::error::OsError;
use clonablechild::killer::{
    MAX_PROCESS_ID, PlatformKiller, SIGKILL, WINDOWS_FORCED_EXIT_CODE, interpret_posix_kill,
    interpret_windows_terminate,
};
use clonablechild::status::ExitStatus;

#[test]
fn fresh_core_has_no_cached_status() {
    let core = ChildCore::new(100);
    assert_eq!(core.cached_status(), None);
    assert_eq!(core.phase, Phase::Running);
}

#[test]
fn wait_twice_returns_cached_status() {
    // A clean exit reaped once: every later wait answers from the cache,
    // with the same successful status and exit code zero, both times.
    let mut core = ChildCore::new(100);
    core.record_exit(ExitStatus::Exited(0));
    for _ in 0..2 {
        let status = core.cached_status().expect("a reaped child has a terminal status");
        assert!(status.success());
        assert_eq!(status.code(), Some(0));
    }
}

#[test]
fn reaping_keeps_the_identifier() {
    let mut core = ChildCore::new(4242);
    assert_eq!(core.id(), 4242);
    core.record_exit(ExitStatus::Signaled(SIGKILL));
    assert_eq!(core.id(), 4242);
}

#[test]
fn clones_share_one_terminal_status() {
    // Clones are views of one core value; a copy taken after the reap
    // observes the same status as the reaper.
    let mut core = ChildCore::new(7);
    core.record_exit(ExitStatus::Exited(3));
    let clone_view = core.clone();
    assert_eq!(clone_view.cached_status(), core.cached_status());
    assert_eq!(clone_view.id(), core.id());
}

#[test]
fn kill_routes_direct_when_lock_is_free() {
    assert_eq!(kill_path(true), KillPath::Direct);
}

#[test]
fn kill_routes_out_of_band_when_lock_is_held() {
    // A held lock can stay held until the process dies; the route that
    // needs no lock is what keeps kill from blocking behind a wait.
    assert_eq!(kill_path(false), KillPath::OutOfBand);
}

#[test]
fn posix_killer_captures_the_pid() {
    let killer = PlatformKiller::new_posix(31337);
    assert_eq!(killer, PlatformKiller::Posix { pid: 31337 });
}

#[test]
fn posix_killer_accepts_the_largest_pid() {
    let killer = PlatformKiller::new_posix(MAX_PROCESS_ID);
    assert_eq!(killer, PlatformKiller::Posix { pid: 0x7fff_ffff });
}

#[test]
fn windows_killer_captures_the_handle() {
    let killer = PlatformKiller::new_windows(0xdead);
    assert_eq!(killer, PlatformKiller::Windows { handle: 0xdead });
}

#[test]
fn forced_status_is_never_success() {
    let posix = PlatformKiller::new_posix(1).forced_status();
    assert!(!posix.success());
    assert_eq!(posix.code(), None);
    assert_eq!(posix.signal(), Some(SIGKILL));

    let windows = PlatformKiller::new_windows(12).forced_status();
    assert!(!windows.success());
    assert_eq!(windows.code(), Some(WINDOWS_FORCED_EXIT_CODE));
    assert_eq!(windows.signal(), None);
}

#[test]
fn posix_kill_failure_carries_errno() {
    // -1 is the syscall's failure return; 3 is the "no such process" errno a
    // kill after the reap comes back with.
    let r = interpret_posix_kill(-1, 3);
    assert_eq!(r, Err(OsError::new(3)));
    assert_eq!(r.unwrap_err().code(), 3);
}

#[test]
fn posix_kill_zero_is_success() {
    assert_eq!(interpret_posix_kill(0, 0), Ok(()));
}

#[test]
fn windows_terminate_zero_is_failure() {
    let r = interpret_windows_terminate(0, 5);
    assert_eq!(r, Err(OsError::new(5)));
}

#[test]
fn windows_terminate_nonzero_is_success() {
    assert_eq!(interpret_windows_terminate(1, 0), Ok(()));
    assert_eq!(interpret_windows_terminate(-7, 0), Ok(()));
}

#[test]
fn status_accessors_follow_the_encoding() {
    let clean = ExitStatus::Exited(0);
    assert!(clean.success());
    assert_eq!(clean.code(), Some(0));
    assert_eq!(clean.signal(), None);

    let failed = ExitStatus::Exited(2);
    assert!(!failed.success());
    assert_eq!(failed.code(), Some(2));
    assert_eq!(failed.signal(), None);

    let killed = ExitStatus::Signaled(9);
    assert!(!killed.success());
    assert_eq!(killed.code(), None);
    assert_eq!(killed.signal(), Some(9));
}
