//! The take-once cache of the child's standard streams.

use vstd::prelude::*;

verus! {

/// Holds up to one endpoint each of the child's stdin, stdout and stderr,
/// detached from the raw process value when the handle is built, before any
/// clone exists. Each slot is handed out at most once over the whole clone
/// family: taking it empties it, and nothing is ever put back. The shell
/// guards a value of this type with an exclusive lock of the same kind as the
/// one on the process resource, held only for the brief take, which makes the
/// take-once guarantee hold under concurrent retrieval from different clones.
pub struct ChildIo<I, O, E> {
    /// The child's standard input endpoint, if one was attached at spawn.
    pub stdin: Option<I>,
    /// The child's standard output endpoint, if one was attached at spawn.
    pub stdout: Option<O>,
    /// The child's standard error endpoint, if one was attached at spawn.
    pub stderr: Option<E>,
}

impl<I, O, E> ChildIo<I, O, E> {
    /// Builds the cache from whatever endpoints the spawn attached.
    pub fn new(stdin: Option<I>, stdout: Option<O>, stderr: Option<E>) -> (r: ChildIo<I, O, E>)
        ensures
            r == (ChildIo { stdin, stdout, stderr }),
    {
        ChildIo { stdin, stdout, stderr }
    }

    /// One whole take of the stdin slot: the new cache and what the caller
    /// receives.
    pub open spec fn take_stdin_spec(self) -> (ChildIo<I, O, E>, Option<I>) {
        (ChildIo { stdin: None, ..self }, self.stdin)
    }

    /// One whole take of the stdout slot: the new cache and what the caller
    /// receives.
    pub open spec fn take_stdout_spec(self) -> (ChildIo<I, O, E>, Option<O>) {
        (ChildIo { stdout: None, ..self }, self.stdout)
    }

    /// One whole take of the stderr slot: the new cache and what the caller
    /// receives.
    pub open spec fn take_stderr_spec(self) -> (ChildIo<I, O, E>, Option<E>) {
        (ChildIo { stderr: None, ..self }, self.stderr)
    }

    /// Hands out the stdin endpoint and clears its slot; the other two slots
    /// do not move.
    pub fn take_stdin(&mut self) -> (r: Option<I>)
        ensures
            (*final(self), r) == old(self).take_stdin_spec(),
    {
        self.stdin.take()
    }

    /// Hands out the stdout endpoint and clears its slot; the other two slots
    /// do not move.
    pub fn take_stdout(&mut self) -> (r: Option<O>)
        ensures
            (*final(self), r) == old(self).take_stdout_spec(),
    {
        self.stdout.take()
    }

    /// Hands out the stderr endpoint and clears its slot; the other two slots
    /// do not move.
    pub fn take_stderr(&mut self) -> (r: Option<E>)
        ensures
            (*final(self), r) == old(self).take_stderr_spec(),
    {
        self.stderr.take()
    }
}

/// Single delivery of each stream: of two takes of the same slot, in any
/// interleaving of clones (the lock serializes them), only the first can
/// receive the endpoint -- the second take of a slot always receives nothing,
/// while the slots not taken keep what they held.
pub proof fn lemma_stream_single_delivery<I, O, E>(io: ChildIo<I, O, E>)
    ensures
        io.take_stdin_spec().0.take_stdin_spec().1 is None,
        io.take_stdout_spec().0.take_stdout_spec().1 is None,
        io.take_stderr_spec().0.take_stderr_spec().1 is None,
        io.take_stdin_spec().0.stdout == io.stdout,
        io.take_stdin_spec().0.stderr == io.stderr,
        io.take_stdout_spec().0.stdin == io.stdin,
        io.take_stdout_spec().0.stderr == io.stderr,
        io.take_stderr_spec().0.stdin == io.stdin,
        io.take_stderr_spec().0.stdout == io.stdout,
{
}

} // verus!
