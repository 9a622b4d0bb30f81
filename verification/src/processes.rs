//! Model of one supervised OS process and its pipe endpoints.
//!
//! The unverified shell performs the actual system calls (spawn, poll,
//! signal, read, write) and reports each outcome here.  This module owns the
//! decisions: how a spawn result becomes a handler or a spawn error, that
//! each pipe endpoint can be handed out exactly once, that the liveness flag
//! moves from alive to dead exactly once and never back, and when a bounded
//! wait gives up or a forced kill is done.

use vstd::prelude::*;

use crate::error::GenericError;
use crate::error::GenericResult;
use crate::error::SpawnErrorKind;
use crate::error::explained;

verus! {

/// Which signal to send the supervised process.
#[derive(Clone, Copy, Debug, PartialEq, Eq, Structural)]
pub enum KillLevel {
    SIGTERM,
    SIGKILL,
}

/// The OS signal number that a kill level stands for.
pub fn signal_code(lev: &KillLevel) -> (r: i32)
    ensures
        lev is SIGTERM ==> r == 15,
        lev is SIGKILL ==> r == 9,
{
    match lev {
        KillLevel::SIGTERM => 15,
        KillLevel::SIGKILL => 9,
    }
}

/// The reading end of one pipe, bound to one file descriptor.  Not shareable
/// without external synchronization; the shell does the blocking reads.
pub struct PipeReader {
    fd: i32,
}

impl PipeReader {
    pub closed spec fn spec_fd(&self) -> i32 {
        self.fd
    }

    pub fn new(fd: i32) -> (r: PipeReader)
        ensures
            r.spec_fd() == fd,
    {
        PipeReader { fd }
    }

    /// The descriptor the shell reads from.
    pub fn raw_fd(&self) -> (r: i32)
        ensures
            r == self.spec_fd(),
    {
        self.fd
    }
}

/// The writing end of one pipe, bound to one file descriptor.
pub struct PipeWriter {
    fd: i32,
}

impl PipeWriter {
    pub closed spec fn spec_fd(&self) -> i32 {
        self.fd
    }

    pub fn new(fd: i32) -> (r: PipeWriter)
        ensures
            r.spec_fd() == fd,
    {
        PipeWriter { fd }
    }

    /// The descriptor the shell writes to.
    pub fn raw_fd(&self) -> (r: i32)
        ensures
            r == self.spec_fd(),
    {
        self.fd
    }
}

/// Writes enforce full-buffer semantics: a short write is itself an error.
/// Given how many bytes a write was asked for and how many the OS accepted,
/// this is the verdict the writer reports.
pub fn full_write_result(requested: usize, written: usize) -> (r: GenericResult<()>)
    ensures
        written == requested <==> r is Ok,
        written != requested ==> (r matches Err(e)
            && e matches GenericError::ExplainedError(_)),
{
    if written == requested {
        Ok(())
    } else {
        Err(explained("could not write the whole command to the pipe"))
    }
}

/// One step of a bounded wait for process death, racing a timer against
/// repeated liveness polls.  Death wins over a fired timer.
#[derive(Clone, Copy, Debug, PartialEq, Eq, Structural)]
pub enum WaitStep {
    /// The process is dead; the wait is over.
    Done,
    /// The timer fired first; the wait failed.
    TimedOut,
    /// Neither yet; poll again.
    Continue,
}

/// Decides one round of the wait race from the current observations.
pub fn wait_step(dead: bool, timer_fired: bool) -> (r: WaitStep)
    ensures
        dead ==> r is Done,
        !dead && timer_fired ==> r is TimedOut,
        !dead && !timer_fired ==> r is Continue,
{
    if dead {
        WaitStep::Done
    } else if timer_fired {
        WaitStep::TimedOut
    } else {
        WaitStep::Continue
    }
}

/// One step of the unconditional teardown loop: keep sending SIGKILL until a
/// poll reports the process dead.
#[derive(Clone, Copy, Debug, PartialEq, Eq, Structural)]
pub enum KillStep {
    /// The process is dead; the teardown is done.
    Finished,
    /// Still alive; send SIGKILL and poll again.
    SendKill,
}

/// Decides one round of the forced-kill loop.  `Finished` comes only from an
/// observed death, so the loop ends with the process dead.
pub fn force_kill_step(dead: bool) -> (r: KillStep)
    ensures
        r is Finished <==> dead,
{
    if dead {
        KillStep::Finished
    } else {
        KillStep::SendKill
    }
}

/// One spawned OS process: its id, its cached liveness, and up to three pipe
/// endpoints, each transferable to exactly one caller.
pub struct ProcessHandler {
    pid: i32,
    alive: bool,
    stdin_writer: Option<PipeWriter>,
    stdout_reader: Option<PipeReader>,
    stderr_reader: Option<PipeReader>,
}

impl ProcessHandler {
    pub closed spec fn spec_pid(&self) -> i32 {
        self.pid
    }

    pub closed spec fn spec_alive(&self) -> bool {
        self.alive
    }

    pub closed spec fn has_stdin_writer(&self) -> bool {
        self.stdin_writer is Some
    }

    pub closed spec fn has_stdout_reader(&self) -> bool {
        self.stdout_reader is Some
    }

    pub closed spec fn has_stderr_reader(&self) -> bool {
        self.stderr_reader is Some
    }

    /// Turns the outcome of a spawn attempt into a handler or a spawn error.
    ///
    /// The shell reports `code` 0 for success, -1 for a failure while
    /// creating the pipes and -2 for a failure while forking, with `errno`
    /// carrying the OS error; on success `pid` is the new process id and the
    /// three descriptors are those of the requested pipes.  On failure no
    /// process and no pipes remain, so no handler is built.
    pub fn from_spawn(
        code: i32,
        errno: i32,
        pid: i32,
        stdin_fd: Option<i32>,
        stdout_fd: Option<i32>,
        stderr_fd: Option<i32>,
    ) -> (r: GenericResult<ProcessHandler>)
        ensures
            code == 0 ==> (r matches Ok(h)
                && h.spec_pid() == pid
                && h.spec_alive()
                && h.has_stdin_writer() == (stdin_fd is Some)
                && h.has_stdout_reader() == (stdout_fd is Some)
                && h.has_stderr_reader() == (stderr_fd is Some)),
            code == -1 ==> r == Err::<ProcessHandler, _>(GenericError::SpawnError {
                kind: SpawnErrorKind::PipeCreationFailed,
                errno,
            }),
            code != 0 && code != -1 ==> r == Err::<ProcessHandler, _>(GenericError::SpawnError {
                kind: SpawnErrorKind::ForkFailed,
                errno,
            }),
    {
        if code == 0 {
            let stdin_writer = match stdin_fd {
                Some(fd) => Some(PipeWriter::new(fd)),
                None => None,
            };
            let stdout_reader = match stdout_fd {
                Some(fd) => Some(PipeReader::new(fd)),
                None => None,
            };
            let stderr_reader = match stderr_fd {
                Some(fd) => Some(PipeReader::new(fd)),
                None => None,
            };
            Ok(ProcessHandler { pid, alive: true, stdin_writer, stdout_reader, stderr_reader })
        } else if code == -1 {
            Err(GenericError::SpawnError { kind: SpawnErrorKind::PipeCreationFailed, errno })
        } else {
            Err(GenericError::SpawnError { kind: SpawnErrorKind::ForkFailed, errno })
        }
    }

    /// Transfers the stdin writer to the caller.  A second request fails
    /// loudly instead of silently duplicating access to the descriptor.
    pub fn get_stdin_writer(&mut self) -> (r: GenericResult<PipeWriter>)
        ensures
            old(self).has_stdin_writer() <==> r is Ok,
            !final(self).has_stdin_writer(),
            final(self).spec_pid() == old(self).spec_pid(),
            final(self).spec_alive() == old(self).spec_alive(),
            final(self).has_stdout_reader() == old(self).has_stdout_reader(),
            final(self).has_stderr_reader() == old(self).has_stderr_reader(),
    {
        match self.stdin_writer.take() {
            Some(w) => Ok(w),
            None => Err(explained("the stdin writer has already been taken")),
        }
    }

    /// Transfers the stdout reader to the caller; exactly once, as above.
    pub fn get_stdout_reader(&mut self) -> (r: GenericResult<PipeReader>)
        ensures
            old(self).has_stdout_reader() <==> r is Ok,
            !final(self).has_stdout_reader(),
            final(self).spec_pid() == old(self).spec_pid(),
            final(self).spec_alive() == old(self).spec_alive(),
            final(self).has_stdin_writer() == old(self).has_stdin_writer(),
            final(self).has_stderr_reader() == old(self).has_stderr_reader(),
    {
        match self.stdout_reader.take() {
            Some(rd) => Ok(rd),
            None => Err(explained("the stdout reader has already been taken")),
        }
    }

    /// Transfers the stderr reader to the caller; exactly once, as above.
    pub fn get_stderr_reader(&mut self) -> (r: GenericResult<PipeReader>)
        ensures
            old(self).has_stderr_reader() <==> r is Ok,
            !final(self).has_stderr_reader(),
            final(self).spec_pid() == old(self).spec_pid(),
            final(self).spec_alive() == old(self).spec_alive(),
            final(self).has_stdin_writer() == old(self).has_stdin_writer(),
            final(self).has_stdout_reader() == old(self).has_stdout_reader(),
    {
        match self.stderr_reader.take() {
            Some(rd) => Ok(rd),
            None => Err(explained("the stderr reader has already been taken")),
        }
    }

    /// Records what one OS liveness poll reported.  The flag can only move
    /// from alive to dead: a handler that is dead stays dead whatever a
    /// later poll claims.
    pub fn record_poll(&mut self, os_reports_exited: bool)
        ensures
            final(self).spec_alive() == (old(self).spec_alive() && !os_reports_exited),
            final(self).spec_pid() == old(self).spec_pid(),
            final(self).has_stdin_writer() == old(self).has_stdin_writer(),
            final(self).has_stdout_reader() == old(self).has_stdout_reader(),
            final(self).has_stderr_reader() == old(self).has_stderr_reader(),
    {
        if os_reports_exited {
            self.alive = false;
        }
    }

    /// Non-blocking liveness check against the cached flag.  The shell polls
    /// the OS first and records the answer when the flag still says alive.
    pub fn is_dead(&self) -> (r: bool)
        ensures
            r == !self.spec_alive(),
    {
        !self.alive
    }

    pub fn pid(&self) -> (r: i32)
        ensures
            r == self.spec_pid(),
    {
        self.pid
    }
}

} // verus!
