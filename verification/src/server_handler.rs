//! The server supervisor and its graceful-then-forced shutdown protocol.
//!
//! A supervisor owns one spawned process, the writer for its stdin and the
//! knowledge of where in the shutdown protocol it stands:
//!
//! `Running -> AwaitingExit -> ForcingKill -> JoiningPumps -> Stopped`
//!
//! Stopping and backing up both walk this chain; there is no way back into
//! `Running`, a fresh supervisor must be constructed instead.  The shell
//! performs the writes, waits, signals and thread joins, and reports each
//! outcome; the methods here decide what follows and maintain the one
//! guarantee the protocol exists for: it cannot complete while the process
//! is still alive.

use vstd::prelude::*;

use crate::error::GenericResult;
use crate::error::explained;
use crate::processes::KillStep;
use crate::processes::PipeReader;
use crate::processes::PipeWriter;
use crate::processes::ProcessHandler;

verus! {

/// Where in the shutdown protocol a supervisor stands.
#[derive(Clone, Copy, Debug, PartialEq, Eq, Structural)]
pub enum SupervisorPhase {
    /// The process runs; commands may be sent.
    Running,
    /// A stop request was written; a bounded wait for natural death runs.
    AwaitingExit,
    /// The bounded wait is over; SIGKILL is sent until a poll reports death.
    ForcingKill,
    /// The process is dead; the two pump threads are being joined.
    JoiningPumps,
    /// Terminal: process dead, pumps joined.  Only a fresh supervisor can
    /// continue.
    Stopped,
}

/// Composes the managed process with its stdin writer and the shutdown
/// protocol state.
pub struct ServerHandler {
    process: ProcessHandler,
    stdin_writer: PipeWriter,
    wanted_dead: bool,
    phase: SupervisorPhase,
}

impl ServerHandler {
    pub closed spec fn spec_phase(&self) -> SupervisorPhase {
        self.phase
    }

    /// The "we requested this" flag, read by the unexpected-exit callback.
    pub closed spec fn spec_wanted_dead(&self) -> bool {
        self.wanted_dead
    }

    pub closed spec fn spec_process_alive(&self) -> bool {
        self.process.spec_alive()
    }

    pub closed spec fn spec_stdin_fd(&self) -> i32 {
        self.stdin_writer.spec_fd()
    }

    /// The protocol invariant: once the chain passes the forced-kill phase
    /// the process is dead, and everywhere past `Running` the shutdown is
    /// marked as requested by us.
    pub open spec fn wf(&self) -> bool {
        &&& (self.spec_phase() is JoiningPumps || self.spec_phase() is Stopped)
            ==> !self.spec_process_alive()
        &&& !(self.spec_phase() is Running) ==> self.spec_wanted_dead()
    }

    /// Builds a supervisor around a freshly spawned process, claiming all
    /// three pipe endpoints: the stdin writer for command delivery and the
    /// two readers for the stdout and stderr pumps, which the shell runs on
    /// their own threads.  Fails if any endpoint is missing; the caller must
    /// have spawned with all three streams piped.
    pub fn start_server(process: ProcessHandler) -> (r: GenericResult<
        (ServerHandler, PipeReader, PipeReader),
    >)
        ensures
            (process.has_stdin_writer() && process.has_stdout_reader()
                && process.has_stderr_reader()) <==> r is Ok,
            r matches Ok((h, _, _)) ==> h.wf() && h.spec_phase() is Running
                && !h.spec_wanted_dead()
                && h.spec_process_alive() == process.spec_alive(),
    {
        let mut process = process;
        let stdin_writer = match process.get_stdin_writer() {
            Ok(w) => w,
            Err(_) => {
                return Err(explained("the spawned process has no piped stdin"));
            },
        };
        let stdout_reader = match process.get_stdout_reader() {
            Ok(rd) => rd,
            Err(_) => {
                return Err(explained("the spawned process has no piped stdout"));
            },
        };
        let stderr_reader = match process.get_stderr_reader() {
            Ok(rd) => rd,
            Err(_) => {
                return Err(explained("the spawned process has no piped stderr"));
            },
        };
        let handler = ServerHandler {
            process,
            stdin_writer,
            wanted_dead: false,
            phase: SupervisorPhase::Running,
        };
        Ok((handler, stdout_reader, stderr_reader))
    }

    pub closed spec fn spec_pid(&self) -> i32 {
        self.process.spec_pid()
    }

    /// The id of the supervised process, for signals and liveness polls.
    pub fn pid(&self) -> (r: i32)
        ensures
            r == self.spec_pid(),
    {
        self.process.pid()
    }

    /// The descriptor the shell writes commands to.
    pub fn stdin_fd(&self) -> (r: i32)
        ensures
            r == self.spec_stdin_fd(),
    {
        self.stdin_writer.raw_fd()
    }

    /// Non-blocking liveness check against the cached flag.
    pub fn is_dead(&self) -> (r: bool)
        ensures
            r == !self.spec_process_alive(),
    {
        self.process.is_dead()
    }

    /// Records what one OS liveness poll reported; dead stays dead.
    pub fn record_poll(&mut self, os_reports_exited: bool)
        requires
            old(self).wf(),
        ensures
            final(self).wf(),
            final(self).spec_process_alive() == (old(self).spec_process_alive()
                && !os_reports_exited),
            final(self).spec_phase() == old(self).spec_phase(),
            final(self).spec_wanted_dead() == old(self).spec_wanted_dead(),
            final(self).spec_stdin_fd() == old(self).spec_stdin_fd(),
    {
        self.process.record_poll(os_reports_exited);
    }

    /// Starts the graceful shutdown: marks the death as requested by us and
    /// hands the shell the literal stop command to write to the process.
    pub fn begin_stop(&mut self) -> (cmd: String)
        requires
            old(self).wf(),
            old(self).spec_phase() is Running,
        ensures
            final(self).wf(),
            final(self).spec_wanted_dead(),
            final(self).spec_phase() is AwaitingExit,
            final(self).spec_process_alive() == old(self).spec_process_alive(),
            final(self).spec_stdin_fd() == old(self).spec_stdin_fd(),
            cmd@ == "stop\n"@,
    {
        self.wanted_dead = true;
        self.phase = SupervisorPhase::AwaitingExit;
        String::from_str("stop\n")
    }

    /// Starts the backup shutdown: as `begin_stop`, but the shell first
    /// writes the save command so the process persists its data, then the
    /// stop command.  A failure of either write is logged, not fatal; the
    /// wait and the forced kill below still bound the outcome.
    pub fn begin_backup(&mut self) -> (cmds: (String, String))
        requires
            old(self).wf(),
            old(self).spec_phase() is Running,
        ensures
            final(self).wf(),
            final(self).spec_wanted_dead(),
            final(self).spec_phase() is AwaitingExit,
            final(self).spec_process_alive() == old(self).spec_process_alive(),
            final(self).spec_stdin_fd() == old(self).spec_stdin_fd(),
            cmds.0@ == "save-all\n"@,
            cmds.1@ == "stop\n"@,
    {
        self.wanted_dead = true;
        self.phase = SupervisorPhase::AwaitingExit;
        (String::from_str("save-all\n"), String::from_str("stop\n"))
    }

    /// Records the outcome of the bounded wait for natural death and moves
    /// on to the forced-kill phase, which is a no-op when death already
    /// came.  `exited_in_time` is what the wait observed; a timeout is
    /// logged by the shell and changes nothing here.
    pub fn note_wait(&mut self, exited_in_time: bool)
        requires
            old(self).wf(),
            old(self).spec_phase() is AwaitingExit,
        ensures
            final(self).wf(),
            final(self).spec_phase() is ForcingKill,
            final(self).spec_process_alive() == (old(self).spec_process_alive()
                && !exited_in_time),
            final(self).spec_wanted_dead() == old(self).spec_wanted_dead(),
            final(self).spec_stdin_fd() == old(self).spec_stdin_fd(),
    {
        self.process.record_poll(exited_in_time);
        self.phase = SupervisorPhase::ForcingKill;
    }

    /// One round of the forced-kill loop: records a poll, and either
    /// finishes (the process is dead, the pumps can be joined) or tells the
    /// shell to send SIGKILL and poll again.  Finishing is possible only on
    /// an observed death.
    pub fn kill_poll(&mut self, os_reports_exited: bool) -> (r: KillStep)
        requires
            old(self).wf(),
            old(self).spec_phase() is ForcingKill,
        ensures
            final(self).wf(),
            final(self).spec_process_alive() == (old(self).spec_process_alive()
                && !os_reports_exited),
            r is Finished <==> !final(self).spec_process_alive(),
            r is Finished ==> final(self).spec_phase() is JoiningPumps,
            r is SendKill ==> final(self).spec_phase() is ForcingKill,
            final(self).spec_wanted_dead() == old(self).spec_wanted_dead(),
            final(self).spec_stdin_fd() == old(self).spec_stdin_fd(),
    {
        self.process.record_poll(os_reports_exited);
        if self.process.is_dead() {
            self.phase = SupervisorPhase::JoiningPumps;
            KillStep::Finished
        } else {
            KillStep::SendKill
        }
    }

    /// Records that both pump threads were joined; the protocol is complete.
    pub fn pumps_joined(&mut self)
        requires
            old(self).wf(),
            old(self).spec_phase() is JoiningPumps,
        ensures
            final(self).wf(),
            final(self).spec_phase() is Stopped,
            !final(self).spec_process_alive(),
            final(self).spec_wanted_dead() == old(self).spec_wanted_dead(),
    {
        self.phase = SupervisorPhase::Stopped;
    }
}

/// A stop or backup always returns with the process dead: whichever path the
/// protocol took — natural exit inside the bounded wait, or SIGKILL until a
/// poll confirmed death — a supervisor that reached the terminal phase holds
/// a dead process.
pub proof fn lemma_shutdown_ends_dead(h: &ServerHandler)
    requires
        h.wf(),
        h.spec_phase() is Stopped || h.spec_phase() is JoiningPumps,
    ensures
        !h.spec_process_alive(),
{
}

/// What the write of the stop command being refused means: if the process is
/// already dead the refusal is expected and only worth a warning; otherwise
/// the error is reported and the forced stop announced.  A successful write
/// needs no log.
#[derive(Clone, Copy, Debug, PartialEq, Eq, Structural)]
pub enum StopWriteLog {
    Silent,
    AlreadyDead,
    WriteFailedForcing,
}

pub fn stop_write_log(write_ok: bool, dead: bool) -> (r: StopWriteLog)
    ensures
        write_ok ==> r is Silent,
        !write_ok && dead ==> r is AlreadyDead,
        !write_ok && !dead ==> r is WriteFailedForcing,
{
    if write_ok {
        StopWriteLog::Silent
    } else if dead {
        StopWriteLog::AlreadyDead
    } else {
        StopWriteLog::WriteFailedForcing
    }
}

/// What the death-watcher does when the process terminates.
#[derive(Clone, Copy, Debug, PartialEq, Eq, Structural)]
pub enum ExitAction {
    /// The death was not requested: an unsupervised dead child is fatal, the
    /// whole program aborts hard.
    AbortProgram,
    /// The death was requested by a stop or backup; nothing to do.
    NormalShutdown,
}

/// The one-shot callback the watcher runs on process death distinguishes an
/// intended stop from a crash by the supervisor's own flag: it aborts the
/// program exactly when the death was not requested.
pub fn on_child_exit(wanted_dead: bool) -> (r: ExitAction)
    ensures
        r is AbortProgram <==> !wanted_dead,
{
    if wanted_dead {
        ExitAction::NormalShutdown
    } else {
        ExitAction::AbortProgram
    }
}

/// Appends the line terminator that the process expects on its stdin: the
/// payload a `sendln` writes for a command is the command followed by one
/// newline.
pub fn sendln_payload(command: &str) -> (r: String)
    ensures
        r@ == command@ + "\n"@,
{
    let mut s = String::from_str(command);
    s.append("\n");
    s
}

} // verus!
