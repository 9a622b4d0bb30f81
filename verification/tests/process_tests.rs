use server_manager::error::GenericError;
use server_manager::error::SpawnErrorKind;
use server_manager::processes::KillLevel;
use server_manager::processes::KillStep;
use server_manager::processes::ProcessHandler;
use server_manager::processes::WaitStep;
use server_manager::processes::force_kill_step;
use server_manager::processes::full_write_result;
use server_manager::processes::signal_code;
use server_manager::processes::wait_step;

fn spawned() -> ProcessHandler {
    ProcessHandler::from_spawn(0, 0, 4711, Some(3), Some(4), Some(5)).unwrap()
}

#[test]
fn successful_spawn_builds_a_live_handler() {
    let mut h = spawned();
    assert!(!h.is_dead());
    assert_eq!(h.pid(), 4711);
    assert_eq!(h.get_stdin_writer().unwrap().raw_fd(), 3);
    assert_eq!(h.get_stdout_reader().unwrap().raw_fd(), 4);
    assert_eq!(h.get_stderr_reader().unwrap().raw_fd(), 5);
}

#[test]
fn failed_spawn_reports_the_failing_stage() {
    let pipes = ProcessHandler::from_spawn(-1, 24, 0, None, None, None);
    assert!(matches!(
        pipes,
        Err(GenericError::SpawnError { kind: SpawnErrorKind::PipeCreationFailed, errno: 24 })
    ));
    let fork = ProcessHandler::from_spawn(-2, 11, 0, None, None, None);
    assert!(matches!(
        fork,
        Err(GenericError::SpawnError { kind: SpawnErrorKind::ForkFailed, errno: 11 })
    ));
}

#[test]
fn each_pipe_endpoint_transfers_exactly_once() {
    let mut h = spawned();
    assert!(h.get_stdin_writer().is_ok());
    assert!(matches!(h.get_stdin_writer(), Err(GenericError::ExplainedError(_))));
    assert!(h.get_stdout_reader().is_ok());
    assert!(h.get_stdout_reader().is_err());
    assert!(h.get_stderr_reader().is_ok());
    assert!(h.get_stderr_reader().is_err());
}

#[test]
fn an_unpiped_stream_is_never_handed_out() {
    let mut h = ProcessHandler::from_spawn(0, 0, 1, Some(3), None, None).unwrap();
    assert!(h.get_stdout_reader().is_err());
    assert!(h.get_stdin_writer().is_ok());
}

#[test]
fn liveness_moves_to_dead_once_and_never_back() {
    let mut h = spawned();
    h.record_poll(false);
    assert!(!h.is_dead());
    h.record_poll(true);
    assert!(h.is_dead());
    h.record_poll(false);
    assert!(h.is_dead());
}

#[test]
fn wait_prefers_death_over_the_timer() {
    assert_eq!(wait_step(true, true), WaitStep::Done);
    assert_eq!(wait_step(true, false), WaitStep::Done);
    assert_eq!(wait_step(false, true), WaitStep::TimedOut);
    assert_eq!(wait_step(false, false), WaitStep::Continue);
}

#[test]
fn forced_kill_finishes_only_on_death() {
    assert_eq!(force_kill_step(false), KillStep::SendKill);
    assert_eq!(force_kill_step(true), KillStep::Finished);
}

#[test]
fn kill_levels_map_to_their_signals() {
    assert_eq!(signal_code(&KillLevel::SIGTERM), libc::SIGTERM);
    assert_eq!(signal_code(&KillLevel::SIGKILL), libc::SIGKILL);
}

#[test]
fn short_writes_are_errors() {
    assert!(full_write_result(5, 5).is_ok());
    assert!(matches!(full_write_result(5, 3), Err(GenericError::ExplainedError(_))));
    assert!(full_write_result(0, 0).is_ok());
}
