use server_manager::processes::KillStep;
use server_manager::processes::ProcessHandler;
use server_manager::server_handler::ExitAction;
use server_manager::server_handler::ServerHandler;
use server_manager::server_handler::StopWriteLog;
use server_manager::server_handler::on_child_exit;
use server_manager::server_handler::sendln_payload;
use server_manager::server_handler::stop_write_log;

fn started() -> ServerHandler {
    let process = ProcessHandler::from_spawn(0, 0, 4711, Some(3), Some(4), Some(5)).unwrap();
    let (handler, stdout_reader, stderr_reader) = ServerHandler::start_server(process).unwrap();
    assert_eq!(stdout_reader.raw_fd(), 4);
    assert_eq!(stderr_reader.raw_fd(), 5);
    handler
}

#[test]
fn start_refuses_a_process_without_all_pipes() {
    let process = ProcessHandler::from_spawn(0, 0, 1, Some(3), Some(4), None).unwrap();
    assert!(ServerHandler::start_server(process).is_err());
}

#[test]
fn graceful_stop_ends_with_a_dead_process() {
    let mut h = started();
    let cmd = h.begin_stop();
    assert_eq!(cmd.as_bytes(), b"stop\n");
    h.note_wait(true);
    assert!(matches!(h.kill_poll(false), KillStep::Finished));
    h.pumps_joined();
    assert!(h.is_dead());
}

#[test]
fn timed_out_stop_forces_the_kill_and_still_ends_dead() {
    let mut h = started();
    let _ = h.begin_stop();
    h.note_wait(false);
    assert!(matches!(h.kill_poll(false), KillStep::SendKill));
    assert!(matches!(h.kill_poll(false), KillStep::SendKill));
    assert!(matches!(h.kill_poll(true), KillStep::Finished));
    h.pumps_joined();
    assert!(h.is_dead());
}

#[test]
fn backup_writes_save_then_stop() {
    let mut h = started();
    let (save, stop) = h.begin_backup();
    assert_eq!(save.as_bytes(), b"save-all\n");
    assert_eq!(stop.as_bytes(), b"stop\n");
    h.note_wait(true);
    assert!(matches!(h.kill_poll(false), KillStep::Finished));
    h.pumps_joined();
    assert!(h.is_dead());
}

#[test]
fn unrequested_death_aborts_the_program() {
    assert_eq!(on_child_exit(false), ExitAction::AbortProgram);
}

#[test]
fn requested_death_does_not_abort() {
    let mut h = started();
    let _ = h.begin_stop();
    assert_eq!(on_child_exit(true), ExitAction::NormalShutdown);
    h.note_wait(true);
    let _ = h.kill_poll(false);
    h.pumps_joined();
}

#[test]
fn refused_stop_write_is_explained() {
    assert_eq!(stop_write_log(true, false), StopWriteLog::Silent);
    assert_eq!(stop_write_log(true, true), StopWriteLog::Silent);
    assert_eq!(stop_write_log(false, true), StopWriteLog::AlreadyDead);
    assert_eq!(stop_write_log(false, false), StopWriteLog::WriteFailedForcing);
}

#[test]
fn sendln_appends_exactly_one_newline() {
    assert_eq!(sendln_payload("say hi").as_bytes(), b"say hi\n");
    assert_eq!(sendln_payload("").as_bytes(), b"\n");
}
