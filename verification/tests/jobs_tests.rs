use server_manager::error::GenericError;
use server_manager::error::SpawnErrorKind;
use server_manager::io::Bus;
use server_manager::io::OutputMessageType;
use server_manager::io::OutputPacket;
use server_manager::jobs::SinkStep;
use server_manager::jobs::level_label;
use server_manager::jobs::sink_step;
use server_manager::telegram::RemoteAction;
use server_manager::telegram::route_remote_message;

#[test]
fn sink_formats_level_and_text() {
    let packet = OutputPacket::Message {
        level: OutputMessageType::Error,
        message: String::from("boom\n"),
    };
    match sink_step(packet) {
        SinkStep::Emit(line) => assert_eq!(line, "[ERROR] boom\n"),
        SinkStep::Exit => panic!("a message is emitted, not an exit"),
    }
}

#[test]
fn sink_exits_on_the_sentinel() {
    assert!(matches!(sink_step(OutputPacket::Terminate), SinkStep::Exit));
}

#[test]
fn level_labels_are_exact() {
    assert_eq!(level_label(&OutputMessageType::Error), "ERROR");
    assert_eq!(level_label(&OutputMessageType::Warning), "WARN");
    assert_eq!(level_label(&OutputMessageType::Info), "INFO");
    assert_eq!(level_label(&OutputMessageType::Debug), "DEBUG");
    assert_eq!(level_label(&OutputMessageType::Raw), "MINECRAFT");
}

#[test]
fn authorized_sender_is_forwarded_with_a_terminator() {
    match route_remote_message(42, 42, "say hi") {
        RemoteAction::Forward(line) => assert_eq!(line, "say hi\n"),
        RemoteAction::Reject => panic!("the authorized id must be forwarded"),
    }
}

#[test]
fn unauthorized_sender_never_reaches_the_input_bus() {
    let mut input_bus: Bus<String> = Bus::new();
    input_bus.claim_consumer().unwrap();
    match route_remote_message(42, 99, "stop") {
        RemoteAction::Forward(_) => panic!("an unauthorized id must be rejected"),
        RemoteAction::Reject => {},
    }
    assert_eq!(input_bus.receive(), None);
}

#[test]
fn error_descriptions_are_exact() {
    let spawn = GenericError::SpawnError { kind: SpawnErrorKind::ForkFailed, errno: 12 };
    assert_eq!(spawn.describe(), "error when forking the process (OS error 12)");
    let pipes = GenericError::SpawnError {
        kind: SpawnErrorKind::PipeCreationFailed,
        errno: -3,
    };
    assert_eq!(pipes.describe(), "error when creating the process pipes (OS error -3)");
    let io = GenericError::IOError { errno: 32 };
    assert_eq!(io.describe(), "I/O error (OS error 32)");
    assert_eq!(
        GenericError::TimeoutError.describe(),
        "timed out waiting for the process to stop"
    );
    assert_eq!(
        GenericError::RotationLimitExceeded.describe(),
        "limit of 256 daily backups exceeded"
    );
    assert_eq!(
        GenericError::ExplainedError(String::from("free text")).describe(),
        "free text"
    );
    assert_eq!(GenericError::from(String::from("wrapped")).describe(), "wrapped");
}
