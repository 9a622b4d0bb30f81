use server_manager::error::GenericError;
use server_manager::io::Bus;
use server_manager::io::OutputMessageType;
use server_manager::io::OutputPacket;
use server_manager::jobs::SinkStep;
use server_manager::jobs::sink_step;

#[test]
fn single_producer_fifo_order() {
    let mut bus: Bus<String> = Bus::new();
    assert!(bus.claim_consumer().is_ok());
    bus.publish(String::from("m1"));
    bus.publish(String::from("m2"));
    bus.publish(String::from("m3"));
    assert_eq!(bus.receive(), Some(String::from("m1")));
    assert_eq!(bus.receive(), Some(String::from("m2")));
    assert_eq!(bus.receive(), Some(String::from("m3")));
    assert_eq!(bus.receive(), None);
}

#[test]
fn second_consumer_claim_fails() {
    let mut bus: Bus<String> = Bus::new();
    assert!(bus.claim_consumer().is_ok());
    let second = bus.claim_consumer();
    assert!(matches!(second, Err(GenericError::ExplainedError(_))));
    let third = bus.claim_consumer();
    assert!(third.is_err());
}

#[test]
fn receive_on_empty_bus_is_none() {
    let mut bus: Bus<i64> = Bus::new();
    assert!(bus.claim_consumer().is_ok());
    assert_eq!(bus.receive(), None);
    bus.publish(7);
    assert_eq!(bus.receive(), Some(7));
    assert_eq!(bus.receive(), None);
}

#[test]
fn sentinel_is_seen_after_everything_queued_before_it() {
    let mut bus: Bus<OutputPacket> = Bus::new();
    assert!(bus.claim_consumer().is_ok());
    bus.publish(OutputPacket::Message {
        level: OutputMessageType::Info,
        message: String::from("first"),
    });
    bus.publish(OutputPacket::Terminate);
    bus.publish(OutputPacket::Message {
        level: OutputMessageType::Info,
        message: String::from("after"),
    });
    let first = bus.receive().unwrap();
    match sink_step(first) {
        SinkStep::Emit(line) => assert_eq!(line, "[INFO] first"),
        SinkStep::Exit => panic!("the sentinel must come after the queued message"),
    }
    let second = bus.receive().unwrap();
    assert!(matches!(sink_step(second), SinkStep::Exit));
}
