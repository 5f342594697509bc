use mqtt_common::client::{
    connect_step, incoming_publish, is_readable, AckKind, AckWait, ClientError, Next, Outgoing,
    PublishExchange, PublishStage, ReadEvent, ACK_TIMEOUT_MS, PUBLISH_ACK_TIMEOUT_MS,
};
use mqtt_common::package::decode::Decoded;
use mqtt_common::package::encode::encode;
use mqtt_common::pubsub::{PublishPacket, PubrelPacket};

fn done_ok(next: Next) -> bool {
    matches!(next, Next::Done(Ok(())))
}

fn done_err(next: Next) -> Option<ClientError> {
    match next {
        Next::Done(Err(e)) => Some(e),
        _ => None,
    }
}

#[test]
fn connect_accepted_on_connack() {
    let step = connect_step(ReadEvent::Packet(vec![0x20, 0x02, 0x00, 0x00]));
    assert!(done_ok(step.next));
    assert!(matches!(step.report, Some(Decoded::Connack { code: 0, .. })));
    assert!(step.pass.is_none() && step.send.is_none());
}

#[test]
fn connect_refused_on_other_packet() {
    let step = connect_step(ReadEvent::Packet(vec![0x90, 0x03, 0x00, 0x02, 0x00]));
    let error = done_err(step.next).unwrap();
    assert_eq!(error, ClientError::UnexpectedPacket(144));
    assert_eq!(error.message(), "Get another packet 144, must be check again");
    assert!(error.message().contains("must be check again"));
}

#[test]
fn connect_without_answer() {
    for event in [ReadEvent::TimedOut, ReadEvent::ReadFailed] {
        let step = connect_step(event);
        let error = done_err(step.next).unwrap();
        assert_eq!(error, ClientError::NoResponse);
        assert_eq!(error.message(), "Can't read anything from broker, must reconnect again");
    }
}

#[test]
fn error_messages() {
    assert_eq!(ClientError::UnexpectedPacket(7).message(), "Get another packet 7, must be check again");
    assert_eq!(ClientError::UnexpectedPacket(42).message(), "Get another packet 42, must be check again");
    assert_eq!(ClientError::PubackMissing.message(), "QoS 1: Failed to receive PUBACK after 3 attempts.");
    assert_eq!(ClientError::PubrecMissing.message(), "Can't get PUBREC from broker, publish fail");
    assert_eq!(ClientError::SubackReadFailed.message(), "Failed to read packet");
    assert_eq!(ClientError::SubackMissing.message(), "Can't get suback");
    assert_eq!(ClientError::UnsubackReadFailed.message(), "Can't get unsuback from broker, must send again ");
    assert_eq!(ClientError::UnsubackMissing.message(), "Can't get unsuback");
    assert_eq!(ClientError::PingrespReadFailed.message(), "Can't read pingres from broker");
    assert_eq!(ClientError::PingrespMissing.message(), "Can't Pingres from broker");
}

#[test]
fn qos0_publish_ends_after_sending() {
    let (exchange, first, next) = PublishExchange::start("t", "m", 0, 0, 0);
    assert!(done_ok(next));
    assert_eq!(exchange.stage, PublishStage::Finished);
    assert_eq!(first, encode(PublishPacket::new("t", "m", 1234, 0, 0, 0)));
}

#[test]
fn qos1_publish_acknowledged() {
    let (mut exchange, _first, next) = PublishExchange::start("t", "m", 1, 0, 0);
    assert!(matches!(next, Next::Read(PUBLISH_ACK_TIMEOUT_MS)));
    let step = exchange.on_event(ReadEvent::Packet(vec![0x40, 0x02, 0x04, 0xD2]));
    assert!(done_ok(step.next));
    assert!(matches!(step.report, Some(Decoded::Puback { packet_id: 1234 })));
    assert!(step.send.is_none());
}

#[test]
fn qos1_publish_retries_then_fails() {
    let (mut exchange, _first, _next) = PublishExchange::start("t", "m", 1, 0, 0);
    let retry = encode(PublishPacket::new("t", "m", 1234, 1, 1, 0));
    // a PUBACK for another identifier is handed on and the PUBLISH is retried
    let step = exchange.on_event(ReadEvent::Packet(vec![0x40, 0x02, 0x00, 0x01]));
    assert_eq!(step.pass, Some(vec![0x40, 0x02, 0x00, 0x01]));
    assert!(matches!(step.send, Some(Outgoing::Retry(ref b)) if *b == retry));
    assert!(matches!(step.next, Next::Read(_)));
    let step = exchange.on_event(ReadEvent::TimedOut);
    assert!(step.pass.is_none());
    assert!(matches!(step.next, Next::Read(_)));
    let step = exchange.on_event(ReadEvent::ReadFailed);
    assert!(matches!(step.send, Some(Outgoing::Retry(_))));
    let error = done_err(step.next).unwrap();
    assert_eq!(error, ClientError::PubackMissing);
    assert_eq!(exchange.stage, PublishStage::Finished);
}

#[test]
fn qos2_publish_full_exchange() {
    let (mut exchange, _first, _next) = PublishExchange::start("t", "m", 2, 0, 1);
    let step = exchange.on_event(ReadEvent::Packet(vec![0x50, 0x02, 0x04, 0xD2]));
    assert!(matches!(step.report, Some(Decoded::Pubrec { packet_id: 1234 })));
    let pubrel = encode(PubrelPacket::new(1234));
    assert!(matches!(step.send, Some(Outgoing::Release(ref b)) if *b == pubrel));
    assert_eq!(exchange.stage, PublishStage::AwaitPubcomp(1));
    let step = exchange.on_event(ReadEvent::Packet(vec![0x70, 0x02, 0x04, 0xD2]));
    assert!(matches!(step.report, Some(Decoded::Pubcomp { packet_id: 1234 })));
    assert!(done_ok(step.next));
}

#[test]
fn qos2_publish_gives_up_after_two_rounds() {
    let (mut exchange, _first, _next) = PublishExchange::start("t", "m", 2, 0, 0);
    let step = exchange.on_event(ReadEvent::TimedOut);
    assert!(matches!(step.send, Some(Outgoing::Retry(_))));
    assert_eq!(exchange.stage, PublishStage::AwaitPubrec(2));
    let step = exchange.on_event(ReadEvent::Packet(vec![0x50, 0x02, 0x04, 0xD2]));
    assert!(matches!(step.send, Some(Outgoing::Release(_))));
    let step = exchange.on_event(ReadEvent::Packet(vec![0xD0, 0x00]));
    assert_eq!(step.pass, Some(vec![0xD0, 0x00]));
    assert_eq!(done_err(step.next), Some(ClientError::PubrecMissing));
}

#[test]
fn readable_events() {
    assert!(is_readable(&ReadEvent::TimedOut, Some(0x40)));
    assert!(!is_readable(&ReadEvent::Packet(vec![]), Some(0x40)));
    assert!(!is_readable(&ReadEvent::Packet(vec![0x40, 0x02]), Some(0x40)));
    assert!(is_readable(&ReadEvent::Packet(vec![0x30, 0x02]), Some(0x40)));
    assert!(is_readable(&ReadEvent::Packet(vec![0x40, 0x02]), None));
    assert!(!is_readable(&ReadEvent::Packet(vec![]), None));
}

#[test]
fn subscribe_wait() {
    let (mut wait, packet) = AckWait::subscribe("/hello", 1);
    assert_eq!(packet[0], 0x82);
    assert_eq!(wait.kind, AckKind::Suback);
    // a SUBACK for another identifier is passed over
    let step = wait.on_event(ReadEvent::Packet(vec![0x90, 0x03, 0x00, 0x09, 0x00]));
    assert!(step.report.is_none() && step.pass.is_none());
    assert!(matches!(step.next, Next::Read(ACK_TIMEOUT_MS)));
    let step = wait.on_event(ReadEvent::Packet(vec![0x90, 0x03, 0x00, 0x02, 0x01]));
    assert!(done_ok(step.next));
    assert!(matches!(step.report, Some(Decoded::Suback { packet_id: 2, .. })));
}

#[test]
fn subscribe_wait_read_failure_and_exhaustion() {
    let (mut wait, _) = AckWait::subscribe("/hello", 0);
    let step = wait.on_event(ReadEvent::ReadFailed);
    assert_eq!(done_err(step.next), Some(ClientError::SubackReadFailed));

    let (mut wait, _) = AckWait::subscribe("/hello", 0);
    for _ in 0..4 {
        let step = wait.on_event(ReadEvent::TimedOut);
        assert!(matches!(step.next, Next::Read(_)));
    }
    let step = wait.on_event(ReadEvent::Packet(vec![0xD0, 0x00]));
    assert_eq!(step.pass, Some(vec![0xD0, 0x00]));
    assert_eq!(done_err(step.next), Some(ClientError::SubackMissing));
}

#[test]
fn unsubscribe_and_ping_waits() {
    let (mut wait, packet) = AckWait::unsubscribe("/hello");
    assert_eq!(packet[0], 0xA2);
    let step = wait.on_event(ReadEvent::Packet(vec![0xB0, 0x02, 0x00, 0x03]));
    assert!(done_ok(step.next));
    assert!(matches!(step.report, Some(Decoded::Unsuback { packet_id: 3 })));

    let (mut wait, packet) = AckWait::ping();
    assert_eq!(packet, vec![0xC0, 0x00]);
    let step = wait.on_event(ReadEvent::ReadFailed);
    assert_eq!(done_err(step.next), Some(ClientError::PingrespReadFailed));
    let (mut wait, _) = AckWait::ping();
    let step = wait.on_event(ReadEvent::Packet(vec![0xD0, 0x00]));
    assert!(matches!(step.report, Some(Decoded::Pingresp)));
    assert!(done_ok(step.next));
}

#[test]
fn incoming_publish_only_takes_publish() {
    let packet = vec![0x30, 6, 0x00, 0x01, b'x', 0x00, 0x01, b'y'];
    assert!(matches!(incoming_publish(packet), Some(Decoded::Publish { .. })));
    assert!(incoming_publish(vec![0xD0, 0x00]).is_none());
}
