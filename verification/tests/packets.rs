use mqtt_common::connect::{ConnackPacket, ConnackReturnCode, ConnectPacket, DisconnectPacket};
use mqtt_common::package::decode::{decode, Decode, DecodeError, Decoded};
use mqtt_common::package::encode::{encode, Encode};
use mqtt_common::package::types::ControlPackets;
use mqtt_common::ping::{PingPacket, PingResPacket};
use mqtt_common::pubsub::{
    PubackPacket, PubcompPacket, PublishPacket, PublishPacketGet, PublishPacketResponse,
    PubrecPacket, PubrelPacket, QosLevel, SubackPacket, SubackReturnCode, SubscribePacket,
    SubscriberPacketResponse, UnsubackPacket, UnsubscribePacket,
};
use mqtt_common::utils::{can_handle_packet, handle_packet};

#[test]
fn control_packet_bytes_round_trip() {
    let all = [
        ControlPackets::Connect,
        ControlPackets::Connack,
        ControlPackets::Publish,
        ControlPackets::Puback,
        ControlPackets::Pubrec,
        ControlPackets::Pubrel,
        ControlPackets::Pubcomp,
        ControlPackets::Subscribe,
        ControlPackets::Suback,
        ControlPackets::Unsubscribe,
        ControlPackets::Unsuback,
        ControlPackets::Pingreq,
        ControlPackets::Pingresp,
        ControlPackets::Disconnect,
        ControlPackets::Auth,
    ];
    for p in all.iter() {
        assert_eq!(ControlPackets::try_from(p.as_byte()), Ok(*p));
    }
    assert_eq!(ControlPackets::Pubrel.as_byte(), 0b0110_0010);
    assert_eq!(ControlPackets::Subscribe.as_byte(), 0b1000_0010);
    assert_eq!(ControlPackets::Unsubscribe.as_byte(), 0b1010_0010);
}

#[test]
fn unknown_control_byte_is_refused() {
    assert_eq!(ControlPackets::try_from(0x00), Err("Unknown Control Packet"));
    assert_eq!(ControlPackets::try_from(0x32), Err("Unknown Control Packet"));
    assert_eq!(ControlPackets::try_from(0x60), Err("Unknown Control Packet"));
}

#[test]
fn connect_packet_bytes() {
    let bytes = ConnectPacket::new(60, "abc".to_string()).encode().unwrap();
    assert_eq!(
        bytes,
        vec![0x10, 15, 0x00, 0x04, b'M', b'Q', b'T', b'T', 0x04, 0x02, 0x00, 60, 0x00, 3, b'a', b'b', b'c']
    );
    let bytes = encode(ConnectPacket::new(0x1234, "x".to_string()));
    assert_eq!(&bytes[10..14], &[0x12, 0x34, 0x00, 0x01]);
}

#[test]
fn connect_packet_refusals() {
    let empty = ConnectPacket::new(60, String::new()).encode();
    assert_eq!(empty, Err("Can't send connect packet to mqtt broker".to_string()));
    let long = ConnectPacket::new(60, "a".repeat(24)).encode();
    assert_eq!(long, Err("Can't send connect packet to mqtt broker".to_string()));
    let longest = ConnectPacket::new(60, "a".repeat(23)).encode().unwrap();
    assert_eq!(longest.len(), 14 + 23);
    assert_eq!(longest[1], 35);
}

#[test]
fn connect_packet_counts_utf8_bytes() {
    // "é" is two bytes long
    let bytes = ConnectPacket::new(1, "é".to_string()).encode().unwrap();
    assert_eq!(bytes[1], 14);
    assert_eq!(&bytes[12..], &[0x00, 0x02, 0xC3, 0xA9]);
}

#[test]
fn default_connect_packet_is_refused() {
    let packet = ConnectPacket::default();
    assert!(packet.encode().is_err());
}

#[test]
fn disconnect_and_ping_bytes() {
    assert_eq!(DisconnectPacket.encode().unwrap(), vec![0xE0, 0x00]);
    assert_eq!(PingPacket.encode().unwrap(), vec![0xC0, 0x00]);
}

#[test]
fn publish_packet_bytes() {
    let packet = PublishPacket::new("a/b", "hi", 1234, 1, 2, 1);
    let bytes = packet.encode().unwrap();
    assert_eq!(
        bytes,
        vec![0x30 | 0x08 | 0x04 | 0x01, 9, 0x00, 0x03, b'a', b'/', b'b', 0x04, 0xD2, b'h', b'i']
    );
}

#[test]
fn publish_remaining_length_keeps_low_byte() {
    let payload = "x".repeat(300);
    let bytes = encode(PublishPacket::new("t", &payload, 1, 0, 0, 0));
    assert_eq!(bytes.len(), 2 + 2 + 1 + 2 + 300);
    assert_eq!(bytes[1], ((2 + 1 + 2 + 300) % 256) as u8);
}

#[test]
fn subscribe_and_unsubscribe_bytes() {
    let sub = SubscribePacket::new(2, "/hello", 1).encode().unwrap();
    assert_eq!(
        sub,
        vec![0x82, 11, 0x00, 0x02, 0x00, 0x06, b'/', b'h', b'e', b'l', b'l', b'o', 0x01]
    );
    let unsub = UnsubscribePacket::new(3, "/t").encode().unwrap();
    assert_eq!(unsub, vec![0xA2, 6, 0x00, 0x03, 0x00, 0x02, b'/', b't']);
}

#[test]
fn pubrel_bytes() {
    assert_eq!(PubrelPacket::new(1234).encode().unwrap(), vec![0x62, 0x02, 0x04, 0xD2]);
}

#[test]
fn qos_levels() {
    assert_eq!(QosLevel::Qos0.as_byte(), 0);
    assert_eq!(QosLevel::Qos1.as_byte(), 1);
    assert_eq!(QosLevel::Qos2.as_byte(), 2);
}

#[test]
fn connack_decoding() {
    match ConnackPacket.decode(vec![0x20, 0x02, 0x01, 0x00]) {
        Decoded::Connack { header, session_present, return_code, code } => {
            assert_eq!(header, 0x20);
            assert_eq!(session_present, 1);
            assert_eq!(return_code, ConnackReturnCode::ConnectionAccept);
            assert_eq!(code, 0);
        }
        other => panic!("unexpected {:?}", other),
    }
    match decode(ConnackPacket, vec![0x20, 0x02, 0x00, 0x07]) {
        Decoded::Connack { return_code, code, .. } => {
            assert_eq!(return_code, ConnackReturnCode::UnknownCode);
            assert_eq!(code, 7);
        }
        other => panic!("unexpected {:?}", other),
    }
    assert!(matches!(
        ConnackPacket.decode(vec![0x20, 0x02, 0x00]),
        Decoded::Invalid(DecodeError::ConnackLength)
    ));
    assert!(matches!(
        ConnackPacket.decode(vec![0x21, 0x03, 0x00, 0x00]),
        Decoded::Invalid(DecodeError::ConnackRemainingLength { header: 0x21 })
    ));
}

#[test]
fn connack_return_codes() {
    assert_eq!(ConnackReturnCode::from_u8(0), ConnackReturnCode::ConnectionAccept);
    assert_eq!(ConnackReturnCode::from_u8(1), ConnackReturnCode::UnacceptableProtocolVersion);
    assert_eq!(ConnackReturnCode::from_u8(2), ConnackReturnCode::IdentifierReject);
    assert_eq!(ConnackReturnCode::from_u8(3), ConnackReturnCode::ServerUnavailable);
    assert_eq!(ConnackReturnCode::from_u8(4), ConnackReturnCode::BadUsernameOrPassword);
    assert_eq!(ConnackReturnCode::from_u8(5), ConnackReturnCode::NotAuthorized);
    assert_eq!(ConnackReturnCode::from_u8(6), ConnackReturnCode::UnknownCode);
    assert_eq!(ConnackReturnCode::from_u8(0xFF), ConnackReturnCode::UnknownCode);
}

#[test]
fn suback_return_codes() {
    assert_eq!(SubackReturnCode::from_u8(0), SubackReturnCode::MaximumQos0);
    assert_eq!(SubackReturnCode::from_u8(1), SubackReturnCode::MaximumQos1);
    assert_eq!(SubackReturnCode::from_u8(2), SubackReturnCode::MaximumQos2);
    assert_eq!(SubackReturnCode::from_u8(0x80), SubackReturnCode::Failure);
    assert_eq!(SubackReturnCode::from_u8(3), SubackReturnCode::Unknown);
}

#[test]
fn publish_get_decoding() {
    let packet = vec![0x30, 9, 0x00, 0x03, b'a', b'/', b'b', 0x04, 0xD2, b'h', b'i'];
    match PublishPacketGet.decode(packet) {
        Decoded::Publish { topic, message } => {
            assert_eq!(topic, "a/b");
            assert_eq!(message, "hi");
        }
        other => panic!("unexpected {:?}", other),
    }
    assert!(matches!(
        PublishPacketGet.decode(vec![0x30, 0x00, 0x00]),
        Decoded::Invalid(DecodeError::PublishTooShort)
    ));
}

#[test]
fn publish_response_decoding_keeps_identifier_bytes() {
    let packet = vec![0x30, 5, 0x00, 0x01, b't', b'o', b'k'];
    match PublishPacketResponse.decode(packet) {
        Decoded::Publish { topic, message } => {
            assert_eq!(topic, "t");
            assert_eq!(message, "ok");
        }
        other => panic!("unexpected {:?}", other),
    }
    assert!(matches!(
        PublishPacketResponse.decode(vec![0x32, 5, 0x00, 0x01, b't']),
        Decoded::Invalid(DecodeError::NotPublish)
    ));
}

#[test]
fn publish_round_trip() {
    for qos in 0..3u8 {
        let bytes = encode(PublishPacket::new("sensors/°C", "23,5 °C", 1234, 0, qos, 0));
        match PublishPacketGet.decode(bytes) {
            Decoded::Publish { topic, message } => {
                assert_eq!(topic, "sensors/°C");
                assert_eq!(message, "23,5 °C");
            }
            other => panic!("unexpected {:?}", other),
        }
    }
}

#[test]
fn suback_decoding() {
    match SubackPacket.decode(vec![0x90, 0x03, 0x00, 0x02, 0x01]) {
        Decoded::Suback { packet_id, return_code } => {
            assert_eq!(packet_id, 2);
            assert_eq!(return_code, SubackReturnCode::MaximumQos1);
        }
        other => panic!("unexpected {:?}", other),
    }
    assert!(matches!(
        SubackPacket.decode(vec![0x90, 0x03, 0x00, 0x02]),
        Decoded::Invalid(DecodeError::SubackTooShort)
    ));
    assert!(matches!(
        SubackPacket.decode(vec![0x90, 0x04, 0x00, 0x02, 0x00]),
        Decoded::Invalid(DecodeError::SubackRemainingLength { remaining_length: 4 })
    ));
    assert!(matches!(
        SubscriberPacketResponse.decode(vec![0x91, 0x03, 0x00, 0x02, 0x80]),
        Decoded::Invalid(DecodeError::NotSuback)
    ));
    match SubscriberPacketResponse.decode(vec![0x90, 0x03, 0x01, 0x00, 0x80]) {
        Decoded::Suback { packet_id, return_code } => {
            assert_eq!(packet_id, 256);
            assert_eq!(return_code, SubackReturnCode::Failure);
        }
        other => panic!("unexpected {:?}", other),
    }
}

#[test]
fn acknowledgement_decoding() {
    assert!(matches!(
        PubackPacket.decode(vec![0x40, 0x02, 0x04, 0xD2]),
        Decoded::Puback { packet_id: 1234 }
    ));
    assert!(matches!(
        PubrecPacket.decode(vec![0x50, 0x02, 0x04, 0xD2]),
        Decoded::Pubrec { packet_id: 1234 }
    ));
    assert!(matches!(
        PubcompPacket.decode(vec![0x70, 0x02, 0x04, 0xD2]),
        Decoded::Pubcomp { packet_id: 1234 }
    ));
    assert!(matches!(
        UnsubackPacket.decode(vec![0xB0, 0x02, 0x00, 0x03]),
        Decoded::Unsuback { packet_id: 3 }
    ));
    assert!(matches!(
        PubackPacket.decode(vec![0x40, 0x02, 0x04]),
        Decoded::Invalid(DecodeError::PubackLength)
    ));
    assert!(matches!(
        UnsubackPacket.decode(vec![0xB0, 0x02, 0x00, 0x03, 0x00]),
        Decoded::Invalid(DecodeError::UnsubackLength)
    ));
}

#[test]
fn pingresp_decoding() {
    assert!(matches!(PingResPacket.decode(vec![0xD0, 0x00]), Decoded::Pingresp));
    assert!(matches!(
        PingResPacket.decode(vec![0xD0, 0x00, 0x00]),
        Decoded::Invalid(DecodeError::PingrespLength)
    ));
    assert!(matches!(
        PingResPacket.decode(vec![0xC0, 0x00]),
        Decoded::Invalid(DecodeError::NotPingresp)
    ));
}

#[test]
fn handle_packet_dispatch() {
    assert!(matches!(
        handle_packet(vec![0x40, 0x02, 0x00, 0x07]),
        Some(Decoded::Puback { packet_id: 7 })
    ));
    assert!(matches!(handle_packet(vec![0xD0, 0x00]), Some(Decoded::Pingresp)));
    assert!(handle_packet(vec![0x20, 0x02, 0x00, 0x00]).is_none());
    assert!(handle_packet(vec![0x62, 0x02, 0x00, 0x01]).is_none());
    match handle_packet(vec![0x30, 6, 0x00, 0x01, b'x', 0x00, 0x01, b'y']) {
        Some(Decoded::Publish { topic, message }) => {
            assert_eq!(topic, "x");
            assert_eq!(message, "y");
        }
        other => panic!("unexpected {:?}", other),
    }
}

#[test]
fn can_handle_packet_checks() {
    assert!(!can_handle_packet(&vec![]));
    assert!(!can_handle_packet(&vec![0x33, 0x00]));
    assert!(can_handle_packet(&vec![0x40, 0x02]));
    assert!(!can_handle_packet(&vec![0xB0, 0x02]));
    assert!(can_handle_packet(&vec![0x30, 0x00]));
    assert!(!can_handle_packet(&vec![0x30, 0x05, 0x00, 0x09, b'a']));
    assert!(!can_handle_packet(&vec![0x30, 0x05, 0x00, 0x01, 0xFF, 0x00, 0x00]));
    assert!(can_handle_packet(&vec![0x30, 0x05, 0x00, 0x01, b'a', 0x00, 0x00]));
}

#[test]
fn every_encoded_packet_carries_its_remaining_length() {
    let packets = vec![
        ConnectPacket::new(60, "client".to_string()).encode().unwrap(),
        DisconnectPacket.encode().unwrap(),
        PingPacket.encode().unwrap(),
        PublishPacket::new("a/b", "payload", 9, 0, 1, 0).encode().unwrap(),
        SubscribePacket::new(2, "a/#", 0).encode().unwrap(),
        UnsubscribePacket::new(3, "a/#").encode().unwrap(),
        PubrelPacket::new(77).encode().unwrap(),
    ];
    for bytes in packets {
        assert_eq!(bytes[1] as usize, (bytes.len() - 2) % 256);
    }
}

#[test]
fn publish_header_flags_read_back() {
    for dup in 0..2u8 {
        for qos in 0..3u8 {
            for retain in 0..2u8 {
                let bytes = encode(PublishPacket::new("t", "m", 1, dup, qos, retain));
                let b = bytes[0];
                assert_eq!(b >> 4, 3);
                assert_eq!((b >> 3) & 1, dup);
                assert_eq!((b >> 1) & 3, qos);
                assert_eq!(b & 1, retain);
            }
        }
    }
}

#[test]
fn subscriber_response_reports_remaining_length() {
    let decoded = SubscriberPacketResponse.decode(vec![0x90, 0x07, 0x00, 0x02, 0x00]);
    assert!(matches!(
        decoded,
        Decoded::Invalid(DecodeError::SubackRemainingLength { remaining_length: 7 })
    ));
    assert_eq!(
        decoded.lines(),
        vec![
            "Get Suback packet, 7".to_string(),
            "Remaining Length is invalid, it must be 3 bytes".to_string()
        ]
    );
    assert_eq!(
        SubscriberPacketResponse.decode(vec![0x90, 0x03]).lines(),
        vec!["Invalid Suback packet, it must be at least 5 bytes".to_string()]
    );
    assert_eq!(
        SubscriberPacketResponse.decode(vec![0x91, 0x03, 0, 0, 0]).lines(),
        vec![" this is not suback packet, Error".to_string()]
    );
}

#[test]
fn report_lines() {
    assert_eq!(
        ConnackPacket.decode(vec![0x20, 0x02, 0x01, 0x00]).lines(),
        vec![
            "Fixed Header: 0x20 (CONNACK)".to_string(),
            "Remaining Length: 2".to_string(),
            "Session Present Flag: 1".to_string(),
            "Return Code: 0x00 (Connection Accepted)".to_string()
        ]
    );
    assert_eq!(
        ConnackPacket.decode(vec![0x20, 0x02, 0x00, 0xAB]).lines()[3],
        "Return Code: 0xab (Unknown)".to_string()
    );
    assert_eq!(
        ConnackPacket.decode(vec![0x2F, 0x05, 0x00, 0x00]).lines(),
        vec![
            "Fixed Header: 0x2f (CONNACK)".to_string(),
            "Remaining Length is invalid, it must be 2 bytes".to_string()
        ]
    );
    assert_eq!(
        ConnackPacket.decode(vec![0x20]).lines(),
        vec!["Connack packet is invalid, need at least 4 byte".to_string()]
    );
    assert_eq!(
        SubackPacket.decode(vec![0x90, 0x03, 0x0A, 0xBC, 0x02]).lines(),
        vec![
            "Get Suback packet, 3".to_string(),
            "Get Packet ID = 0x0ABC".to_string(),
            "Success sub with qos 2".to_string()
        ]
    );
    assert_eq!(
        PubcompPacket.decode(vec![0x70, 0x02, 0x04, 0xD2]).lines(),
        vec!["Get Pubrec Packet ID 0x04D2".to_string()]
    );
    assert_eq!(
        UnsubackPacket.decode(vec![0xB0, 0x02, 0x00, 0x03]).lines(),
        vec!["Get Packet ID = 0x0003".to_string(), "Get Unsuback successfully".to_string()]
    );
    assert_eq!(
        PublishPacketGet.decode(vec![0x30, 5, 0x00, 0x01, b't', 0, 1, b'm']).lines(),
        vec!["Topic = t".to_string(), "Message = m".to_string()]
    );
    assert_eq!(
        PingResPacket.decode(vec![0xD0, 0x00]).lines(),
        vec!["Get Pingres from broker, stable connection!".to_string()]
    );
    assert_eq!(
        PingResPacket.decode(vec![0xD0, 0, 0]).lines(),
        vec!["Error: Pingres is 2 bytes".to_string()]
    );
}

#[test]
fn or_output_variants() {
    let first: mqtt_common::or_output::OrOutput7<u8, u8, u8, u8, u8, u8, u8> =
        mqtt_common::or_output::OrOutput7::Three(3);
    assert!(matches!(first, mqtt_common::or_output::OrOutput7::Three(3)));
}
