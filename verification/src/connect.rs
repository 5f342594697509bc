use vstd::prelude::*;
use vstd::utf8::encode_utf8;

use crate::package::decode::{read_be16, Decode, DecodeError, Decoded};
use crate::package::encode::{be16, push_be16, push_bytes, Encode};
use crate::package::types::ControlPackets;

verus! {

/// The return code of a CONNACK packet.
#[derive(Debug, Clone, Copy, PartialEq, Eq, Structural)]
pub enum ConnackReturnCode {
    ConnectionAccept,
    UnacceptableProtocolVersion,
    IdentifierReject,
    ServerUnavailable,
    BadUsernameOrPassword,
    NotAuthorized,
    UnknownCode,
}

impl ConnackReturnCode {
    /// The return code that a CONNACK byte stands for; bytes above 5 are unknown.
    pub open spec fn spec_from_u8(code: u8) -> ConnackReturnCode {
        if code == 0x00 {
            ConnackReturnCode::ConnectionAccept
        } else if code == 0x01 {
            ConnackReturnCode::UnacceptableProtocolVersion
        } else if code == 0x02 {
            ConnackReturnCode::IdentifierReject
        } else if code == 0x03 {
            ConnackReturnCode::ServerUnavailable
        } else if code == 0x04 {
            ConnackReturnCode::BadUsernameOrPassword
        } else if code == 0x05 {
            ConnackReturnCode::NotAuthorized
        } else {
            ConnackReturnCode::UnknownCode
        }
    }

    pub fn from_u8(code: u8) -> (r: Self)
        ensures
            r == Self::spec_from_u8(code),
    {
        match code {
            0x00 => Self::ConnectionAccept,
            0x01 => Self::UnacceptableProtocolVersion,
            0x02 => Self::IdentifierReject,
            0x03 => Self::ServerUnavailable,
            0x04 => Self::BadUsernameOrPassword,
            0x05 => Self::NotAuthorized,
            _ => Self::UnknownCode,
        }
    }
}

/// The CONNECT packet of MQTT 3.1.1, with a clean session and no will,
/// user name or password.
#[derive(Default)]
pub struct ConnectPacket {
    pub keep_alive: u16,
    pub client_id: String,
}

/// The DISCONNECT packet.
pub struct DisconnectPacket;

/// The CONNACK packet, as a decoder.
pub struct ConnackPacket;

impl ConnectPacket {
    pub fn new(keep_alive: u16, client_id: String) -> (r: Self)
        ensures
            r.keep_alive == keep_alive,
            r.client_id == client_id,
    {
        Self { keep_alive, client_id }
    }
}

/// The fixed bytes of a CONNECT variable header: the protocol name "MQTT",
/// level 4 and the connect flags with only clean session set.
pub open spec fn connect_protocol_header() -> Seq<u8> {
    seq![0x00u8, 0x04, 0x4D, 0x51, 0x54, 0x54, 0x04, 0x02]
}

impl Encode for ConnectPacket {
    open spec fn encodable(&self) -> bool {
        true
    }

    /// Refused unless the client identifier is non-empty and shorter than 24
    /// bytes; the remaining length is 12 plus its length.
    open spec fn spec_encode(&self) -> Option<Seq<u8>> {
        let id = encode_utf8(self.client_id@);
        if self.client_id@.len() != 0 && id.len() < 24 {
            Some(
                seq![ControlPackets::Connect.spec_byte(), (12 + id.len()) as u8]
                    + connect_protocol_header() + be16(self.keep_alive as int) + be16(
                    id.len() as int,
                ) + id,
            )
        } else {
            None
        }
    }

    proof fn lemma_framed(&self) {
    }

    open spec fn spec_refusal(&self) -> Seq<char> {
        "Can't send connect packet to mqtt broker"@
    }

    fn encode(&self) -> (r: Result<Vec<u8>, String>) {
        let id = self.client_id.as_str();
        let bytes = id.as_bytes();
        if !id.is_empty() && bytes.len() < 24 {
            let mut packet: Vec<u8> = Vec::new();
            packet.push(ControlPackets::Connect.as_byte());
            let remaining_length = 10 + 2 + bytes.len();
            packet.push(remaining_length as u8);
            packet.push(0x00);
            packet.push(0x04);
            packet.push(0x4D);
            packet.push(0x51);
            packet.push(0x54);
            packet.push(0x54);
            packet.push(0x04);
            packet.push(0x02);
            push_be16(&mut packet, self.keep_alive as usize);
            push_be16(&mut packet, bytes.len());
            push_bytes(&mut packet, bytes);
            proof {
                assert(packet@ =~= self.spec_encode().unwrap());
            }
            Ok(packet)
        } else {
            Err("Can't send connect packet to mqtt broker".to_string())
        }
    }
}

impl Encode for DisconnectPacket {
    open spec fn encodable(&self) -> bool {
        true
    }

    /// DISCONNECT has no variable header and no payload.
    open spec fn spec_encode(&self) -> Option<Seq<u8>> {
        Some(seq![ControlPackets::Disconnect.spec_byte(), 0x00])
    }

    proof fn lemma_framed(&self) {
    }

    open spec fn spec_refusal(&self) -> Seq<char> {
        Seq::empty()
    }

    fn encode(&self) -> (r: Result<Vec<u8>, String>) {
        let mut packet = vec![ControlPackets::Disconnect.as_byte()];
        packet.push(0x00);
        assert(packet@ =~= self.spec_encode().unwrap());
        Ok(packet)
    }
}

/// What a CONNACK is read as. A packet that is not four bytes long is
/// refused; one whose second byte is not 2 is refused with its first byte;
/// otherwise the result keeps the first byte and the return-code byte, the
/// session-present flag is 0 or 1 as bit 0 of the third byte is, and the
/// return code is "accepted" exactly for byte 0 and unknown exactly above 5.
pub proof fn lemma_connack_fields(packet: Seq<u8>)
    ensures
        packet.len() != 4 ==> ConnackPacket.spec_decode(packet) == Decoded::<Seq<char>>::Invalid(
            DecodeError::ConnackLength,
        ),
        packet.len() == 4 && packet[1] != 2 ==> ConnackPacket.spec_decode(packet)
            == Decoded::<Seq<char>>::Invalid(
            DecodeError::ConnackRemainingLength { header: packet[0] },
        ),
        packet.len() == 4 && packet[1] == 2 ==> (ConnackPacket.spec_decode(packet) matches Decoded::Connack {
            header,
            session_present,
            return_code,
            code,
        } && header == packet[0] && code == packet[3] && session_present <= 1 && (session_present
            == 1 <==> packet[2] % 2 == 1) && (return_code == ConnackReturnCode::ConnectionAccept
            <==> packet[3] == 0) && (return_code == ConnackReturnCode::UnknownCode <==> packet[3]
            > 5)),
{
    if packet.len() == 4 && packet[1] == 2 {
        let b = packet[2];
        assert((b & 1u8) <= 1 && ((b & 1u8) == 1 <==> b % 2 == 1)) by (bit_vector);
    }
}

/// The fields of an encoded CONNECT read back: the keep-alive, then the
/// length of the client identifier and the identifier itself.
pub proof fn lemma_connect_fields(packet: ConnectPacket)
    requires
        packet.spec_encode() is Some,
    ensures
        packet.spec_encode().unwrap().len() == 14 + encode_utf8(packet.client_id@).len(),
        packet.spec_encode().unwrap()[0] == 0x10,
        crate::package::encode::be16_value(
            packet.spec_encode().unwrap()[10],
            packet.spec_encode().unwrap()[11],
        ) == packet.keep_alive,
        crate::package::encode::be16_value(
            packet.spec_encode().unwrap()[12],
            packet.spec_encode().unwrap()[13],
        ) == encode_utf8(packet.client_id@).len(),
        packet.spec_encode().unwrap().subrange(
            14,
            14 + encode_utf8(packet.client_id@).len() as int,
        ) == encode_utf8(packet.client_id@),
        0 < encode_utf8(packet.client_id@).len() < 24,
{
    let b = packet.spec_encode().unwrap();
    let id = encode_utf8(packet.client_id@);
    assert(b.subrange(14, 14 + id.len() as int) =~= id);
    vstd::utf8::encode_utf8_valid_utf8(packet.client_id@);
    if id.len() == 0 {
        assert(packet.client_id@.len() == 0) by {
            if packet.client_id@.len() > 0 {
                vstd::utf8::encode_utf8_first_scalar(packet.client_id@);
            }
        }
    }
}

/// The CONNACK return codes 0 to 5 stand for accepted, unacceptable protocol
/// version, identifier rejected, server unavailable, bad user name or
/// password and not authorized; every other byte is unknown.
pub proof fn lemma_connack_return_codes(code: u8)
    ensures
        code == 0 <==> ConnackReturnCode::spec_from_u8(code) == ConnackReturnCode::ConnectionAccept,
        code == 1 <==> ConnackReturnCode::spec_from_u8(code)
            == ConnackReturnCode::UnacceptableProtocolVersion,
        code == 2 <==> ConnackReturnCode::spec_from_u8(code) == ConnackReturnCode::IdentifierReject,
        code == 3 <==> ConnackReturnCode::spec_from_u8(code) == ConnackReturnCode::ServerUnavailable,
        code == 4 <==> ConnackReturnCode::spec_from_u8(code)
            == ConnackReturnCode::BadUsernameOrPassword,
        code == 5 <==> ConnackReturnCode::spec_from_u8(code) == ConnackReturnCode::NotAuthorized,
        code > 5 <==> ConnackReturnCode::spec_from_u8(code) == ConnackReturnCode::UnknownCode,
{
}

/// A DISCONNECT is the two bytes E0 00.
pub proof fn lemma_disconnect_bytes()
    ensures
        DisconnectPacket.spec_encode() == Some(seq![0xE0u8, 0x00u8]),
{
}

/// A CONNECT is refused exactly when the client identifier is empty or takes
/// 24 bytes or more.
pub proof fn lemma_connect_refusal(packet: ConnectPacket)
    ensures
        packet.spec_encode() is None <==> (packet.client_id@.len() == 0 || encode_utf8(
            packet.client_id@,
        ).len() >= 24),
{
}

impl Decode for ConnackPacket {
    open spec fn decodable(&self, packet: Seq<u8>) -> bool {
        true
    }

    /// A CONNACK is exactly four bytes with a remaining length of 2; bit 0
    /// of the third byte is the session-present flag and the fourth byte is
    /// the return code.
    open spec fn spec_decode(&self, packet: Seq<u8>) -> Decoded<Seq<char>> {
        if packet.len() != 4 {
            Decoded::Invalid(DecodeError::ConnackLength)
        } else if packet[1] != 0x02 {
            Decoded::Invalid(DecodeError::ConnackRemainingLength { header: packet[0] })
        } else {
            Decoded::Connack {
                header: packet[0],
                session_present: packet[2] & 0x01,
                return_code: ConnackReturnCode::spec_from_u8(packet[3]),
                code: packet[3],
            }
        }
    }

    fn decode(&self, packet: Vec<u8>) -> (r: Decoded<String>) {
        if packet.len() != 4 {
            return Decoded::Invalid(DecodeError::ConnackLength);
        }
        if packet[1] != 0x02 {
            return Decoded::Invalid(DecodeError::ConnackRemainingLength { header: packet[0] });
        }
        let session_present = packet[2] & 0x01;
        let return_code = packet[3];
        Decoded::Connack {
            header: packet[0],
            session_present,
            return_code: ConnackReturnCode::from_u8(return_code),
            code: return_code,
        }
    }
}

} // verus!
