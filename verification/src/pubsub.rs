use vstd::prelude::*;
use vstd::utf8::encode_utf8;

use crate::package::decode::{
    copy_range, read_be16, string_from_utf8, text_of, Decode, DecodeError, Decoded,
};
use crate::package::encode::{be16, be16_value, low_byte, low_byte_of, push_be16, push_bytes, Encode};
use vstd::utf8::{encode_utf8_decode_utf8, encode_utf8_valid_utf8, valid_utf8};
use crate::package::types::ControlPackets;

verus! {

/// The return code of a SUBACK packet.
#[derive(Debug, Clone, Copy, PartialEq, Eq, Structural)]
pub enum SubackReturnCode {
    MaximumQos0,
    MaximumQos1,
    MaximumQos2,
    Failure,
    Unknown,
}

impl SubackReturnCode {
    /// The return code that a SUBACK byte stands for.
    pub open spec fn spec_from_u8(code: u8) -> SubackReturnCode {
        if code == 0x00 {
            SubackReturnCode::MaximumQos0
        } else if code == 0x01 {
            SubackReturnCode::MaximumQos1
        } else if code == 0x02 {
            SubackReturnCode::MaximumQos2
        } else if code == 0x80 {
            SubackReturnCode::Failure
        } else {
            SubackReturnCode::Unknown
        }
    }

    pub fn from_u8(code: u8) -> (r: Self)
        ensures
            r == Self::spec_from_u8(code),
    {
        match code {
            0x00 => Self::MaximumQos0,
            0x01 => Self::MaximumQos1,
            0x02 => Self::MaximumQos2,
            0x80 => Self::Failure,
            _ => Self::Unknown,
        }
    }
}

/// The three quality-of-service levels of a PUBLISH.
#[derive(Debug, Clone, Copy, PartialEq, Eq, Structural)]
pub enum QosLevel {
    Qos0,
    Qos1,
    Qos2,
}

impl QosLevel {
    pub open spec fn spec_byte(self) -> u8 {
        match self {
            QosLevel::Qos0 => 0,
            QosLevel::Qos1 => 1,
            QosLevel::Qos2 => 2,
        }
    }

    pub fn as_byte(&self) -> (b: u8)
        ensures
            b == self.spec_byte(),
    {
        match self {
            QosLevel::Qos0 => 0,
            QosLevel::Qos1 => 1,
            QosLevel::Qos2 => 2,
        }
    }
}

/// The flags in the low nibble of a PUBLISH fixed header.
pub struct Last4BitsFixHeader {
    pub dup_flag: u8,
    pub qos_level: u8,
    pub retain: u8,
}

/// A PUBLISH received from the broker, as a decoder that does not skip a
/// packet identifier.
pub struct PublishPacketResponse;

/// A PUBLISH received from the broker, as a decoder that skips the two
/// bytes of a packet identifier after the topic.
pub struct PublishPacketGet;

/// A SUBSCRIBE packet with one topic filter.
pub struct SubscribePacket<'a> {
    pub packet_id: u16,
    pub topic_filter: &'a str,
    pub requested_qos: u8,
}

/// A SUBACK received from the broker, as a decoder that checks the packet type.
pub struct SubscriberPacketResponse;

/// A PUBLISH packet to send.
pub struct PublishPacket<'a> {
    pub last4bits_fix_header: Last4BitsFixHeader,
    pub topic_name: &'a str,
    pub packet_id: u16,
    pub payload: &'a str,
}

/// An UNSUBSCRIBE packet with one topic filter.
pub struct UnsubscribePacket<'a> {
    pub packet_id: u16,
    pub topic: &'a str,
}

/// A PUBREL packet, the third step of a QoS 2 exchange.
pub struct PubrelPacket {
    pub packet_id: u16,
}

/// A PUBACK received from the broker, as a decoder.
pub struct PubackPacket;

/// A PUBREC received from the broker, as a decoder.
pub struct PubrecPacket;

/// A PUBCOMP received from the broker, as a decoder.
pub struct PubcompPacket;

/// A SUBACK received from the broker, as a decoder.
pub struct SubackPacket;

/// An UNSUBACK received from the broker, as a decoder.
pub struct UnsubackPacket;

/// The first byte of a PUBLISH: the packet type with the DUP flag at bit 3,
/// the QoS at bits 2-1 and RETAIN at bit 0, each shifted within a byte.
pub open spec fn publish_header_byte(dup_flag: u8, qos_level: u8, retain: u8) -> u8 {
    ControlPackets::Publish.spec_byte() | (dup_flag << 3u8) | (qos_level << 1u8) | retain
}

impl<'a> PublishPacket<'a> {
    pub fn new(
        topic_name: &'a str,
        payload: &'a str,
        packet_id: u16,
        dup_flag: u8,
        qos_level: u8,
        retain: u8,
    ) -> (r: Self)
        ensures
            r.topic_name == topic_name,
            r.payload == payload,
            r.packet_id == packet_id,
            r.last4bits_fix_header.dup_flag == dup_flag,
            r.last4bits_fix_header.qos_level == qos_level,
            r.last4bits_fix_header.retain == retain,
    {
        Self {
            last4bits_fix_header: Last4BitsFixHeader { dup_flag, qos_level, retain },
            topic_name,
            packet_id,
            payload,
        }
    }

    /// The encoded bytes of the topic.
    pub open spec fn topic_bytes(&self) -> Seq<u8> {
        encode_utf8(self.topic_name@)
    }

    /// The encoded bytes of the payload.
    pub open spec fn payload_bytes(&self) -> Seq<u8> {
        encode_utf8(self.payload@)
    }
}

impl<'a> Encode for PublishPacket<'a> {
    open spec fn encodable(&self) -> bool {
        4 + self.topic_bytes().len() + self.payload_bytes().len() <= usize::MAX
    }

    /// Fixed header, the low byte of the remaining length, the topic with its
    /// two-byte length, the packet identifier (whatever the QoS) and the payload.
    open spec fn spec_encode(&self) -> Option<Seq<u8>> {
        let h = self.last4bits_fix_header;
        let t = self.topic_bytes();
        let p = self.payload_bytes();
        Some(
            seq![
                publish_header_byte(h.dup_flag, h.qos_level, h.retain),
                low_byte((2 + t.len() + 2 + p.len()) as int),
            ] + be16(t.len() as int) + t + be16(self.packet_id as int) + p,
        )
    }

    proof fn lemma_framed(&self) {
    }

    open spec fn spec_refusal(&self) -> Seq<char> {
        Seq::empty()
    }

    fn encode(&self) -> (r: Result<Vec<u8>, String>) {
        let topic = self.topic_name.as_bytes();
        let payload = self.payload.as_bytes();
        let mut packet = vec![
            ControlPackets::Publish.as_byte() | (self.last4bits_fix_header.dup_flag << 3u8) | (
            self.last4bits_fix_header.qos_level << 1u8) | self.last4bits_fix_header.retain,
        ];
        let remain_length = 2 + topic.len() + 2 + payload.len();
        packet.push(low_byte_of(remain_length));
        push_be16(&mut packet, topic.len());
        push_bytes(&mut packet, topic);
        push_be16(&mut packet, self.packet_id as usize);
        push_bytes(&mut packet, payload);
        assert(packet@ =~= self.spec_encode().unwrap());
        Ok(packet)
    }
}

impl<'a> SubscribePacket<'a> {
    pub fn new(packet_id: u16, topic_filter: &'a str, requested_qos: u8) -> (r: Self)
        ensures
            r.packet_id == packet_id,
            r.topic_filter == topic_filter,
            r.requested_qos == requested_qos,
    {
        Self { packet_id, topic_filter, requested_qos }
    }
}

impl<'a> Encode for SubscribePacket<'a> {
    open spec fn encodable(&self) -> bool {
        5 + encode_utf8(self.topic_filter@).len() <= usize::MAX
    }

    /// Fixed header, remaining length, packet identifier, the topic filter
    /// with its two-byte length, and the requested QoS.
    open spec fn spec_encode(&self) -> Option<Seq<u8>> {
        let t = encode_utf8(self.topic_filter@);
        Some(
            seq![ControlPackets::Subscribe.spec_byte(), low_byte((2 + 2 + t.len() + 1) as int)] + be16(
                self.packet_id as int,
            ) + be16(t.len() as int) + t + seq![self.requested_qos],
        )
    }

    proof fn lemma_framed(&self) {
    }

    open spec fn spec_refusal(&self) -> Seq<char> {
        Seq::empty()
    }

    fn encode(&self) -> (r: Result<Vec<u8>, String>) {
        let topic = self.topic_filter.as_bytes();
        let mut packet: Vec<u8> = vec![ControlPackets::Subscribe.as_byte()];
        let remain_length = 2 + 2 + topic.len() + 1;
        packet.push(low_byte_of(remain_length));
        push_be16(&mut packet, self.packet_id as usize);
        push_be16(&mut packet, topic.len());
        push_bytes(&mut packet, topic);
        packet.push(self.requested_qos);
        assert(packet@ =~= self.spec_encode().unwrap());
        Ok(packet)
    }
}

impl<'a> UnsubscribePacket<'a> {
    pub fn new(packet_id: u16, topic: &'a str) -> (r: Self)
        ensures
            r.packet_id == packet_id,
            r.topic == topic,
    {
        Self { packet_id, topic }
    }
}

impl<'a> Encode for UnsubscribePacket<'a> {
    open spec fn encodable(&self) -> bool {
        4 + encode_utf8(self.topic@).len() <= usize::MAX
    }

    /// Fixed header, remaining length, packet identifier and the topic filter
    /// with its two-byte length.
    open spec fn spec_encode(&self) -> Option<Seq<u8>> {
        let t = encode_utf8(self.topic@);
        Some(
            seq![ControlPackets::Unsubscribe.spec_byte(), low_byte((2 + 2 + t.len()) as int)] + be16(
                self.packet_id as int,
            ) + be16(t.len() as int) + t,
        )
    }

    proof fn lemma_framed(&self) {
    }

    open spec fn spec_refusal(&self) -> Seq<char> {
        Seq::empty()
    }

    fn encode(&self) -> (r: Result<Vec<u8>, String>) {
        let topic = self.topic.as_bytes();
        let mut packet: Vec<u8> = vec![ControlPackets::Unsubscribe.as_byte()];
        let remaining_length = 2 + 2 + topic.len();
        packet.push(low_byte_of(remaining_length));
        push_be16(&mut packet, self.packet_id as usize);
        push_be16(&mut packet, topic.len());
        push_bytes(&mut packet, topic);
        assert(packet@ =~= self.spec_encode().unwrap());
        Ok(packet)
    }
}

impl PubrelPacket {
    pub fn new(packet_id: u16) -> (r: Self)
        ensures
            r.packet_id == packet_id,
    {
        Self { packet_id }
    }
}

impl Encode for PubrelPacket {
    open spec fn encodable(&self) -> bool {
        true
    }

    /// Fixed header, remaining length 2 and the packet identifier.
    open spec fn spec_encode(&self) -> Option<Seq<u8>> {
        Some(seq![ControlPackets::Pubrel.spec_byte(), 0x02u8] + be16(self.packet_id as int))
    }

    proof fn lemma_framed(&self) {
    }

    open spec fn spec_refusal(&self) -> Seq<char> {
        Seq::empty()
    }

    fn encode(&self) -> (r: Result<Vec<u8>, String>) {
        let mut packet: Vec<u8> = vec![ControlPackets::Pubrel.as_byte()];
        packet.push(0x02);
        push_be16(&mut packet, self.packet_id as usize);
        assert(packet@ =~= self.spec_encode().unwrap());
        Ok(packet)
    }
}

/// The packet identifier in bytes 2 and 3 of an acknowledgement.
pub open spec fn spec_packet_id(packet: Seq<u8>) -> u16 {
    be16_value(packet[2], packet[3])
}

/// Where the topic of a received PUBLISH ends: after the two length bytes
/// and the topic length they give.
pub open spec fn topic_end(packet: Seq<u8>) -> int {
    4 + be16_value(packet[2], packet[3])
}

/// Reads the topic length of a received PUBLISH: `(p[2] << 8) | p[3]`.
fn read_topic_end(packet: &Vec<u8>) -> (r: usize)
    requires
        packet.len() >= 4,
    ensures
        r == topic_end(packet@),
{
    let topic_length = ((packet[2] as usize) << 8) | (packet[3] as usize);
    let hi = packet[2];
    let lo = packet[3];
    assert(((hi as usize) << 8) | (lo as usize) == be16_value(hi, lo) as usize) by (bit_vector);
    4 + topic_length
}

impl Decode for PublishPacketGet {
    /// Longer packets must hold the whole topic and two more bytes, and both
    /// the topic and what follows those two bytes must be UTF-8.
    open spec fn decodable(&self, packet: Seq<u8>) -> bool {
        packet.len() >= 4 ==> {
            let end = topic_end(packet);
            &&& end + 2 <= packet.len()
            &&& valid_utf8(packet.subrange(4, end))
            &&& valid_utf8(packet.subrange(end + 2, packet.len() as int))
        }
    }

    /// The topic follows its two-byte length; the message is everything after
    /// the two bytes of the packet identifier that follow the topic.
    open spec fn spec_decode(&self, packet: Seq<u8>) -> Decoded<Seq<char>> {
        if packet.len() < 4 {
            Decoded::Invalid(DecodeError::PublishTooShort)
        } else {
            let end = topic_end(packet);
            Decoded::Publish {
                topic: text_of(packet.subrange(4, end)),
                message: text_of(packet.subrange(end + 2, packet.len() as int)),
            }
        }
    }

    fn decode(&self, packet: Vec<u8>) -> (r: Decoded<String>) {
        if packet.len() < 4 {
            return Decoded::Invalid(DecodeError::PublishTooShort);
        }
        let topic_start: usize = 4;
        let topic_end = read_topic_end(&packet);
        let topic = string_from_utf8(copy_range(&packet, topic_start, topic_end)).unwrap();
        let payload_start = topic_end + 2;
        let payload = string_from_utf8(copy_range(&packet, payload_start, packet.len())).unwrap();
        Decoded::Publish { topic, message: payload }
    }
}

impl Decode for PublishPacketResponse {
    /// A PUBLISH must hold the whole topic, and the topic and all that follows
    /// it must be UTF-8.
    open spec fn decodable(&self, packet: Seq<u8>) -> bool {
        packet.len() >= 4 && packet[0] == ControlPackets::Publish.spec_byte() ==> {
            let end = topic_end(packet);
            &&& end <= packet.len()
            &&& valid_utf8(packet.subrange(4, end))
            &&& valid_utf8(packet.subrange(end, packet.len() as int))
        }
    }

    /// The topic follows its two-byte length and the message is everything
    /// after the topic.
    open spec fn spec_decode(&self, packet: Seq<u8>) -> Decoded<Seq<char>> {
        if packet.len() < 4 {
            Decoded::Invalid(DecodeError::PublishTooShort)
        } else if packet[0] != ControlPackets::Publish.spec_byte() {
            Decoded::Invalid(DecodeError::NotPublish)
        } else {
            let end = topic_end(packet);
            Decoded::Publish {
                topic: text_of(packet.subrange(4, end)),
                message: text_of(packet.subrange(end, packet.len() as int)),
            }
        }
    }

    fn decode(&self, packet: Vec<u8>) -> (r: Decoded<String>) {
        if packet.len() < 4 {
            return Decoded::Invalid(DecodeError::PublishTooShort);
        }
        if packet[0] != ControlPackets::Publish.as_byte() {
            return Decoded::Invalid(DecodeError::NotPublish);
        }
        let topic_start: usize = 4;
        let topic_end = read_topic_end(&packet);
        let topic = string_from_utf8(copy_range(&packet, topic_start, topic_end)).unwrap();
        let payload_start = topic_end;
        let payload = string_from_utf8(copy_range(&packet, payload_start, packet.len())).unwrap();
        Decoded::Publish { topic, message: payload }
    }
}

/// What `PublishPacketGet` reads back out of an encoded PUBLISH is the topic
/// and the payload that were encoded, whenever the topic is short enough for
/// its two-byte length field.
pub proof fn lemma_publish_roundtrip(packet: PublishPacket)
    requires
        packet.encodable(),
        packet.topic_bytes().len() < 65536,
    ensures
        PublishPacketGet.decodable(packet.spec_encode().unwrap()),
        PublishPacketGet.spec_decode(packet.spec_encode().unwrap()) == (Decoded::Publish {
            topic: packet.topic_name@,
            message: packet.payload@,
        }),
{
    let bytes = packet.spec_encode().unwrap();
    let t = packet.topic_bytes();
    let p = packet.payload_bytes();
    let n = t.len() as int;
    assert(bytes[2] == low_byte(n / 256));
    assert(bytes[3] == low_byte(n));
    assert(topic_end(bytes) == 4 + n);
    assert(bytes.subrange(4, 4 + n) =~= t);
    assert(bytes.subrange(4 + n + 2, bytes.len() as int) =~= p);
    encode_utf8_valid_utf8(packet.topic_name@);
    encode_utf8_valid_utf8(packet.payload@);
    encode_utf8_decode_utf8(packet.topic_name@);
    encode_utf8_decode_utf8(packet.payload@);
}

/// The fields of an encoded SUBSCRIBE read back: its type byte, the packet
/// identifier, the length of the topic filter, the topic filter itself, and,
/// as the last byte, the requested QoS as given.
pub proof fn lemma_subscribe_fields(packet: SubscribePacket)
    requires
        packet.encodable(),
        encode_utf8(packet.topic_filter@).len() < 65536,
    ensures
        packet.spec_encode().unwrap().len() == 7 + encode_utf8(packet.topic_filter@).len(),
        packet.spec_encode().unwrap()[0] == 0x82,
        be16_value(packet.spec_encode().unwrap()[2], packet.spec_encode().unwrap()[3])
            == packet.packet_id,
        be16_value(packet.spec_encode().unwrap()[4], packet.spec_encode().unwrap()[5])
            == encode_utf8(packet.topic_filter@).len(),
        text_of(
            packet.spec_encode().unwrap().subrange(
                6,
                6 + encode_utf8(packet.topic_filter@).len() as int,
            ),
        ) == packet.topic_filter@,
        packet.spec_encode().unwrap().last() == packet.requested_qos,
{
    let b = packet.spec_encode().unwrap();
    let t = encode_utf8(packet.topic_filter@);
    assert(b.subrange(6, 6 + t.len() as int) =~= t);
    encode_utf8_decode_utf8(packet.topic_filter@);
}

/// The fields of an encoded UNSUBSCRIBE read back: its type byte, the packet
/// identifier, the length of the topic filter and the topic filter itself,
/// which ends the packet.
pub proof fn lemma_unsubscribe_fields(packet: UnsubscribePacket)
    requires
        packet.encodable(),
        encode_utf8(packet.topic@).len() < 65536,
    ensures
        packet.spec_encode().unwrap().len() == 6 + encode_utf8(packet.topic@).len(),
        packet.spec_encode().unwrap()[0] == 0xA2,
        be16_value(packet.spec_encode().unwrap()[2], packet.spec_encode().unwrap()[3])
            == packet.packet_id,
        be16_value(packet.spec_encode().unwrap()[4], packet.spec_encode().unwrap()[5])
            == encode_utf8(packet.topic@).len(),
        text_of(packet.spec_encode().unwrap().subrange(6, packet.spec_encode().unwrap().len() as int))
            == packet.topic@,
{
    let b = packet.spec_encode().unwrap();
    let t = encode_utf8(packet.topic@);
    assert(b.subrange(6, b.len() as int) =~= t);
    encode_utf8_decode_utf8(packet.topic@);
}

/// An encoded PUBREL is four bytes: its type byte 0x62, the remaining
/// length 2 and the packet identifier, which reads back.
pub proof fn lemma_pubrel_fields(packet: PubrelPacket)
    ensures
        packet.spec_encode().unwrap().len() == 4,
        packet.spec_encode().unwrap()[0] == 0x62,
        packet.spec_encode().unwrap()[1] == 2,
        be16_value(packet.spec_encode().unwrap()[2], packet.spec_encode().unwrap()[3])
            == packet.packet_id,
{
}

/// The packet identifier of an encoded PUBLISH reads back from the two bytes
/// after the topic, and the payload ends the packet.
pub proof fn lemma_publish_fields(packet: PublishPacket)
    requires
        packet.encodable(),
        packet.topic_bytes().len() < 65536,
    ensures
        ({
            let b = packet.spec_encode().unwrap();
            let n = packet.topic_bytes().len() as int;
            &&& b.len() == 6 + n + packet.payload_bytes().len()
            &&& be16_value(b[2], b[3]) == n
            &&& be16_value(b[4 + n], b[5 + n]) == packet.packet_id
            &&& b.subrange(6 + n, b.len() as int) == packet.payload_bytes()
        }),
{
    let b = packet.spec_encode().unwrap();
    let n = packet.topic_bytes().len() as int;
    assert(b.subrange(6 + n, b.len() as int) =~= packet.payload_bytes());
}

/// The flags of a PUBLISH can be read back from its first byte: the high
/// nibble is the PUBLISH type, DUP is bit 3, the QoS bits 2-1 and RETAIN bit 0.
pub proof fn lemma_publish_header_flags(dup: u8, qos: u8, retain: u8)
    requires
        dup <= 1,
        qos <= 2,
        retain <= 1,
    ensures
        publish_header_byte(dup, qos, retain) >> 4u8 == 3,
        (publish_header_byte(dup, qos, retain) >> 3u8) & 1 == dup,
        (publish_header_byte(dup, qos, retain) >> 1u8) & 3 == qos,
        publish_header_byte(dup, qos, retain) & 1 == retain,
{
    assert(dup <= 1 && qos <= 2 && retain <= 1 ==> {
        let b = 0x30u8 | (dup << 3u8) | (qos << 1u8) | retain;
        &&& b >> 4u8 == 3
        &&& (b >> 3u8) & 1 == dup
        &&& (b >> 1u8) & 3 == qos
        &&& b & 1 == retain
    }) by (bit_vector);
}

/// Each acknowledgement of two bytes of fixed header and a packet identifier
/// is read back to the identifier it carries.
pub proof fn lemma_ack_packet_id(id: u16)
    ensures
        PubackPacket.spec_decode(seq![ControlPackets::Puback.spec_byte(), 0x02u8] + be16(id as int))
            == (Decoded::<Seq<char>>::Puback { packet_id: id }),
        PubrecPacket.spec_decode(seq![ControlPackets::Pubrec.spec_byte(), 0x02u8] + be16(id as int))
            == (Decoded::<Seq<char>>::Pubrec { packet_id: id }),
        PubcompPacket.spec_decode(
            seq![ControlPackets::Pubcomp.spec_byte(), 0x02u8] + be16(id as int),
        ) == (Decoded::<Seq<char>>::Pubcomp { packet_id: id }),
        UnsubackPacket.spec_decode(
            seq![ControlPackets::Unsuback.spec_byte(), 0x02u8] + be16(id as int),
        ) == (Decoded::<Seq<char>>::Unsuback { packet_id: id }),
{
}

/// The acknowledgements of four bytes refuse every packet of another length
/// (an UNSUBACK only those that are longer), each with its own error.
pub proof fn lemma_ack_refusals(packet: Seq<u8>)
    ensures
        packet.len() != 4 ==> PubackPacket.spec_decode(packet) == Decoded::<Seq<char>>::Invalid(
            DecodeError::PubackLength,
        ),
        packet.len() != 4 ==> PubrecPacket.spec_decode(packet) == Decoded::<Seq<char>>::Invalid(
            DecodeError::PubrecLength,
        ),
        packet.len() != 4 ==> PubcompPacket.spec_decode(packet) == Decoded::<Seq<char>>::Invalid(
            DecodeError::PubcompLength,
        ),
        packet.len() > 4 ==> UnsubackPacket.spec_decode(packet) == Decoded::<Seq<char>>::Invalid(
            DecodeError::UnsubackLength,
        ),
        packet.len() == 4 ==> PubackPacket.spec_decode(packet) == (Decoded::<Seq<char>>::Puback {
            packet_id: be16_value(packet[2], packet[3]),
        }),
        packet.len() == 4 ==> UnsubackPacket.spec_decode(packet) == (Decoded::<Seq<char>>::Unsuback {
            packet_id: be16_value(packet[2], packet[3]),
        }),
{
}

/// Both SUBACK decoders refuse packets shorter than five bytes, and packets
/// whose second byte is not 3 with that byte; `SubscriberPacketResponse`
/// also refuses packets whose first byte is not 90. An accepted SUBACK is
/// read as the packet identifier in bytes 2-3 and the return code of byte 4.
pub proof fn lemma_suback_decoding(packet: Seq<u8>)
    ensures
        packet.len() < 5 ==> SubackPacket.spec_decode(packet) == Decoded::<Seq<char>>::Invalid(
            DecodeError::SubackTooShort,
        ),
        packet.len() < 5 ==> SubscriberPacketResponse.spec_decode(packet)
            == Decoded::<Seq<char>>::Invalid(DecodeError::SubackTooShort),
        packet.len() >= 5 && packet[0] != 0x90 ==> SubscriberPacketResponse.spec_decode(packet)
            == Decoded::<Seq<char>>::Invalid(DecodeError::NotSuback),
        packet.len() >= 5 && packet[1] != 3 ==> SubackPacket.spec_decode(packet)
            == Decoded::<Seq<char>>::Invalid(
            DecodeError::SubackRemainingLength { remaining_length: packet[1] },
        ),
        packet.len() >= 5 && packet[0] == 0x90 && packet[1] != 3
            ==> SubscriberPacketResponse.spec_decode(packet) == Decoded::<Seq<char>>::Invalid(
            DecodeError::SubackRemainingLength { remaining_length: packet[1] },
        ),
        packet.len() >= 5 && packet[1] == 3 ==> SubackPacket.spec_decode(packet)
            == (Decoded::<Seq<char>>::Suback {
            packet_id: be16_value(packet[2], packet[3]),
            return_code: SubackReturnCode::spec_from_u8(packet[4]),
        }),
        packet.len() >= 5 && packet[0] == 0x90 ==> SubscriberPacketResponse.spec_decode(packet)
            == SubackPacket.spec_decode(packet),
{
}

/// The return codes 0, 1 and 2 grant QoS 0, 1 and 2, 0x80 is a failure and
/// every other byte is unknown.
pub proof fn lemma_suback_return_codes(code: u8)
    ensures
        code == 0 <==> SubackReturnCode::spec_from_u8(code) == SubackReturnCode::MaximumQos0,
        code == 1 <==> SubackReturnCode::spec_from_u8(code) == SubackReturnCode::MaximumQos1,
        code == 2 <==> SubackReturnCode::spec_from_u8(code) == SubackReturnCode::MaximumQos2,
        code == 0x80 <==> SubackReturnCode::spec_from_u8(code) == SubackReturnCode::Failure,
{
}

/// A SUBACK of one return code is read back to its packet identifier and
/// return code, by both SUBACK decoders.
pub proof fn lemma_suback_fields(id: u16, code: u8)
    ensures
        SubackPacket.spec_decode(
            seq![ControlPackets::Suback.spec_byte(), 0x03u8] + be16(id as int) + seq![code],
        ) == (Decoded::<Seq<char>>::Suback {
            packet_id: id,
            return_code: SubackReturnCode::spec_from_u8(code),
        }),
        SubscriberPacketResponse.spec_decode(
            seq![ControlPackets::Suback.spec_byte(), 0x03u8] + be16(id as int) + seq![code],
        ) == (Decoded::<Seq<char>>::Suback {
            packet_id: id,
            return_code: SubackReturnCode::spec_from_u8(code),
        }),
{
}

/// What a SUBACK decoder reads once the length and type are accepted.
pub open spec fn spec_suback_body(packet: Seq<u8>) -> Decoded<Seq<char>> {
    if packet[1] != 0x03 {
        Decoded::Invalid(DecodeError::SubackRemainingLength { remaining_length: packet[1] })
    } else {
        Decoded::Suback {
            packet_id: spec_packet_id(packet),
            return_code: SubackReturnCode::spec_from_u8(packet[4]),
        }
    }
}

fn suback_body(packet: &Vec<u8>) -> (r: Decoded<String>)
    requires
        packet.len() >= 5,
    ensures
        r@ == spec_suback_body(packet@),
{
    if packet[1] != 0x03 {
        return Decoded::Invalid(DecodeError::SubackRemainingLength { remaining_length: packet[1] });
    }
    Decoded::Suback {
        packet_id: read_be16(packet[2], packet[3]),
        return_code: SubackReturnCode::from_u8(packet[4]),
    }
}

impl Decode for SubackPacket {
    open spec fn decodable(&self, packet: Seq<u8>) -> bool {
        true
    }

    /// A SUBACK is at least five bytes with a remaining length of 3, the packet
    /// identifier and one return code.
    open spec fn spec_decode(&self, packet: Seq<u8>) -> Decoded<Seq<char>> {
        if packet.len() < 5 {
            Decoded::Invalid(DecodeError::SubackTooShort)
        } else {
            spec_suback_body(packet)
        }
    }

    fn decode(&self, packet: Vec<u8>) -> (r: Decoded<String>) {
        if packet.len() < 5 {
            return Decoded::Invalid(DecodeError::SubackTooShort);
        }
        suback_body(&packet)
    }
}

impl Decode for SubscriberPacketResponse {
    open spec fn decodable(&self, packet: Seq<u8>) -> bool {
        true
    }

    /// As `SubackPacket`, and the first byte must be that of a SUBACK.
    open spec fn spec_decode(&self, packet: Seq<u8>) -> Decoded<Seq<char>> {
        if packet.len() < 5 {
            Decoded::Invalid(DecodeError::SubackTooShort)
        } else if packet[0] != ControlPackets::Suback.spec_byte() {
            Decoded::Invalid(DecodeError::NotSuback)
        } else {
            spec_suback_body(packet)
        }
    }

    fn decode(&self, packet: Vec<u8>) -> (r: Decoded<String>) {
        if packet.len() < 5 {
            return Decoded::Invalid(DecodeError::SubackTooShort);
        }
        if packet[0] != ControlPackets::Suback.as_byte() {
            return Decoded::Invalid(DecodeError::NotSuback);
        }
        suback_body(&packet)
    }
}

impl Decode for UnsubackPacket {
    /// Bytes 2 and 3 are read whenever the packet is at most four bytes long.
    open spec fn decodable(&self, packet: Seq<u8>) -> bool {
        packet.len() >= 4
    }

    /// An UNSUBACK is four bytes; its packet identifier is in bytes 2 and 3.
    open spec fn spec_decode(&self, packet: Seq<u8>) -> Decoded<Seq<char>> {
        if packet.len() > 4 {
            Decoded::Invalid(DecodeError::UnsubackLength)
        } else {
            Decoded::Unsuback { packet_id: spec_packet_id(packet) }
        }
    }

    fn decode(&self, packet: Vec<u8>) -> (r: Decoded<String>) {
        if packet.len() > 4 {
            return Decoded::Invalid(DecodeError::UnsubackLength);
        }
        Decoded::Unsuback { packet_id: read_be16(packet[2], packet[3]) }
    }
}

impl Decode for PubackPacket {
    open spec fn decodable(&self, packet: Seq<u8>) -> bool {
        true
    }

    /// A PUBACK is exactly four bytes; its packet identifier is in bytes 2 and 3.
    open spec fn spec_decode(&self, packet: Seq<u8>) -> Decoded<Seq<char>> {
        if packet.len() != 4 {
            Decoded::Invalid(DecodeError::PubackLength)
        } else {
            Decoded::Puback { packet_id: spec_packet_id(packet) }
        }
    }

    fn decode(&self, packet: Vec<u8>) -> (r: Decoded<String>) {
        if packet.len() != 4 {
            return Decoded::Invalid(DecodeError::PubackLength);
        }
        Decoded::Puback { packet_id: read_be16(packet[2], packet[3]) }
    }
}

impl Decode for PubrecPacket {
    open spec fn decodable(&self, packet: Seq<u8>) -> bool {
        true
    }

    /// A PUBREC is exactly four bytes; its packet identifier is in bytes 2 and 3.
    open spec fn spec_decode(&self, packet: Seq<u8>) -> Decoded<Seq<char>> {
        if packet.len() != 4 {
            Decoded::Invalid(DecodeError::PubrecLength)
        } else {
            Decoded::Pubrec { packet_id: spec_packet_id(packet) }
        }
    }

    fn decode(&self, packet: Vec<u8>) -> (r: Decoded<String>) {
        if packet.len() != 4 {
            return Decoded::Invalid(DecodeError::PubrecLength);
        }
        Decoded::Pubrec { packet_id: read_be16(packet[2], packet[3]) }
    }
}

impl Decode for PubcompPacket {
    open spec fn decodable(&self, packet: Seq<u8>) -> bool {
        true
    }

    /// A PUBCOMP is exactly four bytes; its packet identifier is in bytes 2 and 3.
    open spec fn spec_decode(&self, packet: Seq<u8>) -> Decoded<Seq<char>> {
        if packet.len() != 4 {
            Decoded::Invalid(DecodeError::PubcompLength)
        } else {
            Decoded::Pubcomp { packet_id: spec_packet_id(packet) }
        }
    }

    fn decode(&self, packet: Vec<u8>) -> (r: Decoded<String>) {
        if packet.len() != 4 {
            return Decoded::Invalid(DecodeError::PubcompLength);
        }
        Decoded::Pubcomp { packet_id: read_be16(packet[2], packet[3]) }
    }
}

} // verus!
