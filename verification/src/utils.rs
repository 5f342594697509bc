use vstd::prelude::*;

use crate::package::decode::{copy_range, string_from_utf8, Decode, Decoded};
use crate::package::types::ControlPackets;
use crate::ping::PingResPacket;
use crate::pubsub::{
    topic_end, PubackPacket, PubcompPacket, PublishPacketGet, PubrecPacket, SubackPacket,
    UnsubackPacket,
};

verus! {

/// The packets that `handle_packet` takes: a first byte that names a packet
/// type, and a packet that the decoder of that type runs to its end on.
pub open spec fn handle_packet_requires(packet: Seq<u8>) -> bool {
    &&& packet.len() > 0
    &&& ControlPackets::spec_from_byte(packet[0]) is Some
    &&& match ControlPackets::spec_from_byte(packet[0]).unwrap() {
        ControlPackets::Publish => PublishPacketGet.decodable(packet),
        ControlPackets::Unsuback => UnsubackPacket.decodable(packet),
        _ => true,
    }
}

/// What `handle_packet` makes of a packet: the PUBLISH, PUBACK, PUBREC,
/// PUBCOMP, SUBACK, UNSUBACK and PINGRESP packets are decoded, the other
/// types are passed over.
pub open spec fn spec_handle_packet(packet: Seq<u8>) -> Option<Decoded<Seq<char>>> {
    match ControlPackets::spec_from_byte(packet[0]).unwrap() {
        ControlPackets::Publish => Some(PublishPacketGet.spec_decode(packet)),
        ControlPackets::Puback => Some(PubackPacket.spec_decode(packet)),
        ControlPackets::Pubrec => Some(PubrecPacket.spec_decode(packet)),
        ControlPackets::Pubcomp => Some(PubcompPacket.spec_decode(packet)),
        ControlPackets::Suback => Some(SubackPacket.spec_decode(packet)),
        ControlPackets::Unsuback => Some(UnsubackPacket.spec_decode(packet)),
        ControlPackets::Pingresp => Some(PingResPacket.spec_decode(packet)),
        _ => None,
    }
}

/// Which packets are decoded, and by which decoder, told by their first
/// byte: PUBLISH (0x30), PUBACK (0x40), PUBREC (0x50), PUBCOMP (0x70), SUBACK
/// (0x90), UNSUBACK (0xB0) and PINGRESP (0xD0) are each decoded by their own
/// decoder; CONNECT, CONNACK, PUBREL, SUBSCRIBE, UNSUBSCRIBE, PINGREQ,
/// DISCONNECT and AUTH are passed over.
pub proof fn lemma_handle_packet_dispatch(packet: Seq<u8>)
    requires
        packet.len() > 0,
    ensures
        packet[0] == 0x30 ==> spec_handle_packet(packet) == Some(PublishPacketGet.spec_decode(packet)),
        packet[0] == 0x40 ==> spec_handle_packet(packet) == Some(PubackPacket.spec_decode(packet)),
        packet[0] == 0x50 ==> spec_handle_packet(packet) == Some(PubrecPacket.spec_decode(packet)),
        packet[0] == 0x70 ==> spec_handle_packet(packet) == Some(PubcompPacket.spec_decode(packet)),
        packet[0] == 0x90 ==> spec_handle_packet(packet) == Some(SubackPacket.spec_decode(packet)),
        packet[0] == 0xB0 ==> spec_handle_packet(packet) == Some(UnsubackPacket.spec_decode(packet)),
        packet[0] == 0xD0 ==> spec_handle_packet(packet) == Some(PingResPacket.spec_decode(packet)),
        packet[0] == 0x10 || packet[0] == 0x20 || packet[0] == 0x62 || packet[0] == 0x82
            || packet[0] == 0xA2 || packet[0] == 0xC0 || packet[0] == 0xE0 || packet[0] == 0xF0
            ==> spec_handle_packet(packet) is None,
{
}

/// Dispatches a received packet to the decoder of its type.
pub fn handle_packet(packet: Vec<u8>) -> (r: Option<Decoded<String>>)
    requires
        handle_packet_requires(packet@),
    ensures
        r matches Some(d) ==> spec_handle_packet(packet@) == Some(d@),
        r is None ==> spec_handle_packet(packet@) is None,
{
    let get_packet = ControlPackets::try_from(packet[0]).unwrap();
    match get_packet {
        ControlPackets::Connect => None,
        ControlPackets::Connack => None,
        ControlPackets::Publish => Some(PublishPacketGet.decode(packet)),
        ControlPackets::Puback => Some(PubackPacket.decode(packet)),
        ControlPackets::Pubrec => Some(PubrecPacket.decode(packet)),
        ControlPackets::Pubrel => None,
        ControlPackets::Pubcomp => Some(PubcompPacket.decode(packet)),
        ControlPackets::Subscribe => None,
        ControlPackets::Suback => Some(SubackPacket.decode(packet)),
        ControlPackets::Unsubscribe => None,
        ControlPackets::Unsuback => Some(UnsubackPacket.decode(packet)),
        ControlPackets::Pingreq => None,
        ControlPackets::Pingresp => Some(PingResPacket.decode(packet)),
        ControlPackets::Disconnect => None,
        ControlPackets::Auth => None,
    }
}

/// Whether `bytes[start..end]` is valid UTF-8.
fn is_utf8_range(bytes: &Vec<u8>, start: usize, end: usize) -> (r: bool)
    requires
        start <= end <= bytes.len(),
    ensures
        r == vstd::utf8::valid_utf8(bytes@.subrange(start as int, end as int)),
{
    string_from_utf8(copy_range(bytes, start, end)).is_some()
}

/// Tells whether `handle_packet` takes `packet`.
pub fn can_handle_packet(packet: &Vec<u8>) -> (r: bool)
    ensures
        r == handle_packet_requires(packet@),
{
    if packet.len() == 0 {
        return false;
    }
    match ControlPackets::try_from(packet[0]) {
        Err(_) => false,
        Ok(ControlPackets::Publish) => {
            if packet.len() < 4 {
                return true;
            }
            let hi = packet[2];
            let lo = packet[3];
            let topic_length = ((hi as usize) << 8) | (lo as usize);
            assert(((hi as usize) << 8) | (lo as usize) == crate::package::encode::be16_value(
                hi,
                lo,
            ) as usize) by (bit_vector);
            let end = 4 + topic_length;
            assert(end == topic_end(packet@));
            if end + 2 > packet.len() {
                return false;
            }
            is_utf8_range(packet, 4, end) && is_utf8_range(packet, end + 2, packet.len())
        },
        Ok(ControlPackets::Unsuback) => packet.len() >= 4,
        Ok(_) => true,
    }
}

} // verus!
