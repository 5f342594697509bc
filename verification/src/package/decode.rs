use vstd::prelude::*;
use vstd::utf8::{decode_utf8, valid_utf8};

use crate::connect::ConnackReturnCode;
use crate::pubsub::SubackReturnCode;

verus! {

/// Why a received packet was not accepted by its decoder.
#[derive(Debug, Clone, Copy, PartialEq, Eq, Structural)]
pub enum DecodeError {
    /// A CONNACK that is not four bytes long.
    ConnackLength,
    /// A CONNACK whose remaining-length byte is not 2; its first byte.
    ConnackRemainingLength { header: u8 },
    /// A PUBLISH shorter than four bytes.
    PublishTooShort,
    /// A packet read as PUBLISH whose first byte is not that of a PUBLISH.
    NotPublish,
    /// A SUBACK shorter than five bytes.
    SubackTooShort,
    /// A packet read as SUBACK whose first byte is not that of a SUBACK.
    NotSuback,
    /// A SUBACK whose remaining-length byte is not 3; that byte.
    SubackRemainingLength { remaining_length: u8 },
    /// An UNSUBACK longer than four bytes.
    UnsubackLength,
    /// A PUBACK that is not four bytes long.
    PubackLength,
    /// A PUBREC that is not four bytes long.
    PubrecLength,
    /// A PUBCOMP that is not four bytes long.
    PubcompLength,
    /// A PINGRESP longer than two bytes.
    PingrespLength,
    /// A packet read as PINGRESP whose first byte is not that of a PINGRESP.
    NotPingresp,
}

/// What a decoder reads out of a received packet. `Text` is `String` for
/// decoded values and `Seq<char>` in specifications.
#[derive(Debug)]
pub enum Decoded<Text> {
    /// A CONNACK: its first byte, the session-present flag, the return code
    /// and the byte it was read from.
    Connack { header: u8, session_present: u8, return_code: ConnackReturnCode, code: u8 },
    /// A PUBLISH: its topic and its message.
    Publish { topic: Text, message: Text },
    /// A SUBACK: the packet identifier and the return code.
    Suback { packet_id: u16, return_code: SubackReturnCode },
    /// An UNSUBACK and its packet identifier.
    Unsuback { packet_id: u16 },
    /// A PUBACK and its packet identifier.
    Puback { packet_id: u16 },
    /// A PUBREC and its packet identifier.
    Pubrec { packet_id: u16 },
    /// A PUBCOMP and its packet identifier.
    Pubcomp { packet_id: u16 },
    /// A PINGRESP.
    Pingresp,
    /// The packet was not accepted.
    Invalid(DecodeError),
}

impl<T: View> View for Decoded<T> {
    type V = Decoded<T::V>;

    open spec fn view(&self) -> Decoded<T::V> {
        match self {
            Decoded::Connack { header, session_present, return_code, code } => Decoded::Connack {
                header: *header,
                session_present: *session_present,
                return_code: *return_code,
                code: *code,
            },
            Decoded::Publish { topic, message } => Decoded::Publish {
                topic: topic@,
                message: message@,
            },
            Decoded::Suback { packet_id, return_code } => Decoded::Suback {
                packet_id: *packet_id,
                return_code: *return_code,
            },
            Decoded::Unsuback { packet_id } => Decoded::Unsuback { packet_id: *packet_id },
            Decoded::Puback { packet_id } => Decoded::Puback { packet_id: *packet_id },
            Decoded::Pubrec { packet_id } => Decoded::Pubrec { packet_id: *packet_id },
            Decoded::Pubcomp { packet_id } => Decoded::Pubcomp { packet_id: *packet_id },
            Decoded::Pingresp => Decoded::Pingresp,
            Decoded::Invalid(e) => Decoded::Invalid(*e),
        }
    }
}

/// A decoder of one kind of received packet.
pub trait Decode {
    /// The packets on which the decoder runs to its end (on the others it
    /// would read past the packet or take bytes that are not UTF-8 for text).
    spec fn decodable(&self, packet: Seq<u8>) -> bool;

    /// What the decoder reads out of `packet`.
    spec fn spec_decode(&self, packet: Seq<u8>) -> Decoded<Seq<char>>;

    fn decode(&self, packet: Vec<u8>) -> (r: Decoded<String>)
        requires
            self.decodable(packet@),
        ensures
            r@ == self.spec_decode(packet@),
    ;
}

/// Runs the decoder `packet` on `buffer`.
pub fn decode<Packet: Decode>(packet: Packet, buffer: Vec<u8>) -> (r: Decoded<String>)
    requires
        packet.decodable(buffer@),
    ensures
        r@ == packet.spec_decode(buffer@),
{
    packet.decode(buffer)
}

/// Turns bytes into a `String` where they are valid UTF-8.
///
/// Calls `String::from_utf8`, whose documentation says that it fails exactly
/// when the bytes are not valid UTF-8; the contract claims that, and that the
/// characters of the string are the ones the bytes encode.
#[verifier::external_body]
pub(crate) fn string_from_utf8(bytes: Vec<u8>) -> (r: Option<String>)
    ensures
        r is Some <==> valid_utf8(bytes@),
        r matches Some(s) ==> s@ == decode_utf8(bytes@),
{
    String::from_utf8(bytes).ok()
}

/// Copies `packet[start..end]`.
pub(crate) fn copy_range(packet: &Vec<u8>, start: usize, end: usize) -> (r: Vec<u8>)
    requires
        start <= end <= packet.len(),
    ensures
        r@ == packet@.subrange(start as int, end as int),
{
    let mut r: Vec<u8> = Vec::new();
    let mut i = start;
    while i < end
        invariant
            start <= i <= end <= packet.len(),
            r@ == packet@.subrange(start as int, i as int),
        decreases end - i,
    {
        r.push(packet[i]);
        i = i + 1;
        assert(r@ =~= packet@.subrange(start as int, i as int));
    }
    r
}

/// Reads two bytes as a big-endian `u16`: `((hi as u16) << 8) | (lo as u16)`.
pub(crate) fn read_be16(hi: u8, lo: u8) -> (r: u16)
    ensures
        r == crate::package::encode::be16_value(hi, lo),
{
    let r = ((hi as u16) << 8) | (lo as u16);
    assert(((hi as u16) << 8) | (lo as u16) == (hi as int * 256 + lo as int) as u16)
        by (bit_vector);
    r
}

/// The UTF-8 text of `bytes` (meaningful where they are valid UTF-8).
pub open spec fn text_of(bytes: Seq<u8>) -> Seq<char> {
    decode_utf8(bytes)
}

} // verus!
