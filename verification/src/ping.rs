use vstd::prelude::*;

use crate::package::decode::{Decode, DecodeError, Decoded};
use crate::package::encode::Encode;
use crate::package::types::ControlPackets;

verus! {

/// The PINGREQ packet.
pub struct PingPacket;

/// The PINGRESP packet, as a decoder.
pub struct PingResPacket;

impl Encode for PingPacket {
    open spec fn encodable(&self) -> bool {
        true
    }

    /// PINGREQ has a remaining length of zero.
    open spec fn spec_encode(&self) -> Option<Seq<u8>> {
        Some(seq![ControlPackets::Pingreq.spec_byte(), 0x00])
    }

    proof fn lemma_framed(&self) {
    }

    open spec fn spec_refusal(&self) -> Seq<char> {
        Seq::empty()
    }

    fn encode(&self) -> (r: Result<Vec<u8>, String>) {
        let mut packet: Vec<u8> = vec![ControlPackets::Pingreq.as_byte()];
        let remain_length: u8 = 0;
        packet.push(remain_length);
        assert(packet@ =~= self.spec_encode().unwrap());
        Ok(packet)
    }
}

impl Decode for PingResPacket {
    /// The first byte is read whenever the packet is at most two bytes long.
    open spec fn decodable(&self, packet: Seq<u8>) -> bool {
        packet.len() >= 1
    }

    /// A PINGRESP is at most two bytes and starts with its type byte.
    open spec fn spec_decode(&self, packet: Seq<u8>) -> Decoded<Seq<char>> {
        if packet.len() > 2 {
            Decoded::Invalid(DecodeError::PingrespLength)
        } else if packet[0] != ControlPackets::Pingresp.spec_byte() {
            Decoded::Invalid(DecodeError::NotPingresp)
        } else {
            Decoded::Pingresp
        }
    }

    fn decode(&self, packet: Vec<u8>) -> (r: Decoded<String>) {
        if packet.len() > 2 {
            return Decoded::Invalid(DecodeError::PingrespLength);
        }
        if packet[0] != ControlPackets::Pingresp.as_byte() {
            return Decoded::Invalid(DecodeError::NotPingresp);
        }
        Decoded::Pingresp
    }
}

/// A PINGREQ is the two bytes C0 00.
pub proof fn lemma_pingreq_bytes()
    ensures
        PingPacket.spec_encode() == Some(seq![0xC0u8, 0x00u8]),
{
}

/// A PINGRESP decoder refuses packets longer than two bytes and packets
/// whose first byte is not D0, and accepts every other packet.
pub proof fn lemma_pingresp_decoding(packet: Seq<u8>)
    requires
        packet.len() >= 1,
    ensures
        packet.len() > 2 ==> PingResPacket.spec_decode(packet) == Decoded::<Seq<char>>::Invalid(
            DecodeError::PingrespLength,
        ),
        packet.len() <= 2 && packet[0] != 0xD0 ==> PingResPacket.spec_decode(packet)
            == Decoded::<Seq<char>>::Invalid(DecodeError::NotPingresp),
        packet.len() <= 2 && packet[0] == 0xD0 ==> PingResPacket.spec_decode(packet)
            == Decoded::<Seq<char>>::Pingresp,
{
}

} // verus!
