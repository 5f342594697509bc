use vstd::prelude::*;

verus! {

/// The fourteen MQTT control packet types (and AUTH), each identified by the
/// first byte of its fixed header: the type in the high nibble and the
/// reserved flags in the low nibble.
#[derive(Debug, Clone, Copy, PartialEq, Eq, Structural)]
pub enum ControlPackets {
    Connect,
    Connack,
    Publish,
    Puback,
    Pubrec,
    Pubrel,
    Pubcomp,
    Subscribe,
    Suback,
    Unsubscribe,
    Unsuback,
    Pingreq,
    Pingresp,
    Disconnect,
    Auth,
}

impl ControlPackets {
    /// The first fixed-header byte that stands for this packet type.
    pub open spec fn spec_byte(self) -> u8 {
        match self {
            ControlPackets::Connect => 0x10,
            ControlPackets::Connack => 0x20,
            ControlPackets::Publish => 0x30,
            ControlPackets::Puback => 0x40,
            ControlPackets::Pubrec => 0x50,
            ControlPackets::Pubrel => 0x62,
            ControlPackets::Pubcomp => 0x70,
            ControlPackets::Subscribe => 0x82,
            ControlPackets::Suback => 0x90,
            ControlPackets::Unsubscribe => 0xA2,
            ControlPackets::Unsuback => 0xB0,
            ControlPackets::Pingreq => 0xC0,
            ControlPackets::Pingresp => 0xD0,
            ControlPackets::Disconnect => 0xE0,
            ControlPackets::Auth => 0xF0,
        }
    }

    /// The packet type whose first fixed-header byte is `value`, if any.
    pub open spec fn spec_from_byte(value: u8) -> Option<ControlPackets> {
        if value == 0x10 {
            Some(ControlPackets::Connect)
        } else if value == 0x20 {
            Some(ControlPackets::Connack)
        } else if value == 0x30 {
            Some(ControlPackets::Publish)
        } else if value == 0x40 {
            Some(ControlPackets::Puback)
        } else if value == 0x50 {
            Some(ControlPackets::Pubrec)
        } else if value == 0x62 {
            Some(ControlPackets::Pubrel)
        } else if value == 0x70 {
            Some(ControlPackets::Pubcomp)
        } else if value == 0x82 {
            Some(ControlPackets::Subscribe)
        } else if value == 0x90 {
            Some(ControlPackets::Suback)
        } else if value == 0xA2 {
            Some(ControlPackets::Unsubscribe)
        } else if value == 0xB0 {
            Some(ControlPackets::Unsuback)
        } else if value == 0xC0 {
            Some(ControlPackets::Pingreq)
        } else if value == 0xD0 {
            Some(ControlPackets::Pingresp)
        } else if value == 0xE0 {
            Some(ControlPackets::Disconnect)
        } else if value == 0xF0 {
            Some(ControlPackets::Auth)
        } else {
            None
        }
    }

    /// The first fixed-header byte of this packet type.
    pub fn as_byte(&self) -> (b: u8)
        ensures
            b == self.spec_byte(),
    {
        match self {
            ControlPackets::Connect => 0x10,
            ControlPackets::Connack => 0x20,
            ControlPackets::Publish => 0x30,
            ControlPackets::Puback => 0x40,
            ControlPackets::Pubrec => 0x50,
            ControlPackets::Pubrel => 0x62,
            ControlPackets::Pubcomp => 0x70,
            ControlPackets::Subscribe => 0x82,
            ControlPackets::Suback => 0x90,
            ControlPackets::Unsubscribe => 0xA2,
            ControlPackets::Unsuback => 0xB0,
            ControlPackets::Pingreq => 0xC0,
            ControlPackets::Pingresp => 0xD0,
            ControlPackets::Disconnect => 0xE0,
            ControlPackets::Auth => 0xF0,
        }
    }

    /// Reads the packet type off a first fixed-header byte; any other byte is
    /// refused with "Unknown Control Packet".
    pub fn try_from(value: u8) -> (r: Result<ControlPackets, &'static str>)
        ensures
            match r {
                Ok(p) => Self::spec_from_byte(value) == Some(p),
                Err(e) => Self::spec_from_byte(value) is None && e@ == "Unknown Control Packet"@,
            },
    {
        match value {
            0x10 => Ok(ControlPackets::Connect),
            0x20 => Ok(ControlPackets::Connack),
            0x30 => Ok(ControlPackets::Publish),
            0x40 => Ok(ControlPackets::Puback),
            0x50 => Ok(ControlPackets::Pubrec),
            0x62 => Ok(ControlPackets::Pubrel),
            0x70 => Ok(ControlPackets::Pubcomp),
            0x82 => Ok(ControlPackets::Subscribe),
            0x90 => Ok(ControlPackets::Suback),
            0xA2 => Ok(ControlPackets::Unsubscribe),
            0xB0 => Ok(ControlPackets::Unsuback),
            0xC0 => Ok(ControlPackets::Pingreq),
            0xD0 => Ok(ControlPackets::Pingresp),
            0xE0 => Ok(ControlPackets::Disconnect),
            0xF0 => Ok(ControlPackets::Auth),
            _ => Err("Unknown Control Packet"),
        }
    }
}

/// The first byte of each packet type is its MQTT type number (1 to 15) in the
/// high nibble, with the reserved flags 0b0010 in the low nibble of PUBREL,
/// SUBSCRIBE and UNSUBSCRIBE and 0 elsewhere.
pub proof fn lemma_control_type_numbers()
    ensures
        ControlPackets::Connect.spec_byte() == 1 * 16,
        ControlPackets::Connack.spec_byte() == 2 * 16,
        ControlPackets::Publish.spec_byte() == 3 * 16,
        ControlPackets::Puback.spec_byte() == 4 * 16,
        ControlPackets::Pubrec.spec_byte() == 5 * 16,
        ControlPackets::Pubrel.spec_byte() == 6 * 16 + 2,
        ControlPackets::Pubcomp.spec_byte() == 7 * 16,
        ControlPackets::Subscribe.spec_byte() == 8 * 16 + 2,
        ControlPackets::Suback.spec_byte() == 9 * 16,
        ControlPackets::Unsubscribe.spec_byte() == 10 * 16 + 2,
        ControlPackets::Unsuback.spec_byte() == 11 * 16,
        ControlPackets::Pingreq.spec_byte() == 12 * 16,
        ControlPackets::Pingresp.spec_byte() == 13 * 16,
        ControlPackets::Disconnect.spec_byte() == 14 * 16,
        ControlPackets::Auth.spec_byte() == 15 * 16,
{
}

/// Only the first bytes of the packet types are recognised: any byte whose
/// low nibble is not the reserved flags of its type, or whose high nibble is
/// 0, names no packet type.
pub proof fn lemma_control_byte_unrecognised(value: u8)
    ensures
        value / 16 == 0 ==> ControlPackets::spec_from_byte(value) is None,
        (value / 16 == 6 || value / 16 == 8 || value / 16 == 10) && value % 16 != 2
            ==> ControlPackets::spec_from_byte(value) is None,
        !(value / 16 == 6 || value / 16 == 8 || value / 16 == 10) && value % 16 != 0
            ==> ControlPackets::spec_from_byte(value) is None,
{
}

/// Reading a packet type back from its own first byte gives the same type:
/// the byte of each type is recognised, and recognised as that type.
pub proof fn lemma_control_byte_roundtrip(p: ControlPackets)
    ensures
        ControlPackets::spec_from_byte(p.spec_byte()) == Some(p),
{
}

/// Two packet types never share a first byte.
pub proof fn lemma_control_byte_injective(p: ControlPackets, q: ControlPackets)
    ensures
        p.spec_byte() == q.spec_byte() ==> p == q,
{
    lemma_control_byte_roundtrip(p);
    lemma_control_byte_roundtrip(q);
}

/// Every byte that is recognised is the byte of the type it is recognised as.
pub proof fn lemma_control_byte_recognised(value: u8)
    ensures
        ControlPackets::spec_from_byte(value) matches Some(p) ==> p.spec_byte() == value,
{
}

} // verus!
