use vstd::prelude::*;

verus! {

/// The low eight bits of `n`: what a single length byte of the fixed
/// header carries (nothing above them is carried into a further byte).
pub open spec fn low_byte(n: int) -> u8 {
    (n % 256) as u8
}

/// `n` as a big-endian two-byte field (its low sixteen bits).
pub open spec fn be16(n: int) -> Seq<u8> {
    seq![low_byte(n / 256), low_byte(n)]
}

/// Reads a big-endian two-byte field.
pub open spec fn be16_value(hi: u8, lo: u8) -> u16 {
    (hi as int * 256 + lo as int) as u16
}

/// Writing a packet identifier and reading it back gives it again.
pub proof fn lemma_be16_roundtrip(id: u16)
    ensures
        be16(id as int).len() == 2,
        be16_value(be16(id as int)[0], be16(id as int)[1]) == id,
{
}

/// The low byte of a `usize`, as the cast computes it.
pub(crate) fn low_byte_of(n: usize) -> (b: u8)
    ensures
        b == low_byte(n as int),
{
    let b = (n & 0xFF) as u8;
    assert(((n & 0xFF) as u8) as int == n as int % 256) by (bit_vector);
    b
}

/// Appends `n` as a big-endian two-byte field: `(n >> 8) as u8` then
/// `(n & 0xFF) as u8`.
pub(crate) fn push_be16(packet: &mut Vec<u8>, n: usize)
    ensures
        final(packet)@ == old(packet)@ + be16(n as int),
{
    let hi = (n >> 8) as u8;
    let lo = (n & 0xFF) as u8;
    assert(((n >> 8) as u8) as int == (n as int / 256) % 256) by (bit_vector);
    assert(((n & 0xFF) as u8) as int == n as int % 256) by (bit_vector);
    packet.push(hi);
    packet.push(lo);
    assert(packet@ =~= old(packet)@ + be16(n as int));
}

/// Appends the bytes of `bytes` in order.
pub(crate) fn push_bytes(packet: &mut Vec<u8>, bytes: &[u8])
    ensures
        final(packet)@ == old(packet)@ + bytes@,
{
    let mut i: usize = 0;
    while i < bytes.len()
        invariant
            0 <= i <= bytes.len(),
            packet@ == old(packet)@ + bytes@.take(i as int),
        decreases bytes.len() - i,
    {
        packet.push(bytes[i]);
        i = i + 1;
        assert(bytes@.take(i as int) =~= bytes@.take(i - 1).push(bytes@[i - 1]));
    }
    assert(bytes@.take(bytes.len() as int) =~= bytes@);
}

/// The second byte of a packet is the low byte of the number of bytes that
/// follow its two-byte fixed header.
pub open spec fn framed(bytes: Seq<u8>) -> bool {
    bytes.len() >= 2 && bytes[1] == low_byte(bytes.len() - 2)
}

/// A packet that can be written to the wire.
pub trait Encode {
    /// The machine limits under which the packet's lengths can be added up
    /// in a `usize`.
    spec fn encodable(&self) -> bool;

    /// The bytes of the packet, or `None` where the packet is refused.
    spec fn spec_encode(&self) -> Option<Seq<u8>>;

    /// The message of a refusal.
    spec fn spec_refusal(&self) -> Seq<char>;

    /// Every packet written carries, in its remaining-length byte, the low
    /// byte of the length of what follows the fixed header.
    proof fn lemma_framed(&self)
        ensures
            self.spec_encode() matches Some(bytes) ==> framed(bytes),
    ;

    /// Writes the packet, or refuses it with a message.
    fn encode(&self) -> (r: Result<Vec<u8>, String>)
        requires
            self.encodable(),
        ensures
            match r {
                Ok(bytes) => self.spec_encode() == Some(bytes@),
                Err(e) => self.spec_encode() is None && e@ == self.spec_refusal(),
            },
    ;
}

/// Writes a packet that is not refused.
pub fn encode<Packet: Encode>(packet: Packet) -> (r: Vec<u8>)
    requires
        packet.encodable(),
        packet.spec_encode() is Some,
    ensures
        packet.spec_encode() == Some(r@),
{
    packet.encode().unwrap()
}

} // verus!
