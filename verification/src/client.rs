use vstd::prelude::*;
use vstd::utf8::encode_utf8;

use crate::connect::ConnackPacket;
use crate::package::decode::{Decode, Decoded};
use crate::package::encode::{be16_value, encode, Encode};
use crate::package::types::ControlPackets;
use crate::ping::{PingPacket, PingResPacket};
use crate::pubsub::{
    spec_packet_id, Last4BitsFixHeader, PubackPacket, PubcompPacket, PublishPacket, PublishPacketGet, PubrecPacket,
    PubrelPacket, SubackPacket, SubscribePacket, UnsubackPacket, UnsubscribePacket,
};
use crate::text::{decimal, push_decimal};
use vstd::string::StringExecFns;

verus! {

/// The packet identifier the client gives every PUBLISH.
pub const PUBLISH_PACKET_ID: u16 = 1234;

/// The packet identifier the client gives every SUBSCRIBE.
pub const SUBSCRIBE_PACKET_ID: u16 = 2;

/// The packet identifier the client gives every UNSUBSCRIBE.
pub const UNSUBSCRIBE_PACKET_ID: u16 = 3;

/// How long the client waits for each acknowledgement of a PUBLISH, in ms.
pub const PUBLISH_ACK_TIMEOUT_MS: u64 = 5000;

/// How long the client waits for each SUBACK, UNSUBACK or PINGRESP, in ms.
pub const ACK_TIMEOUT_MS: u64 = 2000;

/// How many waits for a SUBACK, UNSUBACK or PINGRESP the client makes.
pub const ACK_MAX_RETRIES: u8 = 5;

/// What came of waiting for a packet from the broker.
pub enum ReadEvent {
    /// These bytes were read.
    Packet(Vec<u8>),
    /// The read failed.
    ReadFailed,
    /// Nothing came before the timeout.
    TimedOut,
}

/// Why a client operation failed.
#[derive(Debug, Clone, Copy, PartialEq, Eq, Structural)]
pub enum ClientError {
    /// No CONNACK could be read.
    NoResponse,
    /// Another packet came in place of the CONNACK; its first byte.
    UnexpectedPacket(u8),
    /// No PUBACK came for a QoS 1 PUBLISH.
    PubackMissing,
    /// The QoS 2 exchange did not complete.
    PubrecMissing,
    /// Reading while waiting for a SUBACK failed.
    SubackReadFailed,
    /// No SUBACK came.
    SubackMissing,
    /// Reading while waiting for an UNSUBACK failed.
    UnsubackReadFailed,
    /// No UNSUBACK came.
    UnsubackMissing,
    /// Reading while waiting for a PINGRESP failed.
    PingrespReadFailed,
    /// No PINGRESP came.
    PingrespMissing,
}

impl ClientError {
    /// The message of the error.
    pub open spec fn spec_message(self) -> Seq<char> {
        match self {
            ClientError::NoResponse => "Can't read anything from broker, must reconnect again"@,
            ClientError::UnexpectedPacket(b) => "Get another packet "@ + decimal(b as nat)
                + ", must be check again"@,
            ClientError::PubackMissing => "QoS 1: Failed to receive PUBACK after 3 attempts."@,
            ClientError::PubrecMissing => "Can't get PUBREC from broker, publish fail"@,
            ClientError::SubackReadFailed => "Failed to read packet"@,
            ClientError::SubackMissing => "Can't get suback"@,
            ClientError::UnsubackReadFailed => "Can't get unsuback from broker, must send again "@,
            ClientError::UnsubackMissing => "Can't get unsuback"@,
            ClientError::PingrespReadFailed => "Can't read pingres from broker"@,
            ClientError::PingrespMissing => "Can't Pingres from broker"@,
        }
    }

    pub fn message(&self) -> (r: String)
        ensures
            r@ == self.spec_message(),
    {
        match self {
            ClientError::NoResponse => "Can't read anything from broker, must reconnect again".to_string(),
            ClientError::UnexpectedPacket(b) => {
                let mut s = "Get another packet ".to_string();
                push_decimal(&mut s, *b);
                s.append(", must be check again");
                s
            },
            ClientError::PubackMissing => "QoS 1: Failed to receive PUBACK after 3 attempts.".to_string(),
            ClientError::PubrecMissing => "Can't get PUBREC from broker, publish fail".to_string(),
            ClientError::SubackReadFailed => "Failed to read packet".to_string(),
            ClientError::SubackMissing => "Can't get suback".to_string(),
            ClientError::UnsubackReadFailed => "Can't get unsuback from broker, must send again ".to_string(),
            ClientError::UnsubackMissing => "Can't get unsuback".to_string(),
            ClientError::PingrespReadFailed => "Can't read pingres from broker".to_string(),
            ClientError::PingrespMissing => "Can't Pingres from broker".to_string(),
        }
    }
}

/// What the client does after handling an event.
#[derive(Debug, Clone, Copy)]
pub enum Next {
    /// Wait for the next packet, at most this many milliseconds.
    Read(u64),
    /// The operation is over, with this outcome.
    Done(Result<(), ClientError>),
}

/// A packet the client writes while an operation is under way.
pub enum Outgoing {
    /// The PUBLISH again, with DUP set; a failed write ends the operation.
    Retry(Vec<u8>),
    /// The PUBREL of a QoS 2 exchange; a failed write is only reported.
    Release(Vec<u8>),
}

/// What the client does with one event, in order: report a decoded packet
/// of the operation or hand another packet to `handle_packet`, then write a
/// packet, then go on as `next` says.
pub struct Step {
    pub report: Option<Decoded<String>>,
    pub pass: Option<Vec<u8>>,
    pub send: Option<Outgoing>,
    pub next: Next,
}

/// The packets of an event that the client can look into: at least one
/// byte, and, where `with_id` names the first byte, also the two bytes of a
/// packet identifier.
pub open spec fn readable(packet: Seq<u8>, with_id: Option<u8>) -> bool {
    packet.len() >= 1 && (with_id matches Some(b) && packet[0] == b ==> packet.len() >= 4)
}

/// Whether an event carries a packet that the client can look into.
pub open spec fn event_readable(event: &ReadEvent, with_id: Option<u8>) -> bool {
    event matches ReadEvent::Packet(p) ==> readable(p@, with_id)
}

/// Tells whether an event carries a packet the client can look into.
pub fn is_readable(event: &ReadEvent, with_id: Option<u8>) -> (r: bool)
    ensures
        r == event_readable(event, with_id),
{
    match event {
        ReadEvent::Packet(p) => p.len() >= 1 && match with_id {
            Some(b) => p[0] != b || p.len() >= 4,
            None => true,
        },
        _ => true,
    }
}

/// What the client does with the answer to its CONNECT: a CONNACK is
/// reported and the connection stands; another packet, a failed read or a
/// timeout end it with an error.
pub fn connect_step(event: ReadEvent) -> (r: Step)
    requires
        event_readable(&event, None),
    ensures
        r.pass is None,
        r.send is None,
        match event {
            ReadEvent::Packet(p) => if p@[0] == ControlPackets::Connack.spec_byte() {
                &&& r.report matches Some(d) && d@ == ConnackPacket.spec_decode(p@)
                &&& r.next == Next::Done(Ok(()))
            } else {
                &&& r.report is None
                &&& r.next == Next::Done(Err(ClientError::UnexpectedPacket(p@[0])))
            },
            _ => r.report is None && r.next == Next::Done(Err(ClientError::NoResponse)),
        },
{
    match event {
        ReadEvent::Packet(packet) => {
            if packet[0] == ControlPackets::Connack.as_byte() {
                Step {
                    report: Some(ConnackPacket.decode(packet)),
                    pass: None,
                    send: None,
                    next: Next::Done(Ok(())),
                }
            } else {
                let first = packet[0];
                Step {
                    report: None,
                    pass: None,
                    send: None,
                    next: Next::Done(Err(ClientError::UnexpectedPacket(first))),
                }
            }
        },
        _ => Step { report: None, pass: None, send: None, next: Next::Done(Err(ClientError::NoResponse)) },
    }
}

/// Where a PUBLISH exchange stands; the number is the attempt, from 1.
#[derive(Debug, Clone, Copy, PartialEq, Eq, Structural)]
pub enum PublishStage {
    /// QoS 1: waiting for the PUBACK.
    AwaitPuback(u8),
    /// QoS 2: waiting for the PUBREC.
    AwaitPubrec(u8),
    /// QoS 2: the PUBREL went out, waiting for the PUBCOMP.
    AwaitPubcomp(u8),
    /// Over.
    Finished,
}

/// The client's side of sending one PUBLISH: at QoS 1 up to three waits for
/// a PUBACK, at QoS 2 up to two rounds of PUBREC, PUBREL and PUBCOMP; after
/// each wait that brings no acknowledgement the PUBLISH is written again
/// with DUP set.
pub struct PublishExchange<'a> {
    pub topic: &'a str,
    pub message: &'a str,
    pub qos: u8,
    pub retain: u8,
    pub stage: PublishStage,
}

/// The stage a PUBLISH exchange starts in.
pub open spec fn initial_publish_stage(qos: u8) -> PublishStage {
    if qos == 1 {
        PublishStage::AwaitPuback(1)
    } else if qos == 2 {
        PublishStage::AwaitPubrec(1)
    } else {
        PublishStage::Finished
    }
}

impl<'a> PublishExchange<'a> {
    /// The PUBLISH of the exchange fits the machine, and the stage fits the QoS.
    pub open spec fn well_formed(&self) -> bool {
        &&& 4 + encode_utf8(self.topic@).len() + encode_utf8(self.message@).len() <= usize::MAX
        &&& match self.stage {
            PublishStage::AwaitPuback(a) => self.qos == 1 && 1 <= a <= 3,
            PublishStage::AwaitPubrec(a) => self.qos == 2 && 1 <= a <= 2,
            PublishStage::AwaitPubcomp(a) => self.qos == 2 && 1 <= a <= 2,
            PublishStage::Finished => true,
        }
    }

    /// The PUBLISH of the exchange with the given DUP flag.
    pub open spec fn publish_packet(&self, dup: u8) -> PublishPacket<'a> {
        PublishPacket {
            last4bits_fix_header: Last4BitsFixHeader {
                dup_flag: dup,
                qos_level: self.qos,
                retain: self.retain,
            },
            topic_name: self.topic,
            packet_id: PUBLISH_PACKET_ID,
            payload: self.message,
        }
    }

    /// The bytes of the PUBLISH of the exchange with the given DUP flag.
    pub open spec fn spec_publish(&self, dup: u8) -> Seq<u8> {
        self.publish_packet(dup).spec_encode().unwrap()
    }

    /// The first byte of the acknowledgement the exchange waits for (0 when over).
    pub open spec fn awaited(&self) -> u8 {
        match self.stage {
            PublishStage::AwaitPuback(_) => ControlPackets::Puback.spec_byte(),
            PublishStage::AwaitPubrec(_) => ControlPackets::Pubrec.spec_byte(),
            PublishStage::AwaitPubcomp(_) => ControlPackets::Pubcomp.spec_byte(),
            PublishStage::Finished => 0,
        }
    }

    /// The event brings the awaited acknowledgement, for this exchange's
    /// packet identifier.
    pub open spec fn acknowledges(&self, event: &ReadEvent) -> bool {
        event matches ReadEvent::Packet(p) && p@[0] == self.awaited() && spec_packet_id(p@)
            == PUBLISH_PACKET_ID
    }

    /// The stage after an event, acknowledging or not.
    pub open spec fn stage_after(&self, acked: bool) -> PublishStage {
        match self.stage {
            PublishStage::AwaitPuback(a) => if acked || a >= 3 {
                PublishStage::Finished
            } else {
                PublishStage::AwaitPuback((a + 1) as u8)
            },
            PublishStage::AwaitPubrec(a) => if acked {
                PublishStage::AwaitPubcomp(a)
            } else if a >= 2 {
                PublishStage::Finished
            } else {
                PublishStage::AwaitPubrec((a + 1) as u8)
            },
            PublishStage::AwaitPubcomp(a) => if acked || a >= 2 {
                PublishStage::Finished
            } else {
                PublishStage::AwaitPubrec((a + 1) as u8)
            },
            PublishStage::Finished => PublishStage::Finished,
        }
    }

    /// What the client does after an event, acknowledging or not.
    pub open spec fn next_after(&self, acked: bool) -> Next {
        match self.stage {
            PublishStage::AwaitPuback(a) => if acked {
                Next::Done(Ok(()))
            } else if a >= 3 {
                Next::Done(Err(ClientError::PubackMissing))
            } else {
                Next::Read(PUBLISH_ACK_TIMEOUT_MS)
            },
            PublishStage::AwaitPubrec(a) => if !acked && a >= 2 {
                Next::Done(Err(ClientError::PubrecMissing))
            } else {
                Next::Read(PUBLISH_ACK_TIMEOUT_MS)
            },
            PublishStage::AwaitPubcomp(a) => if acked {
                Next::Done(Ok(()))
            } else if a >= 2 {
                Next::Done(Err(ClientError::PubrecMissing))
            } else {
                Next::Read(PUBLISH_ACK_TIMEOUT_MS)
            },
            PublishStage::Finished => Next::Done(Ok(())),
        }
    }

    /// What the decoder of the awaited acknowledgement reads out of `p`.
    pub open spec fn spec_report(&self, p: Seq<u8>) -> Decoded<Seq<char>> {
        match self.stage {
            PublishStage::AwaitPuback(_) => PubackPacket.spec_decode(p),
            PublishStage::AwaitPubrec(_) => PubrecPacket.spec_decode(p),
            _ => PubcompPacket.spec_decode(p),
        }
    }

    /// An upper bound on the events the exchange still handles.
    pub open spec fn reads_left(&self) -> nat {
        match self.stage {
            PublishStage::AwaitPuback(a) => (4 - a) as nat,
            PublishStage::AwaitPubrec(a) => (2 * (3 - a)) as nat,
            PublishStage::AwaitPubcomp(a) => (2 * (3 - a) - 1) as nat,
            PublishStage::Finished => 0,
        }
    }

    /// Starts the exchange: the PUBLISH to write first, and whether to wait
    /// for an acknowledgement (QoS 1 or 2) or to stop there.
    pub fn start(topic: &'a str, message: &'a str, qos: u8, dup: u8, retain: u8) -> (r: (
        Self,
        Vec<u8>,
        Next,
    ))
        requires
            4 + encode_utf8(topic@).len() + encode_utf8(message@).len() <= usize::MAX,
        ensures
            r.0.well_formed(),
            r.0.topic == topic,
            r.0.message == message,
            r.0.qos == qos,
            r.0.retain == retain,
            r.0.stage == initial_publish_stage(qos),
            r.1@ == r.0.spec_publish(dup),
            r.2 == (if qos == 1 || qos == 2 {
                Next::Read(PUBLISH_ACK_TIMEOUT_MS)
            } else {
                Next::Done(Ok(()))
            }),
            r.0.reads_left() <= 4,
    {
        let stage = if qos == 1 {
            PublishStage::AwaitPuback(1)
        } else if qos == 2 {
            PublishStage::AwaitPubrec(1)
        } else {
            PublishStage::Finished
        };
        let exchange = PublishExchange { topic, message, qos, retain, stage };
        let first = exchange.publish_bytes(dup);
        let next = if qos == 1 || qos == 2 {
            Next::Read(PUBLISH_ACK_TIMEOUT_MS)
        } else {
            Next::Done(Ok(()))
        };
        (exchange, first, next)
    }

    fn publish_bytes(&self, dup: u8) -> (r: Vec<u8>)
        requires
            self.well_formed(),
        ensures
            r@ == self.spec_publish(dup),
    {
        encode(PublishPacket::new(self.topic, self.message, PUBLISH_PACKET_ID, dup, self.qos, self.retain))
    }

    /// The first byte of the acknowledgement the exchange waits for.
    pub fn awaited_byte(&self) -> (b: u8)
        ensures
            b == self.awaited(),
    {
        match self.stage {
            PublishStage::AwaitPuback(_) => ControlPackets::Puback.as_byte(),
            PublishStage::AwaitPubrec(_) => ControlPackets::Pubrec.as_byte(),
            PublishStage::AwaitPubcomp(_) => ControlPackets::Pubcomp.as_byte(),
            PublishStage::Finished => 0,
        }
    }

    /// Handles what came of one wait: an acknowledgement for this exchange is
    /// reported and moves it on (a PUBREC is answered with a PUBREL); any other
    /// packet is handed on; without an acknowledgement the PUBLISH is written
    /// again with DUP set, or the exchange fails once its attempts are used up.
    pub fn on_event(&mut self, event: ReadEvent) -> (r: Step)
        requires
            old(self).well_formed(),
            old(self).stage != PublishStage::Finished,
            event_readable(&event, Some(old(self).awaited())),
        ensures
            final(self).well_formed(),
            final(self).topic == old(self).topic,
            final(self).message == old(self).message,
            final(self).qos == old(self).qos,
            final(self).retain == old(self).retain,
            final(self).stage == old(self).stage_after(old(self).acknowledges(&event)),
            r.next == old(self).next_after(old(self).acknowledges(&event)),
            final(self).reads_left() < old(self).reads_left(),
            r.next is Done <==> final(self).stage == PublishStage::Finished,
            old(self).acknowledges(&event) ==> {
                &&& event matches ReadEvent::Packet(p) && r.report matches Some(d) && d@
                    == old(self).spec_report(p@)
                &&& r.pass is None
                &&& if old(self).stage is AwaitPubrec {
                    r.send matches Some(Outgoing::Release(b)) && Some(b@) == PubrelPacket {
                        packet_id: PUBLISH_PACKET_ID,
                    }.spec_encode()
                } else {
                    r.send is None
                }
            },
            !old(self).acknowledges(&event) ==> {
                &&& r.report is None
                &&& (event matches ReadEvent::Packet(p) ==> r.pass matches Some(q) && q@ == p@)
                &&& (!(event is Packet) ==> r.pass is None)
                &&& r.send matches Some(Outgoing::Retry(b)) && b@ == old(self).spec_publish(1)
            },
    {
        let awaited = self.awaited_byte();
        let acked = match &event {
            ReadEvent::Packet(p) => p[0] == awaited && read_id(p) == PUBLISH_PACKET_ID,
            _ => false,
        };
        let stage = self.stage;
        if acked {
            let packet = match event {
                ReadEvent::Packet(p) => p,
                _ => Vec::new(),
            };
            match stage {
                PublishStage::AwaitPuback(_) => {
                    self.stage = PublishStage::Finished;
                    Step {
                        report: Some(PubackPacket.decode(packet)),
                        pass: None,
                        send: None,
                        next: Next::Done(Ok(())),
                    }
                },
                PublishStage::AwaitPubrec(a) => {
                    self.stage = PublishStage::AwaitPubcomp(a);
                    let pubrel = encode(PubrelPacket::new(PUBLISH_PACKET_ID));
                    Step {
                        report: Some(PubrecPacket.decode(packet)),
                        pass: None,
                        send: Some(Outgoing::Release(pubrel)),
                        next: Next::Read(PUBLISH_ACK_TIMEOUT_MS),
                    }
                },
                _ => {
                    self.stage = PublishStage::Finished;
                    Step {
                        report: Some(PubcompPacket.decode(packet)),
                        pass: None,
                        send: None,
                        next: Next::Done(Ok(())),
                    }
                },
            }
        } else {
            let pass = match event {
                ReadEvent::Packet(p) => Some(p),
                _ => None,
            };
            let retry = self.publish_bytes(1);
            let (stage, next) = match stage {
                PublishStage::AwaitPuback(a) => if a >= 3 {
                    (PublishStage::Finished, Next::Done(Err(ClientError::PubackMissing)))
                } else {
                    (PublishStage::AwaitPuback(a + 1), Next::Read(PUBLISH_ACK_TIMEOUT_MS))
                },
                PublishStage::AwaitPubrec(a) => if a >= 2 {
                    (PublishStage::Finished, Next::Done(Err(ClientError::PubrecMissing)))
                } else {
                    (PublishStage::AwaitPubrec(a + 1), Next::Read(PUBLISH_ACK_TIMEOUT_MS))
                },
                PublishStage::AwaitPubcomp(a) => if a >= 2 {
                    (PublishStage::Finished, Next::Done(Err(ClientError::PubrecMissing)))
                } else {
                    (PublishStage::AwaitPubrec(a + 1), Next::Read(PUBLISH_ACK_TIMEOUT_MS))
                },
                PublishStage::Finished => (PublishStage::Finished, Next::Done(Ok(()))),
            };
            self.stage = stage;
            Step { report: None, pass, send: Some(Outgoing::Retry(retry)), next }
        }
    }
}

/// A PUBLISH written again is the first one with the DUP flag set: the same
/// bytes but for the first, which gains bit 3.
pub proof fn lemma_retry_sets_dup(exchange: PublishExchange, dup: u8)
    requires
        exchange.well_formed(),
        dup <= 1,
    ensures
        exchange.spec_publish(1).len() == exchange.spec_publish(dup).len(),
        exchange.spec_publish(1).drop_first() == exchange.spec_publish(dup).drop_first(),
        exchange.spec_publish(1)[0] == exchange.spec_publish(dup)[0] | 0x08u8,
{
    let q = exchange.qos;
    let r = exchange.retain;
    assert(dup <= 1 ==> (0x30u8 | (1u8 << 3u8) | (q << 1u8) | r) == (0x30u8 | (dup << 3u8) | (q
        << 1u8) | r) | 0x08u8) by (bit_vector);
    assert(exchange.spec_publish(1).drop_first() =~= exchange.spec_publish(dup).drop_first());
}

/// The attempt a PUBLISH exchange is at (0 once it is over).
pub open spec fn attempt_of(stage: PublishStage) -> int {
    match stage {
        PublishStage::AwaitPuback(a) => a as int,
        PublishStage::AwaitPubrec(a) => a as int,
        PublishStage::AwaitPubcomp(a) => a as int,
        PublishStage::Finished => 0,
    }
}

/// How a PUBLISH exchange moves on after each wait.
///
/// An acknowledgement with the exchange's packet identifier ends a QoS 1
/// exchange, or a QoS 2 exchange that waits for PUBCOMP, with success; it
/// moves a QoS 2 exchange that waits for PUBREC on to waiting for PUBCOMP in
/// the same attempt. A wait that brings no acknowledgement starts the next
/// attempt, which waits again for the first acknowledgement of the QoS
/// (PUBACK at QoS 1, PUBREC at QoS 2; so after a PUBCOMP that did not come,
/// a PUBREC is awaited again), as long as fewer than 3 attempts (QoS 1) or 2
/// attempts (QoS 2) have been made; after the last attempt the exchange fails
/// with `PubackMissing` (QoS 1) or `PubrecMissing` (QoS 2).
pub proof fn lemma_publish_progress(e: PublishExchange)
    requires
        e.well_formed(),
        e.stage != PublishStage::Finished,
    ensures
        e.qos == 1 || e.qos == 2,
        1 <= attempt_of(e.stage) <= 3,
        e.stage is AwaitPubrec ==> e.stage_after(true) == PublishStage::AwaitPubcomp(
            attempt_of(e.stage) as u8,
        ) && e.next_after(true) == Next::Read(5000),
        !(e.stage is AwaitPubrec) ==> e.stage_after(true) == PublishStage::Finished
            && e.next_after(true) == Next::Done(Ok(())),
        e.qos == 1 && attempt_of(e.stage) < 3 ==> e.stage_after(false) == PublishStage::AwaitPuback(
            (attempt_of(e.stage) + 1) as u8,
        ) && e.next_after(false) == Next::Read(5000),
        e.qos == 2 && attempt_of(e.stage) < 2 ==> e.stage_after(false) == PublishStage::AwaitPubrec(
            (attempt_of(e.stage) + 1) as u8,
        ) && e.next_after(false) == Next::Read(5000),
        e.qos == 1 && attempt_of(e.stage) == 3 ==> e.stage_after(false) == PublishStage::Finished
            && e.next_after(false) == Next::Done(Err(ClientError::PubackMissing)),
        e.qos == 2 && attempt_of(e.stage) == 2 ==> e.stage_after(false) == PublishStage::Finished
            && e.next_after(false) == Next::Done(Err(ClientError::PubrecMissing)),
{
}

/// The acknowledgement each stage waits for, as its first byte: PUBACK 0x40,
/// PUBREC 0x50, PUBCOMP 0x70.
pub proof fn lemma_publish_awaited(e: PublishExchange)
    ensures
        e.stage is AwaitPuback ==> e.awaited() == 0x40,
        e.stage is AwaitPubrec ==> e.awaited() == 0x50,
        e.stage is AwaitPubcomp ==> e.awaited() == 0x70,
        forall|p: Seq<u8>|
            #![trigger e.spec_report(p)]
            (e.stage is AwaitPuback ==> e.spec_report(p) == PubackPacket.spec_decode(p)) && (
            e.stage is AwaitPubrec ==> e.spec_report(p) == PubrecPacket.spec_decode(p)) && (
            e.stage is AwaitPubcomp ==> e.spec_report(p) == PubcompPacket.spec_decode(p)),
{
}

/// A packet acknowledges a PUBLISH exchange exactly when it is of the type
/// the exchange waits for and carries the packet identifier written in the
/// exchange's PUBLISH (whatever its DUP flag).
pub proof fn lemma_publish_acknowledgement(e: PublishExchange, p: Vec<u8>, dup: u8)
    requires
        e.well_formed(),
        encode_utf8(e.topic@).len() < 65536,
        p@.len() >= 4,
    ensures
        ({
            let sent = e.spec_publish(dup);
            let n = encode_utf8(e.topic@).len() as int;
            e.acknowledges(&ReadEvent::Packet(p)) <==> p@[0] == e.awaited() && be16_value(
                p@[2],
                p@[3],
            ) == be16_value(sent[4 + n], sent[5 + n])
        }),
{
    crate::pubsub::lemma_publish_fields(e.publish_packet(dup));
}

/// A packet acknowledges a SUBSCRIBE or UNSUBSCRIBE wait exactly when it is
/// of the awaited type and carries the wait's packet identifier, and a
/// PINGREQ wait exactly when it is a PINGRESP.
pub proof fn lemma_ack_wait_acknowledgement(w: AckWait, p: Vec<u8>)
    requires
        p@.len() >= 4,
    ensures
        w.kind != AckKind::Pingresp ==> (w.acknowledges(&ReadEvent::Packet(p)) <==> p@[0]
            == w.awaited() && be16_value(p@[2], p@[3]) == w.packet_id),
        w.kind == AckKind::Pingresp ==> (w.acknowledges(&ReadEvent::Packet(p)) <==> p@[0] == 0xD0),
{
}

/// What each kind of wait waits for, reports and fails with: SUBACK (0x90),
/// UNSUBACK (0xB0) and PINGRESP (0xD0), each read by its own decoder; only
/// SUBACK and UNSUBACK carry a packet identifier.
pub proof fn lemma_ack_wait_kinds(w: AckWait)
    ensures
        w.kind == AckKind::Suback ==> w.awaited() == 0x90 && w.awaited_with_id() == Some(0x90u8)
            && w.read_failure() == ClientError::SubackReadFailed && w.exhausted()
            == ClientError::SubackMissing,
        w.kind == AckKind::Unsuback ==> w.awaited() == 0xB0 && w.awaited_with_id() == Some(
            0xB0u8,
        ) && w.read_failure() == ClientError::UnsubackReadFailed && w.exhausted()
            == ClientError::UnsubackMissing,
        w.kind == AckKind::Pingresp ==> w.awaited() == 0xD0 && w.awaited_with_id() == None::<u8>
            && w.read_failure() == ClientError::PingrespReadFailed && w.exhausted()
            == ClientError::PingrespMissing,
        forall|p: Seq<u8>|
            #![trigger w.spec_report(p)]
            (w.kind == AckKind::Suback ==> w.spec_report(p) == SubackPacket.spec_decode(p)) && (
            w.kind == AckKind::Unsuback ==> w.spec_report(p) == UnsubackPacket.spec_decode(p)) && (
            w.kind == AckKind::Pingresp ==> w.spec_report(p) == PingResPacket.spec_decode(p)),
{
}

/// Which acknowledgement an `AckWait` waits for.
#[derive(Debug, Clone, Copy, PartialEq, Eq, Structural)]
pub enum AckKind {
    Suback,
    Unsuback,
    Pingresp,
}

/// The client's side of a SUBSCRIBE, an UNSUBSCRIBE or a PINGREQ: up to five
/// waits of two seconds for the acknowledgement (with the packet identifier
/// of the request, for SUBACK and UNSUBACK); a failed read ends the wait.
pub struct AckWait {
    pub kind: AckKind,
    pub packet_id: u16,
    pub retries: u8,
}

impl AckWait {
    /// The first byte of the awaited acknowledgement.
    pub open spec fn awaited(&self) -> u8 {
        match self.kind {
            AckKind::Suback => ControlPackets::Suback.spec_byte(),
            AckKind::Unsuback => ControlPackets::Unsuback.spec_byte(),
            AckKind::Pingresp => ControlPackets::Pingresp.spec_byte(),
        }
    }

    /// The first byte of an awaited acknowledgement that carries a packet
    /// identifier; PINGRESP carries none.
    pub open spec fn awaited_with_id(&self) -> Option<u8> {
        match self.kind {
            AckKind::Pingresp => None,
            _ => Some(self.awaited()),
        }
    }

    /// The event brings the awaited acknowledgement.
    pub open spec fn acknowledges(&self, event: &ReadEvent) -> bool {
        event matches ReadEvent::Packet(p) && p@[0] == self.awaited() && (self.kind
            == AckKind::Pingresp || spec_packet_id(p@) == self.packet_id)
    }

    /// The event brings a packet of the awaited type with another packet
    /// identifier, which is passed over.
    pub open spec fn ignores(&self, event: &ReadEvent) -> bool {
        event matches ReadEvent::Packet(p) && p@[0] == self.awaited() && !self.acknowledges(event)
    }

    /// What the decoder of the acknowledgement reads out of `p`.
    pub open spec fn spec_report(&self, p: Seq<u8>) -> Decoded<Seq<char>> {
        match self.kind {
            AckKind::Suback => SubackPacket.spec_decode(p),
            AckKind::Unsuback => UnsubackPacket.spec_decode(p),
            AckKind::Pingresp => PingResPacket.spec_decode(p),
        }
    }

    /// The error of a failed read.
    pub open spec fn read_failure(&self) -> ClientError {
        match self.kind {
            AckKind::Suback => ClientError::SubackReadFailed,
            AckKind::Unsuback => ClientError::UnsubackReadFailed,
            AckKind::Pingresp => ClientError::PingrespReadFailed,
        }
    }

    /// The error once all waits are used up.
    pub open spec fn exhausted(&self) -> ClientError {
        match self.kind {
            AckKind::Suback => ClientError::SubackMissing,
            AckKind::Unsuback => ClientError::UnsubackMissing,
            AckKind::Pingresp => ClientError::PingrespMissing,
        }
    }

    /// A wait that has not used up its retries.
    pub open spec fn well_formed(&self) -> bool {
        self.retries < ACK_MAX_RETRIES
    }

    /// Starts waiting for the SUBACK of a SUBSCRIBE to `topic`: the SUBSCRIBE
    /// to write, and the wait.
    pub fn subscribe(topic: &str, qos: u8) -> (r: (AckWait, Vec<u8>))
        requires
            5 + encode_utf8(topic@).len() <= usize::MAX,
        ensures
            r.0 == (AckWait { kind: AckKind::Suback, packet_id: SUBSCRIBE_PACKET_ID, retries: 0 }),
            Some(r.1@) == (SubscribePacket {
                packet_id: SUBSCRIBE_PACKET_ID,
                topic_filter: topic,
                requested_qos: qos,
            }).spec_encode(),
    {
        let packet = encode(SubscribePacket::new(SUBSCRIBE_PACKET_ID, topic, qos));
        (AckWait { kind: AckKind::Suback, packet_id: SUBSCRIBE_PACKET_ID, retries: 0 }, packet)
    }

    /// Starts waiting for the UNSUBACK of an UNSUBSCRIBE from `topic`.
    pub fn unsubscribe(topic: &str) -> (r: (AckWait, Vec<u8>))
        requires
            4 + encode_utf8(topic@).len() <= usize::MAX,
        ensures
            r.0 == (AckWait {
                kind: AckKind::Unsuback,
                packet_id: UNSUBSCRIBE_PACKET_ID,
                retries: 0,
            }),
            Some(r.1@) == (UnsubscribePacket { packet_id: UNSUBSCRIBE_PACKET_ID, topic: topic }).spec_encode(),
    {
        let packet = encode(UnsubscribePacket::new(UNSUBSCRIBE_PACKET_ID, topic));
        (AckWait { kind: AckKind::Unsuback, packet_id: UNSUBSCRIBE_PACKET_ID, retries: 0 }, packet)
    }

    /// Starts waiting for the PINGRESP of a PINGREQ.
    pub fn ping() -> (r: (AckWait, Vec<u8>))
        ensures
            r.0 == (AckWait { kind: AckKind::Pingresp, packet_id: 0, retries: 0 }),
            Some(r.1@) == PingPacket.spec_encode(),
    {
        let packet = encode(PingPacket);
        (AckWait { kind: AckKind::Pingresp, packet_id: 0, retries: 0 }, packet)
    }

    /// What `is_readable` must be asked about before `on_event`.
    pub fn awaited_byte(&self) -> (b: Option<u8>)
        ensures
            b == self.awaited_with_id(),
    {
        match self.kind {
            AckKind::Suback => Some(ControlPackets::Suback.as_byte()),
            AckKind::Unsuback => Some(ControlPackets::Unsuback.as_byte()),
            AckKind::Pingresp => None,
        }
    }

    /// Handles what came of one wait: the acknowledgement is reported and ends
    /// the wait; one of the awaited type with another identifier is passed
    /// over; any other packet is handed on; a failed read ends the wait with
    /// an error; after the fifth wait without acknowledgement the wait fails.
    pub fn on_event(&mut self, event: ReadEvent) -> (r: Step)
        requires
            old(self).well_formed(),
            event_readable(&event, old(self).awaited_with_id()),
        ensures
            final(self).kind == old(self).kind,
            final(self).packet_id == old(self).packet_id,
            r.send is None,
            old(self).acknowledges(&event) ==> {
                &&& event matches ReadEvent::Packet(p) && r.report matches Some(d) && d@
                    == old(self).spec_report(p@)
                &&& r.pass is None
                &&& r.next == Next::Done(Ok(()))
                &&& final(self).retries == old(self).retries
            },
            event is ReadFailed ==> {
                &&& r.report is None
                &&& r.pass is None
                &&& r.next == Next::Done(Err(old(self).read_failure()))
                &&& final(self).retries == old(self).retries
            },
            !old(self).acknowledges(&event) && !(event is ReadFailed) ==> {
                &&& r.report is None
                &&& (event matches ReadEvent::Packet(p) ==> (!old(self).ignores(&event) ==> (r.pass matches Some(q) && q@ == p@)))
                &&& (event is TimedOut || old(self).ignores(&event) ==> r.pass is None)
                &&& final(self).retries == old(self).retries + 1
                &&& if old(self).retries + 1 >= ACK_MAX_RETRIES {
                    r.next == Next::Done(Err(old(self).exhausted()))
                } else {
                    r.next == Next::Read(ACK_TIMEOUT_MS) && final(self).well_formed()
                }
            },
    {
        let awaited = match self.kind {
            AckKind::Suback => ControlPackets::Suback.as_byte(),
            AckKind::Unsuback => ControlPackets::Unsuback.as_byte(),
            AckKind::Pingresp => ControlPackets::Pingresp.as_byte(),
        };
        let mut pass: Option<Vec<u8>> = None;
        match event {
            ReadEvent::Packet(packet) => {
                if packet[0] == awaited {
                    if self.kind == AckKind::Pingresp {
                        return Step {
                            report: Some(PingResPacket.decode(packet)),
                            pass: None,
                            send: None,
                            next: Next::Done(Ok(())),
                        };
                    }
                    if read_id(&packet) == self.packet_id {
                        let report = if self.kind == AckKind::Suback {
                            SubackPacket.decode(packet)
                        } else {
                            UnsubackPacket.decode(packet)
                        };
                        return Step {
                            report: Some(report),
                            pass: None,
                            send: None,
                            next: Next::Done(Ok(())),
                        };
                    }
                } else {
                    pass = Some(packet);
                }
            },
            ReadEvent::ReadFailed => {
                let error = match self.kind {
                    AckKind::Suback => ClientError::SubackReadFailed,
                    AckKind::Unsuback => ClientError::UnsubackReadFailed,
                    AckKind::Pingresp => ClientError::PingrespReadFailed,
                };
                return Step { report: None, pass: None, send: None, next: Next::Done(Err(error)) };
            },
            ReadEvent::TimedOut => {},
        }
        self.retries = self.retries + 1;
        let next = if self.retries >= ACK_MAX_RETRIES {
            Next::Done(
                Err(
                    match self.kind {
                        AckKind::Suback => ClientError::SubackMissing,
                        AckKind::Unsuback => ClientError::UnsubackMissing,
                        AckKind::Pingresp => ClientError::PingrespMissing,
                    },
                ),
            )
        } else {
            Next::Read(ACK_TIMEOUT_MS)
        };
        Step { report: None, pass, send: None, next }
    }
}

/// What the client does with a packet that came while it waits for
/// messages: a PUBLISH is decoded, anything else is passed over.
pub fn incoming_publish(packet: Vec<u8>) -> (r: Option<Decoded<String>>)
    requires
        packet@.len() >= 1,
        packet@[0] == ControlPackets::Publish.spec_byte() ==> PublishPacketGet.decodable(packet@),
    ensures
        packet@[0] == ControlPackets::Publish.spec_byte() ==> (r matches Some(d) && d@
            == PublishPacketGet.spec_decode(packet@)),
        packet@[0] != ControlPackets::Publish.spec_byte() ==> r is None,
{
    if packet[0] == ControlPackets::Publish.as_byte() {
        Some(PublishPacketGet.decode(packet))
    } else {
        None
    }
}

/// The packet identifier in bytes 2 and 3 of a packet.
fn read_id(p: &Vec<u8>) -> (r: u16)
    requires
        p.len() >= 4,
    ensures
        r == spec_packet_id(p@),
{
    crate::package::decode::read_be16(p[2], p[3])
}

} // verus!
