use vstd::prelude::*;
use vstd::string::StringExecFns;

use crate::connect::ConnackReturnCode;
use crate::package::decode::{DecodeError, Decoded};
use crate::pubsub::SubackReturnCode;
use crate::text::{decimal, hex2, push_decimal, push_hex2, string_views};

verus! {

/// A packet identifier as four upper-case hexadecimal digits, high byte first.
pub open spec fn hex4(id: u16) -> Seq<char> {
    hex2((id / 256) as u8, true) + hex2((id % 256) as u8, true)
}

/// The line that describes a CONNACK return code.
pub open spec fn connack_code_line(code: ConnackReturnCode, raw: u8) -> Seq<char> {
    match code {
        ConnackReturnCode::ConnectionAccept => "Return Code: 0x00 (Connection Accepted)"@,
        ConnackReturnCode::UnacceptableProtocolVersion => "Return Code: 0x01 (Unacceptable Protocol Version)"@,
        ConnackReturnCode::IdentifierReject => "Return Code: 0x02 (Identifier Rejected)"@,
        ConnackReturnCode::ServerUnavailable => "Return Code: 0x03 (Server Unavailable)"@,
        ConnackReturnCode::BadUsernameOrPassword => "Return Code: 0x04 (Bad User Name or Password)"@,
        ConnackReturnCode::NotAuthorized => "Return Code: 0x05 (Not Authorized)"@,
        ConnackReturnCode::UnknownCode => "Return Code: 0x"@ + hex2(raw, false) + " (Unknown)"@,
    }
}

/// The line that describes a SUBACK return code.
pub open spec fn suback_code_line(code: SubackReturnCode) -> Seq<char> {
    match code {
        SubackReturnCode::MaximumQos0 => "Success sub with qos 0"@,
        SubackReturnCode::MaximumQos1 => "Success sub with qos 1"@,
        SubackReturnCode::MaximumQos2 => "Success sub with qos 2"@,
        SubackReturnCode::Failure => "Sub topic failure"@,
        SubackReturnCode::Unknown => "Unknown code ?"@,
    }
}

/// A SUBACK return code that grants a QoS is reported as
/// "Success sub with qos " followed by that QoS in decimal.
pub proof fn lemma_suback_grant_line(n: u8)
    requires
        n <= 2,
    ensures
        suback_code_line(SubackReturnCode::spec_from_u8(n)) == "Success sub with qos "@ + decimal(
            n as nat,
        ),
{
    reveal_strlit("Success sub with qos ");
    reveal_strlit("Success sub with qos 0");
    reveal_strlit("Success sub with qos 1");
    reveal_strlit("Success sub with qos 2");
    let prefix = "Success sub with qos "@;
    assert(prefix.len() == 21);
    if n == 0 {
        assert(decimal(0) == seq!['0']);
        assert("Success sub with qos 0"@ =~= prefix + decimal(0));
    } else if n == 1 {
        assert(decimal(1) == seq!['1']);
        assert("Success sub with qos 1"@ =~= prefix + decimal(1));
    } else {
        assert(decimal(2) == seq!['2']);
        assert("Success sub with qos 2"@ =~= prefix + decimal(2));
    }
}

/// Distinct SUBACK return codes are reported by distinct lines.
pub proof fn lemma_suback_lines_distinct(a: SubackReturnCode, b: SubackReturnCode)
    ensures
        a != b ==> suback_code_line(a) != suback_code_line(b),
{
    reveal_strlit("Success sub with qos 0");
    reveal_strlit("Success sub with qos 1");
    reveal_strlit("Success sub with qos 2");
    reveal_strlit("Sub topic failure");
    reveal_strlit("Unknown code ?");
    let l0 = "Success sub with qos 0"@;
    let l1 = "Success sub with qos 1"@;
    let l2 = "Success sub with qos 2"@;
    let lf = "Sub topic failure"@;
    let lu = "Unknown code ?"@;
    assert(l0.len() == 22 && l1.len() == 22 && l2.len() == 22 && lf.len() == 17 && lu.len() == 14);
    assert(l0[21] == '0' && l1[21] == '1' && l2[21] == '2');
}

/// A CONNACK return code of a defined value is reported with that value as
/// two hexadecimal digits: "Return Code: 0x0n (...)".
pub proof fn lemma_connack_code_line(n: u8)
    requires
        n <= 5,
    ensures
        connack_code_line(ConnackReturnCode::spec_from_u8(n), n).subrange(0, 17) == "Return Code: 0x"@
            + hex2(n, false),
        connack_code_line(ConnackReturnCode::spec_from_u8(n), n).len() > 17,
{
    reveal_strlit("Return Code: 0x");
    reveal_strlit("Return Code: 0x00 (Connection Accepted)");
    reveal_strlit("Return Code: 0x01 (Unacceptable Protocol Version)");
    reveal_strlit("Return Code: 0x02 (Identifier Rejected)");
    reveal_strlit("Return Code: 0x03 (Server Unavailable)");
    reveal_strlit("Return Code: 0x04 (Bad User Name or Password)");
    reveal_strlit("Return Code: 0x05 (Not Authorized)");
    let line = connack_code_line(ConnackReturnCode::spec_from_u8(n), n);
    assert("Return Code: 0x"@.len() == 15);
    assert(line.len() > 17);
    assert(hex2(n, false) == seq!['0', ((n as nat) + 48) as char]);
    assert(line.subrange(0, 17) =~= "Return Code: 0x"@ + hex2(n, false));
}

/// The first line about a CONNACK: its first byte.
pub open spec fn connack_header_line(header: u8) -> Seq<char> {
    "Fixed Header: 0x"@ + hex2(header, false) + " (CONNACK)"@
}

/// The lines that report why a packet was not accepted.
pub open spec fn error_lines(e: DecodeError) -> Seq<Seq<char>> {
    match e {
        DecodeError::ConnackLength => seq!["Connack packet is invalid, need at least 4 byte"@],
        DecodeError::ConnackRemainingLength { header } => seq![
            connack_header_line(header),
            "Remaining Length is invalid, it must be 2 bytes"@,
        ],
        DecodeError::PublishTooShort => seq!["Packet is too short to be a valid PUBLISH packet"@],
        DecodeError::NotPublish => seq!["Not a PUBLISH packet"@],
        DecodeError::SubackTooShort => seq!["Invalid Suback packet, it must be at least 5 bytes"@],
        DecodeError::NotSuback => seq![" this is not suback packet, Error"@],
        DecodeError::SubackRemainingLength { remaining_length } => seq![
            "Get Suback packet, "@ + decimal(remaining_length as nat),
            "Remaining Length is invalid, it must be 3 bytes"@,
        ],
        DecodeError::UnsubackLength => seq!["Invalid Unsuback packet, it must be 4 bytes"@],
        DecodeError::PubackLength => seq!["Invalid Pubrec packet, it must be 4 bytes"@],
        DecodeError::PubrecLength => seq!["Invalid Pubrec packet, it must be 4 bytes"@],
        DecodeError::PubcompLength => seq!["Invalid Pubcomp packet, it must be 4 bytes"@],
        DecodeError::PingrespLength => seq!["Error: Pingres is 2 bytes"@],
        DecodeError::NotPingresp => seq!["This is not Pingres packet "@],
    }
}

/// The lines printed about a decoded packet, one per line of output.
pub open spec fn spec_lines(d: Decoded<Seq<char>>) -> Seq<Seq<char>> {
    match d {
        Decoded::Connack { header, session_present, return_code, code } => seq![
            connack_header_line(header),
            "Remaining Length: 2"@,
            "Session Present Flag: "@ + decimal(session_present as nat),
            connack_code_line(return_code, code),
        ],
        Decoded::Publish { topic, message } => seq!["Topic = "@ + topic, "Message = "@ + message],
        Decoded::Suback { packet_id, return_code } => seq![
            "Get Suback packet, 3"@,
            "Get Packet ID = 0x"@ + hex4(packet_id),
            suback_code_line(return_code),
        ],
        Decoded::Unsuback { packet_id } => seq![
            "Get Packet ID = 0x"@ + hex4(packet_id),
            "Get Unsuback successfully"@,
        ],
        Decoded::Puback { packet_id } => seq!["Get Pubrec Packet ID 0x"@ + hex4(packet_id)],
        Decoded::Pubrec { packet_id } => seq!["Get Pubrec Packet ID 0x"@ + hex4(packet_id)],
        Decoded::Pubcomp { packet_id } => seq!["Get Pubrec Packet ID 0x"@ + hex4(packet_id)],
        Decoded::Pingresp => seq!["Get Pingres from broker, stable connection!"@],
        Decoded::Invalid(e) => error_lines(e),
    }
}

fn hex4_string(prefix: &str, id: u16) -> (r: String)
    ensures
        r@ == prefix@ + hex4(id),
{
    let mut s = prefix.to_string();
    push_hex2(&mut s, (id / 256) as u8, true);
    push_hex2(&mut s, (id % 256) as u8, true);
    assert(s@ =~= prefix@ + hex4(id));
    s
}

fn connack_header_string(header: u8) -> (r: String)
    ensures
        r@ == connack_header_line(header),
{
    let mut s = "Fixed Header: 0x".to_string();
    push_hex2(&mut s, header, false);
    s.append(" (CONNACK)");
    s
}

fn connack_code_string(code: ConnackReturnCode, raw: u8) -> (r: String)
    ensures
        r@ == connack_code_line(code, raw),
{
    match code {
        ConnackReturnCode::ConnectionAccept => "Return Code: 0x00 (Connection Accepted)".to_string(),
        ConnackReturnCode::UnacceptableProtocolVersion => "Return Code: 0x01 (Unacceptable Protocol Version)".to_string(),
        ConnackReturnCode::IdentifierReject => "Return Code: 0x02 (Identifier Rejected)".to_string(),
        ConnackReturnCode::ServerUnavailable => "Return Code: 0x03 (Server Unavailable)".to_string(),
        ConnackReturnCode::BadUsernameOrPassword => "Return Code: 0x04 (Bad User Name or Password)".to_string(),
        ConnackReturnCode::NotAuthorized => "Return Code: 0x05 (Not Authorized)".to_string(),
        ConnackReturnCode::UnknownCode => {
            let mut s = "Return Code: 0x".to_string();
            push_hex2(&mut s, raw, false);
            s.append(" (Unknown)");
            s
        },
    }
}

fn suback_code_string(code: SubackReturnCode) -> (r: String)
    ensures
        r@ == suback_code_line(code),
{
    match code {
        SubackReturnCode::MaximumQos0 => "Success sub with qos 0".to_string(),
        SubackReturnCode::MaximumQos1 => "Success sub with qos 1".to_string(),
        SubackReturnCode::MaximumQos2 => "Success sub with qos 2".to_string(),
        SubackReturnCode::Failure => "Sub topic failure".to_string(),
        SubackReturnCode::Unknown => "Unknown code ?".to_string(),
    }
}

fn error_strings(e: DecodeError) -> (r: Vec<String>)
    ensures
        string_views(r@) == error_lines(e),
{
    let mut lines: Vec<String> = Vec::new();
    match e {
        DecodeError::ConnackLength => {
            lines.push("Connack packet is invalid, need at least 4 byte".to_string());
        },
        DecodeError::ConnackRemainingLength { header } => {
            lines.push(connack_header_string(header));
            lines.push("Remaining Length is invalid, it must be 2 bytes".to_string());
        },
        DecodeError::PublishTooShort => {
            lines.push("Packet is too short to be a valid PUBLISH packet".to_string());
        },
        DecodeError::NotPublish => {
            lines.push("Not a PUBLISH packet".to_string());
        },
        DecodeError::SubackTooShort => {
            lines.push("Invalid Suback packet, it must be at least 5 bytes".to_string());
        },
        DecodeError::NotSuback => {
            lines.push(" this is not suback packet, Error".to_string());
        },
        DecodeError::SubackRemainingLength { remaining_length } => {
            let mut s = "Get Suback packet, ".to_string();
            push_decimal(&mut s, remaining_length);
            lines.push(s);
            lines.push("Remaining Length is invalid, it must be 3 bytes".to_string());
        },
        DecodeError::UnsubackLength => {
            lines.push("Invalid Unsuback packet, it must be 4 bytes".to_string());
        },
        DecodeError::PubackLength => {
            lines.push("Invalid Pubrec packet, it must be 4 bytes".to_string());
        },
        DecodeError::PubrecLength => {
            lines.push("Invalid Pubrec packet, it must be 4 bytes".to_string());
        },
        DecodeError::PubcompLength => {
            lines.push("Invalid Pubcomp packet, it must be 4 bytes".to_string());
        },
        DecodeError::PingrespLength => {
            lines.push("Error: Pingres is 2 bytes".to_string());
        },
        DecodeError::NotPingresp => {
            lines.push("This is not Pingres packet ".to_string());
        },
    }
    assert(string_views(lines@) =~= error_lines(e));
    lines
}

impl Decoded<String> {
    /// The lines that report this decoded packet, in the order they are printed.
    pub fn lines(&self) -> (r: Vec<String>)
        ensures
            string_views(r@) == spec_lines(self@),
    {
        let mut lines: Vec<String> = Vec::new();
        match self {
            Decoded::Connack { header, session_present, return_code, code } => {
                lines.push(connack_header_string(*header));
                lines.push("Remaining Length: 2".to_string());
                let mut s = "Session Present Flag: ".to_string();
                push_decimal(&mut s, *session_present);
                lines.push(s);
                lines.push(connack_code_string(*return_code, *code));
            },
            Decoded::Publish { topic, message } => {
                let mut t = "Topic = ".to_string();
                t.append(topic.as_str());
                let mut m = "Message = ".to_string();
                m.append(message.as_str());
                lines.push(t);
                lines.push(m);
            },
            Decoded::Suback { packet_id, return_code } => {
                lines.push("Get Suback packet, 3".to_string());
                lines.push(hex4_string("Get Packet ID = 0x", *packet_id));
                lines.push(suback_code_string(*return_code));
            },
            Decoded::Unsuback { packet_id } => {
                lines.push(hex4_string("Get Packet ID = 0x", *packet_id));
                lines.push("Get Unsuback successfully".to_string());
            },
            Decoded::Puback { packet_id } => {
                lines.push(hex4_string("Get Pubrec Packet ID 0x", *packet_id));
            },
            Decoded::Pubrec { packet_id } => {
                lines.push(hex4_string("Get Pubrec Packet ID 0x", *packet_id));
            },
            Decoded::Pubcomp { packet_id } => {
                lines.push(hex4_string("Get Pubrec Packet ID 0x", *packet_id));
            },
            Decoded::Pingresp => {
                lines.push("Get Pingres from broker, stable connection!".to_string());
            },
            Decoded::Invalid(e) => {
                return error_strings(*e);
            },
        }
        assert(string_views(lines@) =~= spec_lines(self@));
        lines
    }
}

} // verus!
