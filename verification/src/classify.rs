use crate::Family;
use vstd::prelude::*;

verus! {

/// ICMPv4 message types the classifier distinguishes.
pub const V4_ECHO_REPLY: u8 = 0;
pub const V4_DESTINATION_UNREACHABLE: u8 = 3;
pub const V4_TIME_EXCEEDED: u8 = 11;
pub const V4_TIMESTAMP: u8 = 13;
pub const V4_TIMESTAMP_REPLY: u8 = 14;

/// ICMPv6 message types the classifier distinguishes.
pub const V6_DESTINATION_UNREACHABLE: u8 = 1;
pub const V6_TIME_EXCEEDED: u8 = 3;
pub const V6_ECHO_REPLY: u8 = 129;
pub const V6_ROUTER_ADVERT: u8 = 134;
pub const V6_NEIGHBOR_SOLICIT: u8 = 135;
pub const V6_NEIGHBOR_ADVERT: u8 = 136;

/// The classified kind of an inbound ICMP message. Messages of any type
/// outside the dispatch table, among them the ICMPv6 neighbor-discovery
/// messages, fall under `Other`; their raw type tag travels with the event.
#[derive(Clone, Copy, PartialEq, Eq, Structural, Debug)]
pub enum ReplyKind {
    EchoReply,
    TimeExceeded,
    DestinationUnreachable,
    Timestamp,
    Other,
}

/// A malformed inbound packet: shorter than the minimum header its type
/// requires. Reported as a parse failure, never as a crash.
#[derive(Clone, Copy, PartialEq, Eq, Structural, Debug)]
pub struct Malformed;

/// What the classifier extracts from one well-formed inbound packet:
/// its kind, its raw type tag, and — for an echo reply — the identifier
/// and sequence number of the probe it answers.
#[derive(Clone, Copy, PartialEq, Eq, Debug)]
pub struct Classification {
    pub kind: ReplyKind,
    pub type_code: u8,
    pub identifier: Option<u16>,
    pub sequence: Option<u16>,
}

/// The dispatch table: which kind each ICMP type code classifies to,
/// per protocol family.
pub open spec fn kind_of_type(family: Family, type_code: u8) -> ReplyKind {
    match family {
        Family::V4 => if type_code == V4_ECHO_REPLY {
            ReplyKind::EchoReply
        } else if type_code == V4_TIME_EXCEEDED {
            ReplyKind::TimeExceeded
        } else if type_code == V4_DESTINATION_UNREACHABLE {
            ReplyKind::DestinationUnreachable
        } else if type_code == V4_TIMESTAMP || type_code == V4_TIMESTAMP_REPLY {
            ReplyKind::Timestamp
        } else {
            ReplyKind::Other
        },
        Family::V6 => if type_code == V6_ECHO_REPLY {
            ReplyKind::EchoReply
        } else if type_code == V6_TIME_EXCEEDED {
            ReplyKind::TimeExceeded
        } else if type_code == V6_DESTINATION_UNREACHABLE {
            ReplyKind::DestinationUnreachable
        } else {
            ReplyKind::Other
        },
    }
}

/// The minimum ICMP header: type, code and checksum.
pub const MIN_HEADER_LEN: usize = 4;

/// An echo reply additionally carries identifier and sequence number.
pub const ECHO_REPLY_HEADER_LEN: usize = 8;

/// The 16-bit big-endian value held in bytes `i` and `i + 1`.
pub open spec fn be_u16_at(b: Seq<u8>, i: int) -> u16 {
    ((b[i] as int) * 0x100 + (b[i + 1] as int)) as u16
}

/// The whole classifier, as a function of the raw bytes: a buffer shorter
/// than the minimum header its type requires is malformed; anything else
/// classifies by the dispatch table, an echo reply with its identifier
/// and sequence number extracted.
pub open spec fn classify_spec(family: Family, b: Seq<u8>) -> Result<Classification, Malformed> {
    if b.len() < 4 {
        Err(Malformed)
    } else if kind_of_type(family, b[0]) is EchoReply {
        if b.len() < 8 {
            Err(Malformed)
        } else {
            Ok(
                Classification {
                    kind: ReplyKind::EchoReply,
                    type_code: b[0],
                    identifier: Some(be_u16_at(b, 4)),
                    sequence: Some(be_u16_at(b, 6)),
                },
            )
        }
    } else {
        Ok(
            Classification {
                kind: kind_of_type(family, b[0]),
                type_code: b[0],
                identifier: None,
                sequence: None,
            },
        )
    }
}

/// Classifies one raw inbound packet. Pure: the result is exactly
/// `classify_spec` of the buffer, and a buffer shorter than the minimum
/// header for its declared type reports `Malformed` rather than reading
/// out of bounds.
pub fn classify(family: Family, data: &Vec<u8>) -> (r: Result<Classification, Malformed>)
    ensures
        r == classify_spec(family, data@),
{
    if data.len() < MIN_HEADER_LEN {
        return Err(Malformed);
    }
    let type_code = data[0];
    let kind = match family {
        Family::V4 => {
            if type_code == V4_ECHO_REPLY {
                ReplyKind::EchoReply
            } else if type_code == V4_TIME_EXCEEDED {
                ReplyKind::TimeExceeded
            } else if type_code == V4_DESTINATION_UNREACHABLE {
                ReplyKind::DestinationUnreachable
            } else if type_code == V4_TIMESTAMP || type_code == V4_TIMESTAMP_REPLY {
                ReplyKind::Timestamp
            } else {
                ReplyKind::Other
            }
        },
        Family::V6 => {
            if type_code == V6_ECHO_REPLY {
                ReplyKind::EchoReply
            } else if type_code == V6_TIME_EXCEEDED {
                ReplyKind::TimeExceeded
            } else if type_code == V6_DESTINATION_UNREACHABLE {
                ReplyKind::DestinationUnreachable
            } else {
                ReplyKind::Other
            }
        },
    };
    match kind {
        ReplyKind::EchoReply => {
            if data.len() < ECHO_REPLY_HEADER_LEN {
                Err(Malformed)
            } else {
                let identifier: u16 = (data[4] as u16) * 0x100 + (data[5] as u16);
                let sequence: u16 = (data[6] as u16) * 0x100 + (data[7] as u16);
                Ok(
                    Classification {
                        kind: ReplyKind::EchoReply,
                        type_code,
                        identifier: Some(identifier),
                        sequence: Some(sequence),
                    },
                )
            }
        },
        _ => Ok(
            Classification { kind, type_code, identifier: None, sequence: None },
        ),
    }
}

/// Classification is total on well-formed buffers: any buffer long enough
/// for the largest type-specific header classifies successfully, whatever
/// its type tag, and to the kind the dispatch table gives that tag.
pub proof fn lemma_classify_total(family: Family, b: Seq<u8>)
    requires
        b.len() >= 8,
    ensures
        classify_spec(family, b) is Ok,
        classify_spec(family, b)->Ok_0.kind == kind_of_type(family, b[0]),
        classify_spec(family, b)->Ok_0.type_code == b[0],
{
}

/// A buffer shorter than the minimum header never classifies: it reports
/// a parse failure instead.
pub proof fn lemma_classify_short_is_malformed(family: Family, b: Seq<u8>)
    requires
        b.len() < 4,
    ensures
        classify_spec(family, b) is Err,
{
}

} // verus!
