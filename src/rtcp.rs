//! Views of RTCP packets, and RTCP packet types.
use crate::rtcp::report::{
    receiver_report_fields, sender_report_fields, MutableReceiverReportPacket,
    MutableSenderReportPacket, ReceiverReport, ReceiverReportPacket, SenderReport,
    SenderReportPacket,
};
use vstd::prelude::*;

pub mod report;

verus! {

/// RTCP packet types, which name the layout of the header and of the body.
///
/// Assigned codes have variants of their own; every other code is kept as it
/// came in a catch-all variant.
#[derive(Copy, Clone, Debug, PartialEq, Eq, Hash, Structural)]
#[non_exhaustive]
pub enum RtcpType {
    /// SMPTE time-code mapping (RFC 5484). Code 194.
    SmpteMap,
    /// Extended inter-arrival jitter report (RFC 5450). Code 195.
    JitterReport,
    /// Sender report: reception, timing and volume information, with a
    /// sender information block (RFC 3550). Code 200.
    SenderReport,
    /// Receiver report: reception information (RFC 3550). Code 201.
    ReceiverReport,
    /// Source description (RFC 3550). Code 202.
    SourceDescription,
    /// Goodbye: sources that leave, with an optional reason (RFC 3550). Code 203.
    Goodbye,
    /// Application-defined message (RFC 3550). Code 204.
    ApplicationDefined,
    /// Feedback on the transport layer (RFC 4585). Code 205.
    TransportFeedback,
    /// Feedback on the payload (RFC 4585). Code 206.
    PayloadFeedback,
    /// Extended report (RFC 3611). Code 207.
    ExtendedReport,
    /// AVB RTCP packet (IEEE 1733). Code 208.
    Avb,
    /// Receiver summary information (RFC 5760). Code 209.
    ReceiverSummary,
    /// Port mapping (RFC 6284). Code 210.
    PortMapping,
    /// IDMS settings (RFC 7272). Code 211.
    Idms,
    /// Reporting group reporting sources. Code 212.
    ReportingGroupSources,
    /// Splicing notification (RFC 8286). Code 213.
    SplicingNotification,
    /// Explicitly reserved code (0, 192, 193 and 255).
    Reserved(u8),
    /// Any other code.
    Unassigned(u8),
}

/// The packet type that `code` stands for.
pub open spec fn classify_rtcp(code: u8) -> RtcpType {
    match code {
        194 => RtcpType::SmpteMap,
        195 => RtcpType::JitterReport,
        200 => RtcpType::SenderReport,
        201 => RtcpType::ReceiverReport,
        202 => RtcpType::SourceDescription,
        203 => RtcpType::Goodbye,
        204 => RtcpType::ApplicationDefined,
        205 => RtcpType::TransportFeedback,
        206 => RtcpType::PayloadFeedback,
        207 => RtcpType::ExtendedReport,
        208 => RtcpType::Avb,
        209 => RtcpType::ReceiverSummary,
        210 => RtcpType::PortMapping,
        211 => RtcpType::Idms,
        212 => RtcpType::ReportingGroupSources,
        213 => RtcpType::SplicingNotification,
        0 | 192 | 193 | 255 => RtcpType::Reserved(code),
        _ => RtcpType::Unassigned(code),
    }
}

/// The code that stands for `t`.
pub open spec fn rtcp_code(t: RtcpType) -> u8 {
    match t {
        RtcpType::SmpteMap => 194,
        RtcpType::JitterReport => 195,
        RtcpType::SenderReport => 200,
        RtcpType::ReceiverReport => 201,
        RtcpType::SourceDescription => 202,
        RtcpType::Goodbye => 203,
        RtcpType::ApplicationDefined => 204,
        RtcpType::TransportFeedback => 205,
        RtcpType::PayloadFeedback => 206,
        RtcpType::ExtendedReport => 207,
        RtcpType::Avb => 208,
        RtcpType::ReceiverSummary => 209,
        RtcpType::PortMapping => 210,
        RtcpType::Idms => 211,
        RtcpType::ReportingGroupSources => 212,
        RtcpType::SplicingNotification => 213,
        RtcpType::Reserved(v) => v,
        RtcpType::Unassigned(v) => v,
    }
}

/// Whether packets of type `t` are decoded into views of their own.
pub open spec fn has_body_view(t: RtcpType) -> bool {
    t == RtcpType::SenderReport || t == RtcpType::ReceiverReport
}

/// The size below which a packet of type `t` cannot be decoded.
pub open spec fn decode_minimum(t: RtcpType) -> int {
    if has_body_view(t) {
        8
    } else {
        0
    }
}

/// The fields of an RTCP packet, owned.
#[derive(Clone, Debug, PartialEq, Eq)]
#[non_exhaustive]
pub enum Rtcp {
    SenderReport(SenderReport),
    ReceiverReport(ReceiverReport),
    /// A packet of a type that has no view of its own.
    KnownType(RtcpType),
}

/// A read-only view of an RTCP packet, by packet type.
#[derive(Debug)]
#[non_exhaustive]
pub enum RtcpPacket<'a> {
    SenderReport(SenderReportPacket<'a>),
    ReceiverReport(ReceiverReportPacket<'a>),
    /// A packet of a type that has no view of its own: only its type is read.
    KnownType(RtcpType),
}

/// A mutable view of an RTCP packet, by packet type.
#[derive(Debug)]
#[non_exhaustive]
pub enum MutableRtcpPacket<'a> {
    SenderReport(MutableSenderReportPacket<'a>),
    ReceiverReport(MutableReceiverReportPacket<'a>),
    /// A packet of a type that has no view of its own: only its type is read.
    KnownType(RtcpType),
}

impl<'a> RtcpPacket<'a> {
    /// `self` is what decoding `b` as a packet of type `t` gives.
    pub open spec fn decodes(&self, t: RtcpType, b: Seq<u8>) -> bool {
        match *self {
            RtcpPacket::SenderReport(p) => t == RtcpType::SenderReport && p@ == b,
            RtcpPacket::ReceiverReport(p) => t == RtcpType::ReceiverReport && p@ == b,
            RtcpPacket::KnownType(k) => k == t && !has_body_view(t),
        }
    }

    /// The bytes that the view covers; none for a packet without a view of its own.
    pub open spec fn bytes(&self) -> Seq<u8> {
        match *self {
            RtcpPacket::SenderReport(p) => p@,
            RtcpPacket::ReceiverReport(p) => p@,
            RtcpPacket::KnownType(_) => Seq::empty(),
        }
    }

    /// Reads the packet type from `pkt[1]` and decodes `pkt` as that type.
    ///
    /// Gives `None` when `pkt` is too short for its type byte, or for the
    /// fixed fields of its type.
    pub fn new(pkt: &'a [u8]) -> (r: Option<RtcpPacket<'a>>)
        ensures
            r is None <==> pkt@.len() < 2 || pkt@.len() < decode_minimum(classify_rtcp(pkt@[1])),
            r matches Some(p) ==> p.decodes(classify_rtcp(pkt@[1]), pkt@),
    {
        match RtcpType::from_packet(pkt) {
            Some(rtcp_id) => rtcp_id.decode(pkt),
            None => None,
        }
    }

    /// The bytes that the view covers; empty for a packet without a view of its own.
    pub fn packet(&self) -> (r: &'a [u8])
        ensures
            r@ == self.bytes(),
    {
        match self {
            RtcpPacket::SenderReport(s) => s.packet(),
            RtcpPacket::ReceiverReport(s) => s.packet(),
            RtcpPacket::KnownType(_) => {
                let e: &[u8] = &[];
                assert(e@ =~= Seq::<u8>::empty());
                e
            },
        }
    }

    /// The body after the header; empty for a packet without a view of its own.
    pub fn payload(&self) -> (r: &'a [u8])
        ensures
            r@ == if self is KnownType {
                Seq::<u8>::empty()
            } else {
                self.bytes().subrange(8, self.bytes().len() as int)
            },
    {
        match self {
            RtcpPacket::SenderReport(s) => s.payload(),
            RtcpPacket::ReceiverReport(s) => s.payload(),
            RtcpPacket::KnownType(_) => {
                let e: &[u8] = &[];
                assert(e@ =~= Seq::<u8>::empty());
                e
            },
        }
    }

    /// An owned copy of every field.
    pub fn from_packet(&self) -> (r: Rtcp)
        ensures
            match (*self, r) {
                (RtcpPacket::SenderReport(p), Rtcp::SenderReport(s)) => sender_report_fields(s, p@),
                (RtcpPacket::ReceiverReport(p), Rtcp::ReceiverReport(s)) => receiver_report_fields(
                    s,
                    p@,
                ),
                (RtcpPacket::KnownType(t), Rtcp::KnownType(u)) => t == u,
                _ => false,
            },
    {
        match self {
            RtcpPacket::SenderReport(s) => Rtcp::SenderReport(s.from_packet()),
            RtcpPacket::ReceiverReport(s) => Rtcp::ReceiverReport(s.from_packet()),
            RtcpPacket::KnownType(t) => Rtcp::KnownType(*t),
        }
    }

    /// The size of the header; `0` for a packet without a view of its own.
    pub fn packet_size(&self) -> (r: usize)
        ensures
            r == if self is KnownType {
                0usize
            } else {
                8usize
            },
    {
        match self {
            RtcpPacket::SenderReport(s) => s.packet_size(),
            RtcpPacket::ReceiverReport(s) => s.packet_size(),
            RtcpPacket::KnownType(_) => 0,
        }
    }
}

impl<'a> MutableRtcpPacket<'a> {
    /// `self` is what decoding `b` as a packet of type `t` gives.
    pub open spec fn decodes(&self, t: RtcpType, b: Seq<u8>) -> bool {
        match *self {
            MutableRtcpPacket::SenderReport(p) => t == RtcpType::SenderReport && p@ == b,
            MutableRtcpPacket::ReceiverReport(p) => t == RtcpType::ReceiverReport && p@ == b,
            MutableRtcpPacket::KnownType(k) => k == t && !has_body_view(t),
        }
    }

    /// The bytes that the view covers; none for a packet without a view of its own.
    pub open spec fn bytes(&self) -> Seq<u8> {
        match *self {
            MutableRtcpPacket::SenderReport(p) => p@,
            MutableRtcpPacket::ReceiverReport(p) => p@,
            MutableRtcpPacket::KnownType(_) => Seq::empty(),
        }
    }

    /// Reads the packet type from `pkt[1]` and decodes `pkt` as that type, for writing.
    ///
    /// Gives `None` when `pkt` is too short for its type byte, or for the
    /// fixed fields of its type.
    pub fn new(pkt: &'a mut [u8]) -> (r: Option<MutableRtcpPacket<'a>>)
        ensures
            r is None <==> old(pkt)@.len() < 2 || old(pkt)@.len() < decode_minimum(
                classify_rtcp(old(pkt)@[1]),
            ),
            r matches Some(p) ==> p.decodes(classify_rtcp(old(pkt)@[1]), old(pkt)@),
    {
        match RtcpType::from_packet(pkt) {
            Some(rtcp_id) => rtcp_id.decode_mut(pkt),
            None => None,
        }
    }

    /// The bytes that the view covers; empty for a packet without a view of its own.
    pub fn packet(&self) -> (r: &[u8])
        ensures
            r@ == self.bytes(),
    {
        match self {
            MutableRtcpPacket::SenderReport(s) => s.packet(),
            MutableRtcpPacket::ReceiverReport(s) => s.packet(),
            MutableRtcpPacket::KnownType(_) => {
                let e: &[u8] = &[];
                assert(e@ =~= Seq::<u8>::empty());
                e
            },
        }
    }

    /// The body after the header; empty for a packet without a view of its own.
    pub fn payload(&self) -> (r: &[u8])
        ensures
            r@ == if self is KnownType {
                Seq::<u8>::empty()
            } else {
                self.bytes().subrange(8, self.bytes().len() as int)
            },
    {
        match self {
            MutableRtcpPacket::SenderReport(s) => s.payload(),
            MutableRtcpPacket::ReceiverReport(s) => s.payload(),
            MutableRtcpPacket::KnownType(_) => {
                let e: &[u8] = &[];
                assert(e@ =~= Seq::<u8>::empty());
                e
            },
        }
    }

    /// An owned copy of every field.
    pub fn from_packet(&self) -> (r: Rtcp)
        ensures
            match (*self, r) {
                (MutableRtcpPacket::SenderReport(p), Rtcp::SenderReport(s)) => sender_report_fields(
                    s,
                    p@,
                ),
                (MutableRtcpPacket::ReceiverReport(p), Rtcp::ReceiverReport(s)) => receiver_report_fields(
                    s,
                    p@,
                ),
                (MutableRtcpPacket::KnownType(t), Rtcp::KnownType(u)) => t == u,
                _ => false,
            },
    {
        match self {
            MutableRtcpPacket::SenderReport(s) => Rtcp::SenderReport(s.from_packet()),
            MutableRtcpPacket::ReceiverReport(s) => Rtcp::ReceiverReport(s.from_packet()),
            MutableRtcpPacket::KnownType(t) => Rtcp::KnownType(*t),
        }
    }

    /// The size of the header; `0` for a packet without a view of its own.
    pub fn packet_size(&self) -> (r: usize)
        ensures
            r == if self is KnownType {
                0usize
            } else {
                8usize
            },
    {
        match self {
            MutableRtcpPacket::SenderReport(s) => s.packet_size(),
            MutableRtcpPacket::ReceiverReport(s) => s.packet_size(),
            MutableRtcpPacket::KnownType(_) => 0,
        }
    }
}

impl<'a> RtcpType {
    pub fn new(val: u8) -> (r: Self)
        ensures
            r == classify_rtcp(val),
    {
        match val {
            194 => Self::SmpteMap,
            195 => Self::JitterReport,
            200 => Self::SenderReport,
            201 => Self::ReceiverReport,
            202 => Self::SourceDescription,
            203 => Self::Goodbye,
            204 => Self::ApplicationDefined,
            205 => Self::TransportFeedback,
            206 => Self::PayloadFeedback,
            207 => Self::ExtendedReport,
            208 => Self::Avb,
            209 => Self::ReceiverSummary,
            210 => Self::PortMapping,
            211 => Self::Idms,
            212 => Self::ReportingGroupSources,
            213 => Self::SplicingNotification,
            0 | 192 | 193 | 255 => Self::Reserved(val),
            _ => Self::Unassigned(val),
        }
    }

    /// Decodes `pkt` as a packet of this type.
    ///
    /// Sender and receiver reports get views of their own, and `None` when
    /// `pkt` is shorter than their fixed fields; any other type gives
    /// `KnownType` with this type.
    pub fn decode(&self, pkt: &'a [u8]) -> (r: Option<RtcpPacket<'a>>)
        ensures
            r is None <==> pkt@.len() < decode_minimum(*self),
            r matches Some(p) ==> p.decodes(*self, pkt@),
    {
        match self {
            Self::SenderReport => match SenderReportPacket::new(pkt) {
                Some(p) => Some(RtcpPacket::SenderReport(p)),
                None => None,
            },
            Self::ReceiverReport => match ReceiverReportPacket::new(pkt) {
                Some(p) => Some(RtcpPacket::ReceiverReport(p)),
                None => None,
            },
            a => Some(RtcpPacket::KnownType(*a)),
        }
    }

    /// Decodes `pkt` as a packet of this type, for writing; see [`RtcpType::decode`].
    pub fn decode_mut(&self, pkt: &'a mut [u8]) -> (r: Option<MutableRtcpPacket<'a>>)
        ensures
            r is None <==> old(pkt)@.len() < decode_minimum(*self),
            r matches Some(p) ==> p.decodes(*self, old(pkt)@),
    {
        match self {
            Self::SenderReport => match MutableSenderReportPacket::new(pkt) {
                Some(p) => Some(MutableRtcpPacket::SenderReport(p)),
                None => None,
            },
            Self::ReceiverReport => match MutableReceiverReportPacket::new(pkt) {
                Some(p) => Some(MutableRtcpPacket::ReceiverReport(p)),
                None => None,
            },
            a => Some(MutableRtcpPacket::KnownType(*a)),
        }
    }

    /// The packet type that `pkt[1]` names, or `None` when `pkt` has no such byte.
    pub fn from_packet(pkt: &[u8]) -> (r: Option<Self>)
        ensures
            r is None <==> pkt@.len() < 2,
            r matches Some(t) ==> t == classify_rtcp(pkt@[1]),
    {
        if pkt.len() < 2 {
            None
        } else {
            Some(Self::new(pkt[1]))
        }
    }

    /// The code of this packet type, as a one-element tuple.
    pub fn to_primitive_values(&self) -> (r: (u8,))
        ensures
            r.0 == rtcp_code(*self),
    {
        match self {
            Self::SmpteMap => (194,),
            Self::JitterReport => (195,),
            Self::SenderReport => (200,),
            Self::ReceiverReport => (201,),
            Self::SourceDescription => (202,),
            Self::Goodbye => (203,),
            Self::ApplicationDefined => (204,),
            Self::TransportFeedback => (205,),
            Self::PayloadFeedback => (206,),
            Self::ExtendedReport => (207,),
            Self::Avb => (208,),
            Self::ReceiverSummary => (209,),
            Self::PortMapping => (210,),
            Self::Idms => (211,),
            Self::ReportingGroupSources => (212,),
            Self::SplicingNotification => (213,),
            Self::Reserved(val) | Self::Unassigned(val) => (*val,),
        }
    }
}

/// Every code is recovered from its packet type: catch-all variants carry
/// the code, and each named variant has exactly one code.
pub proof fn lemma_rtcp_code_of_classify(code: u8)
    ensures
        rtcp_code(classify_rtcp(code)) == code,
{
}

/// Classifying the code of a classified packet type gives that packet type back.
pub proof fn lemma_rtcp_classify_round_trip(code: u8)
    ensures
        classify_rtcp(rtcp_code(classify_rtcp(code))) == classify_rtcp(code),
{
    lemma_rtcp_code_of_classify(code);
}

} // verus!
