//! Separating RTP and RTCP packets that share one stream.
use crate::rtcp::{
    classify_rtcp, decode_minimum, rtcp_code, MutableRtcpPacket, RtcpPacket, RtcpType,
};
use crate::rtp::{classify_rtp, rtp_code, MutableRtpPacket, RtpPacket, RtpType};
use vstd::prelude::*;

verus! {

/// RTP and RTCP packets separated from the same stream.
///
/// `FailedParse` arises when too few bytes were given for the fixed fields of
/// the protocol that the packet type chose.
#[derive(Debug)]
pub enum Demuxed<'a> {
    Rtp(RtpPacket<'a>),
    Rtcp(RtcpPacket<'a>),
    FailedParse(DemuxType),
    TooSmall,
}

/// Mutable RTP and RTCP packets separated from the same stream.
///
/// `FailedParse` arises when too few bytes were given for the fixed fields of
/// the protocol that the packet type chose.
#[derive(Debug)]
pub enum DemuxedMut<'a> {
    Rtp(MutableRtpPacket<'a>),
    Rtcp(MutableRtcpPacket<'a>),
    FailedParse(DemuxType),
    TooSmall,
}

/// The protocol that a packet was taken for, with its packet type.
#[derive(Copy, Clone, Debug, PartialEq, Eq, Structural)]
pub enum DemuxType {
    Rtp(RtpType),
    Rtcp(RtcpType),
}

/// What the second byte of a packet makes of it: RTCP when it names an RTCP
/// packet type, and otherwise RTP, with the marker bit cleared from the
/// payload type.
pub open spec fn demux_type_of(byte: u8) -> DemuxType {
    match classify_rtcp(byte) {
        RtcpType::Reserved(_) | RtcpType::Unassigned(_) => DemuxType::Rtp(
            classify_rtp(byte & 0x7f),
        ),
        t => DemuxType::Rtcp(t),
    }
}

/// The size below which a packet taken for `t` cannot be decoded.
pub open spec fn demux_minimum(t: DemuxType) -> int {
    match t {
        DemuxType::Rtp(_) => 12,
        DemuxType::Rtcp(k) => decode_minimum(k),
    }
}

/// Decides from `pkt[1]` whether `pkt` is RTP or RTCP, and of which type.
pub fn classify_pt(pkt: &[u8]) -> (r: DemuxType)
    requires
        pkt@.len() >= 2,
    ensures
        r == demux_type_of(pkt@[1]),
{
    match RtcpType::new(pkt[1]) {
        RtcpType::Reserved(a) | RtcpType::Unassigned(a) => DemuxType::Rtp(
            RtpType::new(a & 0b0111_1111),
        ),
        a => DemuxType::Rtcp(a),
    }
}

/// Demultiplexes combined RTP and RTCP streams.
///
/// A packet whose second byte names an RTCP packet type is RTCP; any other
/// is RTP (RFC 5761, section 4). Gives `TooSmall` below 2 bytes, and
/// `FailedParse` when the packet is too short for the protocol chosen; the
/// other protocol is then not tried.
pub fn demux(pkt: &[u8]) -> (r: Demuxed)
    ensures
        pkt@.len() < 2 ==> r is TooSmall,
        pkt@.len() >= 2 ==> ({
            let t = demux_type_of(pkt@[1]);
            if pkt@.len() < demux_minimum(t) {
                r == Demuxed::FailedParse(t)
            } else {
                match t {
                    DemuxType::Rtp(_) => r matches Demuxed::Rtp(p) && p@ == pkt@,
                    DemuxType::Rtcp(k) => r matches Demuxed::Rtcp(p) && p.decodes(k, pkt@),
                }
            }
        }),
{
    if pkt.len() < 2 {
        Demuxed::TooSmall
    } else {
        let pt = classify_pt(pkt);
        let decoded = match pt {
            DemuxType::Rtp(_) => match RtpPacket::new(pkt) {
                Some(p) => Some(Demuxed::Rtp(p)),
                None => None,
            },
            DemuxType::Rtcp(rt) => match rt.decode(pkt) {
                Some(p) => Some(Demuxed::Rtcp(p)),
                None => None,
            },
        };
        match decoded {
            Some(d) => d,
            None => Demuxed::FailedParse(pt),
        }
    }
}

/// Demultiplexes combined RTP and RTCP streams, giving mutable views; see [`demux`].
pub fn demux_mut(pkt: &mut [u8]) -> (r: DemuxedMut)
    ensures
        old(pkt)@.len() < 2 ==> r is TooSmall,
        old(pkt)@.len() >= 2 ==> ({
            let t = demux_type_of(old(pkt)@[1]);
            if old(pkt)@.len() < demux_minimum(t) {
                r == DemuxedMut::FailedParse(t)
            } else {
                match t {
                    DemuxType::Rtp(_) => r matches DemuxedMut::Rtp(p) && p@ == old(pkt)@,
                    DemuxType::Rtcp(k) => r matches DemuxedMut::Rtcp(p) && p.decodes(k, old(pkt)@),
                }
            }
        }),
{
    if pkt.len() < 2 {
        DemuxedMut::TooSmall
    } else {
        let pt = classify_pt(pkt);
        let decoded = match pt {
            DemuxType::Rtp(_) => match MutableRtpPacket::new(pkt) {
                Some(p) => Some(DemuxedMut::Rtp(p)),
                None => None,
            },
            DemuxType::Rtcp(rt) => match rt.decode_mut(pkt) {
                Some(p) => Some(DemuxedMut::Rtcp(p)),
                None => None,
            },
        };
        match decoded {
            Some(d) => d,
            None => DemuxedMut::FailedParse(pt),
        }
    }
}

/// A packet whose RTP payload type is assigned or dynamic, with the marker
/// bit set or not, is never taken for RTCP: the codes that RTCP names lie
/// outside what such packets can carry in their second byte.
pub proof fn lemma_rtp_types_stay_rtp(byte: u8)
    requires
        !(classify_rtp(byte & 0x7f) is Reserved),
        !(classify_rtp(byte & 0x7f) is Unassigned),
    ensures
        demux_type_of(byte) == DemuxType::Rtp(classify_rtp(byte & 0x7f)),
{
    assert(byte & 0x7f == byte % 128) by (bit_vector);
}

/// A packet whose second byte holds the code of a named RTCP packet type is
/// taken for RTCP of that type.
pub proof fn lemma_named_rtcp_types_stay_rtcp(k: RtcpType)
    requires
        !(k is Reserved),
        !(k is Unassigned),
    ensures
        demux_type_of(rtcp_code(k)) == DemuxType::Rtcp(k),
{
}

/// A packet of at least 2 bytes whose second byte is 200 is taken for an
/// RTCP sender report, and decodes as one from 8 bytes on.
pub proof fn lemma_sender_report_code_demuxes(b: Seq<u8>)
    requires
        b.len() >= 2,
        b[1] == 200,
    ensures
        demux_type_of(b[1]) == DemuxType::Rtcp(RtcpType::SenderReport),
        demux_minimum(demux_type_of(b[1])) == 8,
{
}

/// A packet of at least 2 bytes whose second byte is 0 is taken for RTP with
/// payload type PCMU, and decodes as RTP from 12 bytes on.
pub proof fn lemma_pcmu_code_demuxes(b: Seq<u8>)
    requires
        b.len() >= 2,
        b[1] == 0,
    ensures
        demux_type_of(b[1]) == DemuxType::Rtp(RtpType::Pcmu),
        demux_minimum(demux_type_of(b[1])) == 12,
{
    assert(0u8 & 0x7f == 0) by (bit_vector);
}

} // verus!
