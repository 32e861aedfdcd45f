//! Views of RTCP sender and receiver reports and of the blocks that their
//! bodies hold.
//!
//! A report's body is not taken apart on its own: a caller views the payload
//! of a [`SenderReportPacket`] as a [`SenderInfoPacket`], and what follows as
//! [`ReportBlockPacket`]s, as many as `rx_report_count` says.
use crate::bytes::{
    be16, be24, be32, bits_of, lemma_be16_round_trip, lemma_be24_round_trip,
    lemma_be32_round_trip, lemma_bits_round_trip, put_be16, put_be24, put_be32, read_be16,
    read_be24, read_be32, read_bits, splice, with_bits, write_be16, write_be24, write_be32,
    write_bits, write_bytes,
};
use crate::rtcp::{classify_rtcp, rtcp_code, RtcpType};
use vstd::prelude::*;
use vstd::slice::slice_to_vec;

verus! {

/// The fields of an RTCP sender report, owned.
///
/// Its body is a [`SenderInfo`] followed by `rx_report_count` [`ReportBlock`]s.
#[derive(Clone, Debug, PartialEq, Eq)]
pub struct SenderReport {
    /// RTP version. Should be `2`.
    pub version: u8,

    /// Set when the packet ends in padding octets that are not part of the
    /// payload but are counted in `pkt_length`; the last of them counts the
    /// padding, itself included.
    pub padding: u8,

    /// Number of [`ReportBlock`]s that follow the [`SenderInfo`]. May be `0`.
    pub rx_report_count: u8,

    /// Should be [`RtcpType::SenderReport`].
    pub packet_type: RtcpType,

    /// Length of this RTCP packet in 32-bit words, minus one, header and
    /// padding included. `0` is valid within compound RTCP packets.
    pub pkt_length: u16,

    /// SSRC of the source of this packet.
    pub ssrc: u32,

    /// Bytes of the RTCP body.
    pub payload: Vec<u8>,
}

/// The fields of an RTCP receiver report, owned.
///
/// Its body is `rx_report_count` [`ReportBlock`]s.
#[derive(Clone, Debug, PartialEq, Eq)]
pub struct ReceiverReport {
    /// RTP version. Should be `2`.
    pub version: u8,

    /// Set when the packet ends in padding octets that are not part of the
    /// payload but are counted in `pkt_length`; the last of them counts the
    /// padding, itself included.
    pub padding: u8,

    /// Number of [`ReportBlock`]s in the body. May be `0`.
    pub rx_report_count: u8,

    /// Should be [`RtcpType::ReceiverReport`].
    pub packet_type: RtcpType,

    /// Length of this RTCP packet in 32-bit words, minus one, header and
    /// padding included. `0` is valid within compound RTCP packets.
    pub pkt_length: u16,

    /// SSRC of the source of this packet.
    pub ssrc: u32,

    /// Bytes of the RTCP body.
    pub payload: Vec<u8>,
}

/// The sender information block of a [`SenderReport`], owned.
#[derive(Clone, Debug, PartialEq, Eq)]
pub struct SenderInfo {
    /// Wallclock time at which this report was sent: whole seconds.
    pub ntp_timestamp_second: u32,

    /// Wallclock time at which this report was sent: fraction of a second.
    pub ntp_timestamp_fraction: u32,

    /// The same instant in the units and offset of the RTP timestamps.
    pub rtp_timestamp: u32,

    /// Packets sent by this sender since the session began.
    pub pkt_count: u32,

    /// Payload octets sent by this sender since the session began.
    pub byte_count: u32,

    /// The rest of the packet.
    pub payload: Vec<u8>,
}

/// A reception report block of a [`SenderReport`] or [`ReceiverReport`], owned.
#[derive(Clone, Debug, PartialEq, Eq)]
pub struct ReportBlock {
    /// SSRC of the stream that this block reports on.
    pub ssrc: u32,

    /// Fraction of packets lost, as `n / 256`.
    pub fraction_lost: u8,

    /// Packets from this source lost since reception began.
    pub cumulative_pkts_lost: u32,

    /// How often the sequence number of the source has wrapped: the high
    /// half of the extended highest sequence number received.
    pub cycles: u16,

    /// Highest sequence number received from the source: the low half of
    /// the extended highest sequence number received.
    pub sequence: u16,

    /// Estimated variance of the interarrival times of RTP packets.
    pub interarrival_jitter: u32,

    /// Middle 32 bits of the NTP timestamp of the last sender report from
    /// this source; `0` when none was received.
    pub last_sr_timestamp: u32,

    /// Delay since that sender report was received, in units of 1/65536
    /// second; `0` when none was received.
    pub last_sr_delay: u32,

    /// The rest of the packet.
    pub payload: Vec<u8>,
}

/// `r` holds the fields that `b` encodes as an RTCP sender report.
pub open spec fn sender_report_fields(r: SenderReport, b: Seq<u8>) -> bool {
    &&& r.version == bits_of(b[0], 6, 3)
    &&& r.padding == bits_of(b[0], 5, 1)
    &&& r.rx_report_count == bits_of(b[0], 0, 0x1f)
    &&& r.packet_type == classify_rtcp(b[1])
    &&& r.pkt_length == be16(b, 2)
    &&& r.ssrc == be32(b, 4)
    &&& r.payload@ == b.subrange(8, b.len() as int)
}

/// `r` holds the fields that `b` encodes as an RTCP receiver report.
pub open spec fn receiver_report_fields(r: ReceiverReport, b: Seq<u8>) -> bool {
    &&& r.version == bits_of(b[0], 6, 3)
    &&& r.padding == bits_of(b[0], 5, 1)
    &&& r.rx_report_count == bits_of(b[0], 0, 0x1f)
    &&& r.packet_type == classify_rtcp(b[1])
    &&& r.pkt_length == be16(b, 2)
    &&& r.ssrc == be32(b, 4)
    &&& r.payload@ == b.subrange(8, b.len() as int)
}

/// `r` holds the fields that `b` encodes as the sender information block of a sender report.
pub open spec fn sender_info_fields(r: SenderInfo, b: Seq<u8>) -> bool {
    &&& r.ntp_timestamp_second == be32(b, 0)
    &&& r.ntp_timestamp_fraction == be32(b, 4)
    &&& r.rtp_timestamp == be32(b, 8)
    &&& r.pkt_count == be32(b, 12)
    &&& r.byte_count == be32(b, 16)
    &&& r.payload@ == b.subrange(20, b.len() as int)
}

/// `r` holds the fields that `b` encodes as a reception report block.
pub open spec fn report_block_fields(r: ReportBlock, b: Seq<u8>) -> bool {
    &&& r.ssrc == be32(b, 0)
    &&& r.fraction_lost == b[4]
    &&& r.cumulative_pkts_lost == be24(b, 5)
    &&& r.cycles == be16(b, 8)
    &&& r.sequence == be16(b, 10)
    &&& r.interarrival_jitter == be32(b, 12)
    &&& r.last_sr_timestamp == be32(b, 16)
    &&& r.last_sr_delay == be32(b, 20)
    &&& r.payload@ == b.subrange(24, b.len() as int)
}

/// A read-only view of an RTCP sender report over a borrowed buffer.
#[derive(Debug)]
pub struct SenderReportPacket<'p> {
    packet: &'p [u8],
}

/// A mutable view of an RTCP sender report over an exclusively borrowed buffer.
#[derive(Debug)]
pub struct MutableSenderReportPacket<'p> {
    packet: &'p mut [u8],
}

impl<'p> View for SenderReportPacket<'p> {
    type V = Seq<u8>;

    closed spec fn view(&self) -> Seq<u8> {
        self.packet@
    }
}

impl<'p> View for MutableSenderReportPacket<'p> {
    type V = Seq<u8>;

    closed spec fn view(&self) -> Seq<u8> {
        self.packet@
    }
}

impl<'p> SenderReportPacket<'p> {
    #[verifier::type_invariant]
    spec fn inv(&self) -> bool {
        self.packet@.len() >= 8
    }

    /// Views `packet`, or gives `None` when it is shorter than the fixed fields.
    pub fn new(packet: &'p [u8]) -> (r: Option<SenderReportPacket<'p>>)
        ensures
            r is Some <==> packet@.len() >= 8,
            r matches Some(p) ==> p@ == packet@,
    {
        if packet.len() >= 8 {
            Some(SenderReportPacket { packet })
        } else {
            None
        }
    }

    /// The size of the fixed fields, below which no view is made.
    pub fn minimum_packet_size() -> (r: usize)
        ensures
            r == 8,
    {
        8
    }

    /// The whole viewed buffer.
    pub fn packet(&self) -> (r: &'p [u8])
        ensures
            r@ == self@,
    {
        self.packet
    }

    /// The bytes after the last field, up to the end of the buffer.
    pub fn payload(&self) -> (r: &'p [u8])
        ensures
            r@ == self@.subrange(8, self@.len() as int),
    {
        proof {
            use_type_invariant(self);
        }
        let start: usize = 8;
        &self.packet[start..self.packet.len()]
    }

    /// The size of the fields.
    pub fn packet_size(&self) -> (r: usize)
        ensures
            r == 8,
    {
        8
    }

    /// The `version` field; see [`SenderReport::version`].
    pub fn get_version(&self) -> (r: u8)
        ensures
            r == bits_of(self@[0], 6, 3),
    {
        proof {
            use_type_invariant(self);
        }
        read_bits(self.packet[0], 6, 3)
    }

    /// The `padding` field; see [`SenderReport::padding`].
    pub fn get_padding(&self) -> (r: u8)
        ensures
            r == bits_of(self@[0], 5, 1),
    {
        proof {
            use_type_invariant(self);
        }
        read_bits(self.packet[0], 5, 1)
    }

    /// The `rx_report_count` field; see [`SenderReport::rx_report_count`].
    pub fn get_rx_report_count(&self) -> (r: u8)
        ensures
            r == bits_of(self@[0], 0, 0x1f),
    {
        proof {
            use_type_invariant(self);
        }
        read_bits(self.packet[0], 0, 0x1f)
    }

    /// The `packet_type` field; see [`SenderReport::packet_type`].
    pub fn get_packet_type(&self) -> (r: RtcpType)
        ensures
            r == classify_rtcp(self@[1]),
    {
        proof {
            use_type_invariant(self);
        }
        RtcpType::new(self.packet[1])
    }

    /// The `pkt_length` field; see [`SenderReport::pkt_length`].
    pub fn get_pkt_length(&self) -> (r: u16)
        ensures
            r == be16(self@, 2),
    {
        proof {
            use_type_invariant(self);
        }
        read_be16(self.packet, 2)
    }

    /// The `ssrc` field; see [`SenderReport::ssrc`].
    pub fn get_ssrc(&self) -> (r: u32)
        ensures
            r == be32(self@, 4),
    {
        proof {
            use_type_invariant(self);
        }
        read_be32(self.packet, 4)
    }

    /// An owned copy of every field.
    pub fn from_packet(&self) -> (r: SenderReport)
        ensures
            sender_report_fields(r, self@),
    {
        SenderReport {
            version: self.get_version(),
            padding: self.get_padding(),
            rx_report_count: self.get_rx_report_count(),
            packet_type: self.get_packet_type(),
            pkt_length: self.get_pkt_length(),
            ssrc: self.get_ssrc(),
            payload: slice_to_vec(self.payload()),
        }
    }
}

impl<'p> MutableSenderReportPacket<'p> {
    #[verifier::type_invariant]
    spec fn inv(&self) -> bool {
        self.packet@.len() >= 8
    }

    /// Views `packet` for writing, or gives `None` when it is shorter than the fixed fields.
    pub fn new(packet: &'p mut [u8]) -> (r: Option<MutableSenderReportPacket<'p>>)
        ensures
            r is Some <==> old(packet)@.len() >= 8,
            r matches Some(p) ==> p@ == old(packet)@,
    {
        if packet.len() >= 8 {
            Some(MutableSenderReportPacket { packet })
        } else {
            None
        }
    }

    /// The size of the fixed fields, below which no view is made.
    pub fn minimum_packet_size() -> (r: usize)
        ensures
            r == 8,
    {
        8
    }

    /// A read-only view of the same bytes.
    pub fn to_immutable(&self) -> (r: SenderReportPacket<'_>)
        ensures
            r@ == self@,
    {
        proof {
            use_type_invariant(self);
        }
        SenderReportPacket { packet: &*self.packet }
    }

    /// The whole viewed buffer.
    pub fn packet(&self) -> (r: &[u8])
        ensures
            r@ == self@,
    {
        &*self.packet
    }

    /// The bytes after the last field, up to the end of the buffer.
    pub fn payload(&self) -> (r: &[u8])
        ensures
            r@ == self@.subrange(8, self@.len() as int),
    {
        let p = self.to_immutable();
        p.payload()
    }

    /// The size of the fields.
    pub fn packet_size(&self) -> (r: usize)
        ensures
            r == 8,
    {
        self.to_immutable().packet_size()
    }

    /// The `version` field; see [`SenderReport::version`].
    pub fn get_version(&self) -> (r: u8)
        ensures
            r == bits_of(self@[0], 6, 3),
    {
        self.to_immutable().get_version()
    }

    /// The `padding` field; see [`SenderReport::padding`].
    pub fn get_padding(&self) -> (r: u8)
        ensures
            r == bits_of(self@[0], 5, 1),
    {
        self.to_immutable().get_padding()
    }

    /// The `rx_report_count` field; see [`SenderReport::rx_report_count`].
    pub fn get_rx_report_count(&self) -> (r: u8)
        ensures
            r == bits_of(self@[0], 0, 0x1f),
    {
        self.to_immutable().get_rx_report_count()
    }

    /// The `packet_type` field; see [`SenderReport::packet_type`].
    pub fn get_packet_type(&self) -> (r: RtcpType)
        ensures
            r == classify_rtcp(self@[1]),
    {
        self.to_immutable().get_packet_type()
    }

    /// The `pkt_length` field; see [`SenderReport::pkt_length`].
    pub fn get_pkt_length(&self) -> (r: u16)
        ensures
            r == be16(self@, 2),
    {
        self.to_immutable().get_pkt_length()
    }

    /// The `ssrc` field; see [`SenderReport::ssrc`].
    pub fn get_ssrc(&self) -> (r: u32)
        ensures
            r == be32(self@, 4),
    {
        self.to_immutable().get_ssrc()
    }

    /// An owned copy of every field.
    pub fn from_packet(&self) -> (r: SenderReport)
        ensures
            sender_report_fields(r, self@),
    {
        self.to_immutable().from_packet()
    }

    /// Writes the low bits of `val` to the `version` field.
    pub fn set_version(&mut self, val: u8)
        ensures
            final(self)@ == old(self)@.update(0, with_bits(old(self)@[0], 6, 3, val)),
    {
        proof {
            use_type_invariant(&*self);
        }
        let byte: u8 = write_bits(self.packet[0], 6, 3, val);
        self.packet[0] = byte;
    }

    /// Writes the low bits of `val` to the `padding` field.
    pub fn set_padding(&mut self, val: u8)
        ensures
            final(self)@ == old(self)@.update(0, with_bits(old(self)@[0], 5, 1, val)),
    {
        proof {
            use_type_invariant(&*self);
        }
        let byte: u8 = write_bits(self.packet[0], 5, 1, val);
        self.packet[0] = byte;
    }

    /// Writes the low bits of `val` to the `rx_report_count` field.
    pub fn set_rx_report_count(&mut self, val: u8)
        ensures
            final(self)@ == old(self)@.update(0, with_bits(old(self)@[0], 0, 0x1f, val)),
    {
        proof {
            use_type_invariant(&*self);
        }
        let byte: u8 = write_bits(self.packet[0], 0, 0x1f, val);
        self.packet[0] = byte;
    }

    /// Writes the code of `val` to the `packet_type` field.
    pub fn set_packet_type(&mut self, val: RtcpType)
        ensures
            final(self)@ == old(self)@.update(1, rtcp_code(val)),
    {
        proof {
            use_type_invariant(&*self);
        }
        self.packet[1] = val.to_primitive_values().0;
    }

    /// Writes `val` to the `pkt_length` field.
    pub fn set_pkt_length(&mut self, val: u16)
        ensures
            final(self)@ == put_be16(old(self)@, 2, val as int),
    {
        proof {
            use_type_invariant(&*self);
        }
        write_be16(self.packet, 2, val);
    }

    /// Writes `val` to the `ssrc` field.
    pub fn set_ssrc(&mut self, val: u32)
        ensures
            final(self)@ == put_be32(old(self)@, 4, val as int),
    {
        proof {
            use_type_invariant(&*self);
        }
        write_be32(self.packet, 4, val);
    }

    /// Copies `vals` over the start of the payload, which must hold them.
    pub fn set_payload(&mut self, vals: &[u8])
        requires
            8 + vals@.len() <= old(self)@.len(),
        ensures
            final(self)@ == splice(old(self)@, 8, vals@),
    {
        proof {
            use_type_invariant(&*self);
        }
        let start: usize = self.packet_size();
        let n: usize = vals.len();
        write_bytes(self.packet, start, vals, n);
    }
}

/// A read-only view of an RTCP receiver report over a borrowed buffer.
#[derive(Debug)]
pub struct ReceiverReportPacket<'p> {
    packet: &'p [u8],
}

/// A mutable view of an RTCP receiver report over an exclusively borrowed buffer.
#[derive(Debug)]
pub struct MutableReceiverReportPacket<'p> {
    packet: &'p mut [u8],
}

impl<'p> View for ReceiverReportPacket<'p> {
    type V = Seq<u8>;

    closed spec fn view(&self) -> Seq<u8> {
        self.packet@
    }
}

impl<'p> View for MutableReceiverReportPacket<'p> {
    type V = Seq<u8>;

    closed spec fn view(&self) -> Seq<u8> {
        self.packet@
    }
}

impl<'p> ReceiverReportPacket<'p> {
    #[verifier::type_invariant]
    spec fn inv(&self) -> bool {
        self.packet@.len() >= 8
    }

    /// Views `packet`, or gives `None` when it is shorter than the fixed fields.
    pub fn new(packet: &'p [u8]) -> (r: Option<ReceiverReportPacket<'p>>)
        ensures
            r is Some <==> packet@.len() >= 8,
            r matches Some(p) ==> p@ == packet@,
    {
        if packet.len() >= 8 {
            Some(ReceiverReportPacket { packet })
        } else {
            None
        }
    }

    /// The size of the fixed fields, below which no view is made.
    pub fn minimum_packet_size() -> (r: usize)
        ensures
            r == 8,
    {
        8
    }

    /// The whole viewed buffer.
    pub fn packet(&self) -> (r: &'p [u8])
        ensures
            r@ == self@,
    {
        self.packet
    }

    /// The bytes after the last field, up to the end of the buffer.
    pub fn payload(&self) -> (r: &'p [u8])
        ensures
            r@ == self@.subrange(8, self@.len() as int),
    {
        proof {
            use_type_invariant(self);
        }
        let start: usize = 8;
        &self.packet[start..self.packet.len()]
    }

    /// The size of the fields.
    pub fn packet_size(&self) -> (r: usize)
        ensures
            r == 8,
    {
        8
    }

    /// The `version` field; see [`ReceiverReport::version`].
    pub fn get_version(&self) -> (r: u8)
        ensures
            r == bits_of(self@[0], 6, 3),
    {
        proof {
            use_type_invariant(self);
        }
        read_bits(self.packet[0], 6, 3)
    }

    /// The `padding` field; see [`ReceiverReport::padding`].
    pub fn get_padding(&self) -> (r: u8)
        ensures
            r == bits_of(self@[0], 5, 1),
    {
        proof {
            use_type_invariant(self);
        }
        read_bits(self.packet[0], 5, 1)
    }

    /// The `rx_report_count` field; see [`ReceiverReport::rx_report_count`].
    pub fn get_rx_report_count(&self) -> (r: u8)
        ensures
            r == bits_of(self@[0], 0, 0x1f),
    {
        proof {
            use_type_invariant(self);
        }
        read_bits(self.packet[0], 0, 0x1f)
    }

    /// The `packet_type` field; see [`ReceiverReport::packet_type`].
    pub fn get_packet_type(&self) -> (r: RtcpType)
        ensures
            r == classify_rtcp(self@[1]),
    {
        proof {
            use_type_invariant(self);
        }
        RtcpType::new(self.packet[1])
    }

    /// The `pkt_length` field; see [`ReceiverReport::pkt_length`].
    pub fn get_pkt_length(&self) -> (r: u16)
        ensures
            r == be16(self@, 2),
    {
        proof {
            use_type_invariant(self);
        }
        read_be16(self.packet, 2)
    }

    /// The `ssrc` field; see [`ReceiverReport::ssrc`].
    pub fn get_ssrc(&self) -> (r: u32)
        ensures
            r == be32(self@, 4),
    {
        proof {
            use_type_invariant(self);
        }
        read_be32(self.packet, 4)
    }

    /// An owned copy of every field.
    pub fn from_packet(&self) -> (r: ReceiverReport)
        ensures
            receiver_report_fields(r, self@),
    {
        ReceiverReport {
            version: self.get_version(),
            padding: self.get_padding(),
            rx_report_count: self.get_rx_report_count(),
            packet_type: self.get_packet_type(),
            pkt_length: self.get_pkt_length(),
            ssrc: self.get_ssrc(),
            payload: slice_to_vec(self.payload()),
        }
    }
}

impl<'p> MutableReceiverReportPacket<'p> {
    #[verifier::type_invariant]
    spec fn inv(&self) -> bool {
        self.packet@.len() >= 8
    }

    /// Views `packet` for writing, or gives `None` when it is shorter than the fixed fields.
    pub fn new(packet: &'p mut [u8]) -> (r: Option<MutableReceiverReportPacket<'p>>)
        ensures
            r is Some <==> old(packet)@.len() >= 8,
            r matches Some(p) ==> p@ == old(packet)@,
    {
        if packet.len() >= 8 {
            Some(MutableReceiverReportPacket { packet })
        } else {
            None
        }
    }

    /// The size of the fixed fields, below which no view is made.
    pub fn minimum_packet_size() -> (r: usize)
        ensures
            r == 8,
    {
        8
    }

    /// A read-only view of the same bytes.
    pub fn to_immutable(&self) -> (r: ReceiverReportPacket<'_>)
        ensures
            r@ == self@,
    {
        proof {
            use_type_invariant(self);
        }
        ReceiverReportPacket { packet: &*self.packet }
    }

    /// The whole viewed buffer.
    pub fn packet(&self) -> (r: &[u8])
        ensures
            r@ == self@,
    {
        &*self.packet
    }

    /// The bytes after the last field, up to the end of the buffer.
    pub fn payload(&self) -> (r: &[u8])
        ensures
            r@ == self@.subrange(8, self@.len() as int),
    {
        let p = self.to_immutable();
        p.payload()
    }

    /// The size of the fields.
    pub fn packet_size(&self) -> (r: usize)
        ensures
            r == 8,
    {
        self.to_immutable().packet_size()
    }

    /// The `version` field; see [`ReceiverReport::version`].
    pub fn get_version(&self) -> (r: u8)
        ensures
            r == bits_of(self@[0], 6, 3),
    {
        self.to_immutable().get_version()
    }

    /// The `padding` field; see [`ReceiverReport::padding`].
    pub fn get_padding(&self) -> (r: u8)
        ensures
            r == bits_of(self@[0], 5, 1),
    {
        self.to_immutable().get_padding()
    }

    /// The `rx_report_count` field; see [`ReceiverReport::rx_report_count`].
    pub fn get_rx_report_count(&self) -> (r: u8)
        ensures
            r == bits_of(self@[0], 0, 0x1f),
    {
        self.to_immutable().get_rx_report_count()
    }

    /// The `packet_type` field; see [`ReceiverReport::packet_type`].
    pub fn get_packet_type(&self) -> (r: RtcpType)
        ensures
            r == classify_rtcp(self@[1]),
    {
        self.to_immutable().get_packet_type()
    }

    /// The `pkt_length` field; see [`ReceiverReport::pkt_length`].
    pub fn get_pkt_length(&self) -> (r: u16)
        ensures
            r == be16(self@, 2),
    {
        self.to_immutable().get_pkt_length()
    }

    /// The `ssrc` field; see [`ReceiverReport::ssrc`].
    pub fn get_ssrc(&self) -> (r: u32)
        ensures
            r == be32(self@, 4),
    {
        self.to_immutable().get_ssrc()
    }

    /// An owned copy of every field.
    pub fn from_packet(&self) -> (r: ReceiverReport)
        ensures
            receiver_report_fields(r, self@),
    {
        self.to_immutable().from_packet()
    }

    /// Writes the low bits of `val` to the `version` field.
    pub fn set_version(&mut self, val: u8)
        ensures
            final(self)@ == old(self)@.update(0, with_bits(old(self)@[0], 6, 3, val)),
    {
        proof {
            use_type_invariant(&*self);
        }
        let byte: u8 = write_bits(self.packet[0], 6, 3, val);
        self.packet[0] = byte;
    }

    /// Writes the low bits of `val` to the `padding` field.
    pub fn set_padding(&mut self, val: u8)
        ensures
            final(self)@ == old(self)@.update(0, with_bits(old(self)@[0], 5, 1, val)),
    {
        proof {
            use_type_invariant(&*self);
        }
        let byte: u8 = write_bits(self.packet[0], 5, 1, val);
        self.packet[0] = byte;
    }

    /// Writes the low bits of `val` to the `rx_report_count` field.
    pub fn set_rx_report_count(&mut self, val: u8)
        ensures
            final(self)@ == old(self)@.update(0, with_bits(old(self)@[0], 0, 0x1f, val)),
    {
        proof {
            use_type_invariant(&*self);
        }
        let byte: u8 = write_bits(self.packet[0], 0, 0x1f, val);
        self.packet[0] = byte;
    }

    /// Writes the code of `val` to the `packet_type` field.
    pub fn set_packet_type(&mut self, val: RtcpType)
        ensures
            final(self)@ == old(self)@.update(1, rtcp_code(val)),
    {
        proof {
            use_type_invariant(&*self);
        }
        self.packet[1] = val.to_primitive_values().0;
    }

    /// Writes `val` to the `pkt_length` field.
    pub fn set_pkt_length(&mut self, val: u16)
        ensures
            final(self)@ == put_be16(old(self)@, 2, val as int),
    {
        proof {
            use_type_invariant(&*self);
        }
        write_be16(self.packet, 2, val);
    }

    /// Writes `val` to the `ssrc` field.
    pub fn set_ssrc(&mut self, val: u32)
        ensures
            final(self)@ == put_be32(old(self)@, 4, val as int),
    {
        proof {
            use_type_invariant(&*self);
        }
        write_be32(self.packet, 4, val);
    }

    /// Copies `vals` over the start of the payload, which must hold them.
    pub fn set_payload(&mut self, vals: &[u8])
        requires
            8 + vals@.len() <= old(self)@.len(),
        ensures
            final(self)@ == splice(old(self)@, 8, vals@),
    {
        proof {
            use_type_invariant(&*self);
        }
        let start: usize = self.packet_size();
        let n: usize = vals.len();
        write_bytes(self.packet, start, vals, n);
    }
}

/// A read-only view of the sender information block of a sender report over a borrowed buffer.
#[derive(Debug)]
pub struct SenderInfoPacket<'p> {
    packet: &'p [u8],
}

/// A mutable view of the sender information block of a sender report over an exclusively borrowed buffer.
#[derive(Debug)]
pub struct MutableSenderInfoPacket<'p> {
    packet: &'p mut [u8],
}

impl<'p> View for SenderInfoPacket<'p> {
    type V = Seq<u8>;

    closed spec fn view(&self) -> Seq<u8> {
        self.packet@
    }
}

impl<'p> View for MutableSenderInfoPacket<'p> {
    type V = Seq<u8>;

    closed spec fn view(&self) -> Seq<u8> {
        self.packet@
    }
}

impl<'p> SenderInfoPacket<'p> {
    #[verifier::type_invariant]
    spec fn inv(&self) -> bool {
        self.packet@.len() >= 20
    }

    /// Views `packet`, or gives `None` when it is shorter than the fixed fields.
    pub fn new(packet: &'p [u8]) -> (r: Option<SenderInfoPacket<'p>>)
        ensures
            r is Some <==> packet@.len() >= 20,
            r matches Some(p) ==> p@ == packet@,
    {
        if packet.len() >= 20 {
            Some(SenderInfoPacket { packet })
        } else {
            None
        }
    }

    /// The size of the fixed fields, below which no view is made.
    pub fn minimum_packet_size() -> (r: usize)
        ensures
            r == 20,
    {
        20
    }

    /// The whole viewed buffer.
    pub fn packet(&self) -> (r: &'p [u8])
        ensures
            r@ == self@,
    {
        self.packet
    }

    /// The bytes after the last field, up to the end of the buffer.
    pub fn payload(&self) -> (r: &'p [u8])
        ensures
            r@ == self@.subrange(20, self@.len() as int),
    {
        proof {
            use_type_invariant(self);
        }
        let start: usize = 20;
        &self.packet[start..self.packet.len()]
    }

    /// The size of the fields.
    pub fn packet_size(&self) -> (r: usize)
        ensures
            r == 20,
    {
        20
    }

    /// The `ntp_timestamp_second` field; see [`SenderInfo::ntp_timestamp_second`].
    pub fn get_ntp_timestamp_second(&self) -> (r: u32)
        ensures
            r == be32(self@, 0),
    {
        proof {
            use_type_invariant(self);
        }
        read_be32(self.packet, 0)
    }

    /// The `ntp_timestamp_fraction` field; see [`SenderInfo::ntp_timestamp_fraction`].
    pub fn get_ntp_timestamp_fraction(&self) -> (r: u32)
        ensures
            r == be32(self@, 4),
    {
        proof {
            use_type_invariant(self);
        }
        read_be32(self.packet, 4)
    }

    /// The `rtp_timestamp` field; see [`SenderInfo::rtp_timestamp`].
    pub fn get_rtp_timestamp(&self) -> (r: u32)
        ensures
            r == be32(self@, 8),
    {
        proof {
            use_type_invariant(self);
        }
        read_be32(self.packet, 8)
    }

    /// The `pkt_count` field; see [`SenderInfo::pkt_count`].
    pub fn get_pkt_count(&self) -> (r: u32)
        ensures
            r == be32(self@, 12),
    {
        proof {
            use_type_invariant(self);
        }
        read_be32(self.packet, 12)
    }

    /// The `byte_count` field; see [`SenderInfo::byte_count`].
    pub fn get_byte_count(&self) -> (r: u32)
        ensures
            r == be32(self@, 16),
    {
        proof {
            use_type_invariant(self);
        }
        read_be32(self.packet, 16)
    }

    /// An owned copy of every field.
    pub fn from_packet(&self) -> (r: SenderInfo)
        ensures
            sender_info_fields(r, self@),
    {
        SenderInfo {
            ntp_timestamp_second: self.get_ntp_timestamp_second(),
            ntp_timestamp_fraction: self.get_ntp_timestamp_fraction(),
            rtp_timestamp: self.get_rtp_timestamp(),
            pkt_count: self.get_pkt_count(),
            byte_count: self.get_byte_count(),
            payload: slice_to_vec(self.payload()),
        }
    }
}

impl<'p> MutableSenderInfoPacket<'p> {
    #[verifier::type_invariant]
    spec fn inv(&self) -> bool {
        self.packet@.len() >= 20
    }

    /// Views `packet` for writing, or gives `None` when it is shorter than the fixed fields.
    pub fn new(packet: &'p mut [u8]) -> (r: Option<MutableSenderInfoPacket<'p>>)
        ensures
            r is Some <==> old(packet)@.len() >= 20,
            r matches Some(p) ==> p@ == old(packet)@,
    {
        if packet.len() >= 20 {
            Some(MutableSenderInfoPacket { packet })
        } else {
            None
        }
    }

    /// The size of the fixed fields, below which no view is made.
    pub fn minimum_packet_size() -> (r: usize)
        ensures
            r == 20,
    {
        20
    }

    /// A read-only view of the same bytes.
    pub fn to_immutable(&self) -> (r: SenderInfoPacket<'_>)
        ensures
            r@ == self@,
    {
        proof {
            use_type_invariant(self);
        }
        SenderInfoPacket { packet: &*self.packet }
    }

    /// The whole viewed buffer.
    pub fn packet(&self) -> (r: &[u8])
        ensures
            r@ == self@,
    {
        &*self.packet
    }

    /// The bytes after the last field, up to the end of the buffer.
    pub fn payload(&self) -> (r: &[u8])
        ensures
            r@ == self@.subrange(20, self@.len() as int),
    {
        let p = self.to_immutable();
        p.payload()
    }

    /// The size of the fields.
    pub fn packet_size(&self) -> (r: usize)
        ensures
            r == 20,
    {
        self.to_immutable().packet_size()
    }

    /// The `ntp_timestamp_second` field; see [`SenderInfo::ntp_timestamp_second`].
    pub fn get_ntp_timestamp_second(&self) -> (r: u32)
        ensures
            r == be32(self@, 0),
    {
        self.to_immutable().get_ntp_timestamp_second()
    }

    /// The `ntp_timestamp_fraction` field; see [`SenderInfo::ntp_timestamp_fraction`].
    pub fn get_ntp_timestamp_fraction(&self) -> (r: u32)
        ensures
            r == be32(self@, 4),
    {
        self.to_immutable().get_ntp_timestamp_fraction()
    }

    /// The `rtp_timestamp` field; see [`SenderInfo::rtp_timestamp`].
    pub fn get_rtp_timestamp(&self) -> (r: u32)
        ensures
            r == be32(self@, 8),
    {
        self.to_immutable().get_rtp_timestamp()
    }

    /// The `pkt_count` field; see [`SenderInfo::pkt_count`].
    pub fn get_pkt_count(&self) -> (r: u32)
        ensures
            r == be32(self@, 12),
    {
        self.to_immutable().get_pkt_count()
    }

    /// The `byte_count` field; see [`SenderInfo::byte_count`].
    pub fn get_byte_count(&self) -> (r: u32)
        ensures
            r == be32(self@, 16),
    {
        self.to_immutable().get_byte_count()
    }

    /// An owned copy of every field.
    pub fn from_packet(&self) -> (r: SenderInfo)
        ensures
            sender_info_fields(r, self@),
    {
        self.to_immutable().from_packet()
    }

    /// Writes `val` to the `ntp_timestamp_second` field.
    pub fn set_ntp_timestamp_second(&mut self, val: u32)
        ensures
            final(self)@ == put_be32(old(self)@, 0, val as int),
    {
        proof {
            use_type_invariant(&*self);
        }
        write_be32(self.packet, 0, val);
    }

    /// Writes `val` to the `ntp_timestamp_fraction` field.
    pub fn set_ntp_timestamp_fraction(&mut self, val: u32)
        ensures
            final(self)@ == put_be32(old(self)@, 4, val as int),
    {
        proof {
            use_type_invariant(&*self);
        }
        write_be32(self.packet, 4, val);
    }

    /// Writes `val` to the `rtp_timestamp` field.
    pub fn set_rtp_timestamp(&mut self, val: u32)
        ensures
            final(self)@ == put_be32(old(self)@, 8, val as int),
    {
        proof {
            use_type_invariant(&*self);
        }
        write_be32(self.packet, 8, val);
    }

    /// Writes `val` to the `pkt_count` field.
    pub fn set_pkt_count(&mut self, val: u32)
        ensures
            final(self)@ == put_be32(old(self)@, 12, val as int),
    {
        proof {
            use_type_invariant(&*self);
        }
        write_be32(self.packet, 12, val);
    }

    /// Writes `val` to the `byte_count` field.
    pub fn set_byte_count(&mut self, val: u32)
        ensures
            final(self)@ == put_be32(old(self)@, 16, val as int),
    {
        proof {
            use_type_invariant(&*self);
        }
        write_be32(self.packet, 16, val);
    }

    /// Copies `vals` over the start of the payload, which must hold them.
    pub fn set_payload(&mut self, vals: &[u8])
        requires
            20 + vals@.len() <= old(self)@.len(),
        ensures
            final(self)@ == splice(old(self)@, 20, vals@),
    {
        proof {
            use_type_invariant(&*self);
        }
        let start: usize = self.packet_size();
        let n: usize = vals.len();
        write_bytes(self.packet, start, vals, n);
    }
}

/// A read-only view of a reception report block over a borrowed buffer.
#[derive(Debug)]
pub struct ReportBlockPacket<'p> {
    packet: &'p [u8],
}

/// A mutable view of a reception report block over an exclusively borrowed buffer.
#[derive(Debug)]
pub struct MutableReportBlockPacket<'p> {
    packet: &'p mut [u8],
}

impl<'p> View for ReportBlockPacket<'p> {
    type V = Seq<u8>;

    closed spec fn view(&self) -> Seq<u8> {
        self.packet@
    }
}

impl<'p> View for MutableReportBlockPacket<'p> {
    type V = Seq<u8>;

    closed spec fn view(&self) -> Seq<u8> {
        self.packet@
    }
}

impl<'p> ReportBlockPacket<'p> {
    #[verifier::type_invariant]
    spec fn inv(&self) -> bool {
        self.packet@.len() >= 24
    }

    /// Views `packet`, or gives `None` when it is shorter than the fixed fields.
    pub fn new(packet: &'p [u8]) -> (r: Option<ReportBlockPacket<'p>>)
        ensures
            r is Some <==> packet@.len() >= 24,
            r matches Some(p) ==> p@ == packet@,
    {
        if packet.len() >= 24 {
            Some(ReportBlockPacket { packet })
        } else {
            None
        }
    }

    /// The size of the fixed fields, below which no view is made.
    pub fn minimum_packet_size() -> (r: usize)
        ensures
            r == 24,
    {
        24
    }

    /// The whole viewed buffer.
    pub fn packet(&self) -> (r: &'p [u8])
        ensures
            r@ == self@,
    {
        self.packet
    }

    /// The bytes after the last field, up to the end of the buffer.
    pub fn payload(&self) -> (r: &'p [u8])
        ensures
            r@ == self@.subrange(24, self@.len() as int),
    {
        proof {
            use_type_invariant(self);
        }
        let start: usize = 24;
        &self.packet[start..self.packet.len()]
    }

    /// The size of the fields.
    pub fn packet_size(&self) -> (r: usize)
        ensures
            r == 24,
    {
        24
    }

    /// The `ssrc` field; see [`ReportBlock::ssrc`].
    pub fn get_ssrc(&self) -> (r: u32)
        ensures
            r == be32(self@, 0),
    {
        proof {
            use_type_invariant(self);
        }
        read_be32(self.packet, 0)
    }

    /// The `fraction_lost` field; see [`ReportBlock::fraction_lost`].
    pub fn get_fraction_lost(&self) -> (r: u8)
        ensures
            r == self@[4],
    {
        proof {
            use_type_invariant(self);
        }
        self.packet[4]
    }

    /// The `cumulative_pkts_lost` field; see [`ReportBlock::cumulative_pkts_lost`].
    pub fn get_cumulative_pkts_lost(&self) -> (r: u32)
        ensures
            r == be24(self@, 5),
    {
        proof {
            use_type_invariant(self);
        }
        read_be24(self.packet, 5)
    }

    /// The `cycles` field; see [`ReportBlock::cycles`].
    pub fn get_cycles(&self) -> (r: u16)
        ensures
            r == be16(self@, 8),
    {
        proof {
            use_type_invariant(self);
        }
        read_be16(self.packet, 8)
    }

    /// The `sequence` field; see [`ReportBlock::sequence`].
    pub fn get_sequence(&self) -> (r: u16)
        ensures
            r == be16(self@, 10),
    {
        proof {
            use_type_invariant(self);
        }
        read_be16(self.packet, 10)
    }

    /// The `interarrival_jitter` field; see [`ReportBlock::interarrival_jitter`].
    pub fn get_interarrival_jitter(&self) -> (r: u32)
        ensures
            r == be32(self@, 12),
    {
        proof {
            use_type_invariant(self);
        }
        read_be32(self.packet, 12)
    }

    /// The `last_sr_timestamp` field; see [`ReportBlock::last_sr_timestamp`].
    pub fn get_last_sr_timestamp(&self) -> (r: u32)
        ensures
            r == be32(self@, 16),
    {
        proof {
            use_type_invariant(self);
        }
        read_be32(self.packet, 16)
    }

    /// The `last_sr_delay` field; see [`ReportBlock::last_sr_delay`].
    pub fn get_last_sr_delay(&self) -> (r: u32)
        ensures
            r == be32(self@, 20),
    {
        proof {
            use_type_invariant(self);
        }
        read_be32(self.packet, 20)
    }

    /// An owned copy of every field.
    pub fn from_packet(&self) -> (r: ReportBlock)
        ensures
            report_block_fields(r, self@),
    {
        ReportBlock {
            ssrc: self.get_ssrc(),
            fraction_lost: self.get_fraction_lost(),
            cumulative_pkts_lost: self.get_cumulative_pkts_lost(),
            cycles: self.get_cycles(),
            sequence: self.get_sequence(),
            interarrival_jitter: self.get_interarrival_jitter(),
            last_sr_timestamp: self.get_last_sr_timestamp(),
            last_sr_delay: self.get_last_sr_delay(),
            payload: slice_to_vec(self.payload()),
        }
    }
}

impl<'p> MutableReportBlockPacket<'p> {
    #[verifier::type_invariant]
    spec fn inv(&self) -> bool {
        self.packet@.len() >= 24
    }

    /// Views `packet` for writing, or gives `None` when it is shorter than the fixed fields.
    pub fn new(packet: &'p mut [u8]) -> (r: Option<MutableReportBlockPacket<'p>>)
        ensures
            r is Some <==> old(packet)@.len() >= 24,
            r matches Some(p) ==> p@ == old(packet)@,
    {
        if packet.len() >= 24 {
            Some(MutableReportBlockPacket { packet })
        } else {
            None
        }
    }

    /// The size of the fixed fields, below which no view is made.
    pub fn minimum_packet_size() -> (r: usize)
        ensures
            r == 24,
    {
        24
    }

    /// A read-only view of the same bytes.
    pub fn to_immutable(&self) -> (r: ReportBlockPacket<'_>)
        ensures
            r@ == self@,
    {
        proof {
            use_type_invariant(self);
        }
        ReportBlockPacket { packet: &*self.packet }
    }

    /// The whole viewed buffer.
    pub fn packet(&self) -> (r: &[u8])
        ensures
            r@ == self@,
    {
        &*self.packet
    }

    /// The bytes after the last field, up to the end of the buffer.
    pub fn payload(&self) -> (r: &[u8])
        ensures
            r@ == self@.subrange(24, self@.len() as int),
    {
        let p = self.to_immutable();
        p.payload()
    }

    /// The size of the fields.
    pub fn packet_size(&self) -> (r: usize)
        ensures
            r == 24,
    {
        self.to_immutable().packet_size()
    }

    /// The `ssrc` field; see [`ReportBlock::ssrc`].
    pub fn get_ssrc(&self) -> (r: u32)
        ensures
            r == be32(self@, 0),
    {
        self.to_immutable().get_ssrc()
    }

    /// The `fraction_lost` field; see [`ReportBlock::fraction_lost`].
    pub fn get_fraction_lost(&self) -> (r: u8)
        ensures
            r == self@[4],
    {
        self.to_immutable().get_fraction_lost()
    }

    /// The `cumulative_pkts_lost` field; see [`ReportBlock::cumulative_pkts_lost`].
    pub fn get_cumulative_pkts_lost(&self) -> (r: u32)
        ensures
            r == be24(self@, 5),
    {
        self.to_immutable().get_cumulative_pkts_lost()
    }

    /// The `cycles` field; see [`ReportBlock::cycles`].
    pub fn get_cycles(&self) -> (r: u16)
        ensures
            r == be16(self@, 8),
    {
        self.to_immutable().get_cycles()
    }

    /// The `sequence` field; see [`ReportBlock::sequence`].
    pub fn get_sequence(&self) -> (r: u16)
        ensures
            r == be16(self@, 10),
    {
        self.to_immutable().get_sequence()
    }

    /// The `interarrival_jitter` field; see [`ReportBlock::interarrival_jitter`].
    pub fn get_interarrival_jitter(&self) -> (r: u32)
        ensures
            r == be32(self@, 12),
    {
        self.to_immutable().get_interarrival_jitter()
    }

    /// The `last_sr_timestamp` field; see [`ReportBlock::last_sr_timestamp`].
    pub fn get_last_sr_timestamp(&self) -> (r: u32)
        ensures
            r == be32(self@, 16),
    {
        self.to_immutable().get_last_sr_timestamp()
    }

    /// The `last_sr_delay` field; see [`ReportBlock::last_sr_delay`].
    pub fn get_last_sr_delay(&self) -> (r: u32)
        ensures
            r == be32(self@, 20),
    {
        self.to_immutable().get_last_sr_delay()
    }

    /// An owned copy of every field.
    pub fn from_packet(&self) -> (r: ReportBlock)
        ensures
            report_block_fields(r, self@),
    {
        self.to_immutable().from_packet()
    }

    /// Writes `val` to the `ssrc` field.
    pub fn set_ssrc(&mut self, val: u32)
        ensures
            final(self)@ == put_be32(old(self)@, 0, val as int),
    {
        proof {
            use_type_invariant(&*self);
        }
        write_be32(self.packet, 0, val);
    }

    /// Writes `val` to the `fraction_lost` field.
    pub fn set_fraction_lost(&mut self, val: u8)
        ensures
            final(self)@ == old(self)@.update(4, val),
    {
        proof {
            use_type_invariant(&*self);
        }
        self.packet[4] = val;
    }

    /// Writes the low 24 bits of `val` to the `cumulative_pkts_lost` field.
    pub fn set_cumulative_pkts_lost(&mut self, val: u32)
        ensures
            final(self)@ == put_be24(old(self)@, 5, (val % 0x1000000) as int),
    {
        proof {
            use_type_invariant(&*self);
        }
        write_be24(self.packet, 5, val % 0x1000000);
    }

    /// Writes `val` to the `cycles` field.
    pub fn set_cycles(&mut self, val: u16)
        ensures
            final(self)@ == put_be16(old(self)@, 8, val as int),
    {
        proof {
            use_type_invariant(&*self);
        }
        write_be16(self.packet, 8, val);
    }

    /// Writes `val` to the `sequence` field.
    pub fn set_sequence(&mut self, val: u16)
        ensures
            final(self)@ == put_be16(old(self)@, 10, val as int),
    {
        proof {
            use_type_invariant(&*self);
        }
        write_be16(self.packet, 10, val);
    }

    /// Writes `val` to the `interarrival_jitter` field.
    pub fn set_interarrival_jitter(&mut self, val: u32)
        ensures
            final(self)@ == put_be32(old(self)@, 12, val as int),
    {
        proof {
            use_type_invariant(&*self);
        }
        write_be32(self.packet, 12, val);
    }

    /// Writes `val` to the `last_sr_timestamp` field.
    pub fn set_last_sr_timestamp(&mut self, val: u32)
        ensures
            final(self)@ == put_be32(old(self)@, 16, val as int),
    {
        proof {
            use_type_invariant(&*self);
        }
        write_be32(self.packet, 16, val);
    }

    /// Writes `val` to the `last_sr_delay` field.
    pub fn set_last_sr_delay(&mut self, val: u32)
        ensures
            final(self)@ == put_be32(old(self)@, 20, val as int),
    {
        proof {
            use_type_invariant(&*self);
        }
        write_be32(self.packet, 20, val);
    }

    /// Copies `vals` over the start of the payload, which must hold them.
    pub fn set_payload(&mut self, vals: &[u8])
        requires
            24 + vals@.len() <= old(self)@.len(),
        ensures
            final(self)@ == splice(old(self)@, 24, vals@),
    {
        proof {
            use_type_invariant(&*self);
        }
        let start: usize = self.packet_size();
        let n: usize = vals.len();
        write_bytes(self.packet, start, vals, n);
    }
}

/// A value written to a field of an RTCP sender report through a mutable view reads
/// back unchanged from any view of the same bytes (its low bits, for a
/// field of fewer bits than the value has).
pub proof fn lemma_sender_report_write_then_read(
    b: Seq<u8>,
    version: u8,
    padding: u8,
    rx_report_count: u8,
    packet_type: RtcpType,
    pkt_length: u16,
    ssrc: u32,
)
    requires
        b.len() >= 8,
        classify_rtcp(rtcp_code(packet_type)) == packet_type,
    ensures
        bits_of(b.update(0, with_bits(b[0], 6, 3, version))[0], 6, 3) == version & 3,
        bits_of(b.update(0, with_bits(b[0], 5, 1, padding))[0], 5, 1) == padding & 1,
        bits_of(b.update(0, with_bits(b[0], 0, 0x1f, rx_report_count))[0], 0, 0x1f) == rx_report_count & 0x1f,
        classify_rtcp(b.update(1, rtcp_code(packet_type))[1]) == packet_type,
        be16(put_be16(b, 2, pkt_length as int), 2) == pkt_length,
        be32(put_be32(b, 4, ssrc as int), 4) == ssrc,
{
    assert((3u8 << 6u8) >> 6u8 == 3u8) by (bit_vector);
    lemma_bits_round_trip(b[0], 6, 3, version);
    assert((1u8 << 5u8) >> 5u8 == 1u8) by (bit_vector);
    lemma_bits_round_trip(b[0], 5, 1, padding);
    assert((0x1fu8 << 0u8) >> 0u8 == 0x1fu8) by (bit_vector);
    lemma_bits_round_trip(b[0], 0, 0x1f, rx_report_count);
    lemma_be16_round_trip(b, 2, pkt_length);
    lemma_be32_round_trip(b, 4, ssrc);
}

/// A value written to a field of an RTCP receiver report through a mutable view reads
/// back unchanged from any view of the same bytes (its low bits, for a
/// field of fewer bits than the value has).
pub proof fn lemma_receiver_report_write_then_read(
    b: Seq<u8>,
    version: u8,
    padding: u8,
    rx_report_count: u8,
    packet_type: RtcpType,
    pkt_length: u16,
    ssrc: u32,
)
    requires
        b.len() >= 8,
        classify_rtcp(rtcp_code(packet_type)) == packet_type,
    ensures
        bits_of(b.update(0, with_bits(b[0], 6, 3, version))[0], 6, 3) == version & 3,
        bits_of(b.update(0, with_bits(b[0], 5, 1, padding))[0], 5, 1) == padding & 1,
        bits_of(b.update(0, with_bits(b[0], 0, 0x1f, rx_report_count))[0], 0, 0x1f) == rx_report_count & 0x1f,
        classify_rtcp(b.update(1, rtcp_code(packet_type))[1]) == packet_type,
        be16(put_be16(b, 2, pkt_length as int), 2) == pkt_length,
        be32(put_be32(b, 4, ssrc as int), 4) == ssrc,
{
    assert((3u8 << 6u8) >> 6u8 == 3u8) by (bit_vector);
    lemma_bits_round_trip(b[0], 6, 3, version);
    assert((1u8 << 5u8) >> 5u8 == 1u8) by (bit_vector);
    lemma_bits_round_trip(b[0], 5, 1, padding);
    assert((0x1fu8 << 0u8) >> 0u8 == 0x1fu8) by (bit_vector);
    lemma_bits_round_trip(b[0], 0, 0x1f, rx_report_count);
    lemma_be16_round_trip(b, 2, pkt_length);
    lemma_be32_round_trip(b, 4, ssrc);
}

/// A value written to a field of the sender information block of a sender report through a mutable view reads
/// back unchanged from any view of the same bytes (its low bits, for a
/// field of fewer bits than the value has).
pub proof fn lemma_sender_info_write_then_read(
    b: Seq<u8>,
    ntp_timestamp_second: u32,
    ntp_timestamp_fraction: u32,
    rtp_timestamp: u32,
    pkt_count: u32,
    byte_count: u32,
)
    requires
        b.len() >= 20,
    ensures
        be32(put_be32(b, 0, ntp_timestamp_second as int), 0) == ntp_timestamp_second,
        be32(put_be32(b, 4, ntp_timestamp_fraction as int), 4) == ntp_timestamp_fraction,
        be32(put_be32(b, 8, rtp_timestamp as int), 8) == rtp_timestamp,
        be32(put_be32(b, 12, pkt_count as int), 12) == pkt_count,
        be32(put_be32(b, 16, byte_count as int), 16) == byte_count,
{
    lemma_be32_round_trip(b, 0, ntp_timestamp_second);
    lemma_be32_round_trip(b, 4, ntp_timestamp_fraction);
    lemma_be32_round_trip(b, 8, rtp_timestamp);
    lemma_be32_round_trip(b, 12, pkt_count);
    lemma_be32_round_trip(b, 16, byte_count);
}

/// A value written to a field of a reception report block through a mutable view reads
/// back unchanged from any view of the same bytes (its low bits, for a
/// field of fewer bits than the value has).
pub proof fn lemma_report_block_write_then_read(
    b: Seq<u8>,
    ssrc: u32,
    fraction_lost: u8,
    cumulative_pkts_lost: u32,
    cycles: u16,
    sequence: u16,
    interarrival_jitter: u32,
    last_sr_timestamp: u32,
    last_sr_delay: u32,
)
    requires
        b.len() >= 24,
    ensures
        be32(put_be32(b, 0, ssrc as int), 0) == ssrc,
        b.update(4, fraction_lost)[4] == fraction_lost,
        be24(put_be24(b, 5, (cumulative_pkts_lost % 0x1000000) as int), 5) == cumulative_pkts_lost % 0x1000000,
        be16(put_be16(b, 8, cycles as int), 8) == cycles,
        be16(put_be16(b, 10, sequence as int), 10) == sequence,
        be32(put_be32(b, 12, interarrival_jitter as int), 12) == interarrival_jitter,
        be32(put_be32(b, 16, last_sr_timestamp as int), 16) == last_sr_timestamp,
        be32(put_be32(b, 20, last_sr_delay as int), 20) == last_sr_delay,
{
    lemma_be32_round_trip(b, 0, ssrc);
    lemma_be24_round_trip(b, 5, cumulative_pkts_lost % 0x1000000);
    lemma_be16_round_trip(b, 8, cycles);
    lemma_be16_round_trip(b, 10, sequence);
    lemma_be32_round_trip(b, 12, interarrival_jitter);
    lemma_be32_round_trip(b, 16, last_sr_timestamp);
    lemma_be32_round_trip(b, 20, last_sr_delay);
}

} // verus!
