//! Views of RTP packets and RTP header extensions, and RTP payload types.
use crate::bytes::{
    be16, be32, be32_list, bits_of, lemma_be16_round_trip, lemma_be32_round_trip,
    lemma_bits_round_trip, lemma_splice_read_back, put_be16, put_be32, read_be16, read_be32,
    read_be32_list, read_bits, splice, with_bits, write_be16, write_be32, write_be32_list,
    write_bits, write_bytes,
};
use crate::wrap::{Wrap16, Wrap32};
use vstd::prelude::*;
use vstd::slice::slice_to_vec;

verus! {

/// The fields of an RTP packet, owned.
///
/// The fixed header is followed by `csrc_count` CSRC identifiers and then by
/// the payload. A set `extension` bit does not make the payload an
/// [`RtpExtension`]: a caller who wants it views the payload as one.
#[derive(Clone, Debug, PartialEq, Eq)]
pub struct Rtp {
    /// RTP version. Should be `2`.
    pub version: u8,

    /// Set when the packet ends in padding octets that are not part of the
    /// payload; the last of them counts the padding, itself included.
    pub padding: u8,

    /// Set when the fixed header is followed by one [`RtpExtension`].
    pub extension: u8,

    /// Number of CSRC identifiers that follow the fixed header.
    pub csrc_count: u8,

    /// Flag whose meaning the profile gives, e.g. a frame boundary.
    pub marker: u8,

    /// Format of the payload.
    pub payload_type: RtpType,

    /// Rises by one with each packet sent, so that loss and reordering show.
    pub sequence: Wrap16,

    /// Sampling instant of the first octet of the payload.
    pub timestamp: Wrap32,

    /// Synchronisation source: identifies the sender.
    pub ssrc: u32,

    /// Contributing sources, e.g. the speakers mixed into this packet.
    pub csrc_list: Vec<u32>,

    /// Bytes of the RTP body.
    pub payload: Vec<u8>,
}

/// The fields of an RTP header extension, owned.
#[derive(Clone, Debug, PartialEq, Eq)]
pub struct RtpExtension {
    /// Defined by the profile; usually the kind of extension.
    pub info: u16,

    /// Number of 32-bit words in `ext_data`. `0` is valid.
    pub length: u16,

    /// Extension data, defined by the application.
    pub ext_data: Vec<u8>,

    /// The rest of the packet.
    pub payload: Vec<u8>,
}

/// RTP payload types, which name the format of the payload.
///
/// Assigned codes have variants of their own; every other code is kept as it
/// came in a catch-all variant.
#[derive(Copy, Clone, Debug, PartialEq, Eq, Structural)]
#[non_exhaustive]
pub enum RtpType {
    /// Code 0.
    Pcmu,
    /// Code 3.
    Gsm,
    /// Code 4.
    G723,
    /// Codes 5, 6, 16 and 17.
    Dvi4(u8),
    /// Code 7.
    Lpc,
    /// Code 8.
    Pcma,
    /// Code 9.
    G722,
    /// Code 10.
    L16Stereo,
    /// Code 11.
    L16Mono,
    /// Code 12.
    Qcelp,
    /// Code 13.
    Cn,
    /// Code 14.
    Mpa,
    /// Code 15.
    G728,
    /// Code 18.
    G729,
    /// Code 25.
    CelB,
    /// Code 26.
    Jpeg,
    /// Code 28.
    Nv,
    /// Code 31.
    H261,
    /// Code 32.
    Mpv,
    /// Code 33.
    Mp2t,
    /// Code 34.
    H263,
    /// Dynamically assigned payload type (codes 96 to 127).
    Dynamic(u8),
    /// Reserved payload types, kept free to avoid RTCP packet type collisions
    /// (codes 1, 2, 19 and 72 to 76).
    Reserved(u8),
    /// Unassigned payload type (every other code below 128).
    Unassigned(u8),
    /// A code too large for the 7-bit field.
    Illegal(u8),
}

/// The payload type that `code` stands for.
pub open spec fn classify_rtp(code: u8) -> RtpType {
    match code {
        0 => RtpType::Pcmu,
        3 => RtpType::Gsm,
        4 => RtpType::G723,
        5 | 6 | 16 | 17 => RtpType::Dvi4(code),
        7 => RtpType::Lpc,
        8 => RtpType::Pcma,
        9 => RtpType::G722,
        10 => RtpType::L16Stereo,
        11 => RtpType::L16Mono,
        12 => RtpType::Qcelp,
        13 => RtpType::Cn,
        14 => RtpType::Mpa,
        15 => RtpType::G728,
        18 => RtpType::G729,
        25 => RtpType::CelB,
        26 => RtpType::Jpeg,
        28 => RtpType::Nv,
        31 => RtpType::H261,
        32 => RtpType::Mpv,
        33 => RtpType::Mp2t,
        34 => RtpType::H263,
        1 | 2 | 19 => RtpType::Reserved(code),
        _ => if 72 <= code <= 76 {
            RtpType::Reserved(code)
        } else if 96 <= code <= 127 {
            RtpType::Dynamic(code)
        } else if code >= 128 {
            RtpType::Illegal(code)
        } else {
            RtpType::Unassigned(code)
        },
    }
}

/// The code that stands for `t`.
pub open spec fn rtp_code(t: RtpType) -> u8 {
    match t {
        RtpType::Pcmu => 0,
        RtpType::Gsm => 3,
        RtpType::G723 => 4,
        RtpType::Lpc => 7,
        RtpType::Pcma => 8,
        RtpType::G722 => 9,
        RtpType::L16Stereo => 10,
        RtpType::L16Mono => 11,
        RtpType::Qcelp => 12,
        RtpType::Cn => 13,
        RtpType::Mpa => 14,
        RtpType::G728 => 15,
        RtpType::G729 => 18,
        RtpType::CelB => 25,
        RtpType::Jpeg => 26,
        RtpType::Nv => 28,
        RtpType::H261 => 31,
        RtpType::Mpv => 32,
        RtpType::Mp2t => 33,
        RtpType::H263 => 34,
        RtpType::Dvi4(v) => v,
        RtpType::Dynamic(v) => v,
        RtpType::Reserved(v) => v,
        RtpType::Unassigned(v) => v,
        RtpType::Illegal(v) => v,
    }
}

impl RtpType {
    pub fn new(val: u8) -> (r: Self)
        ensures
            r == classify_rtp(val),
    {
        match val {
            0 => Self::Pcmu,
            3 => Self::Gsm,
            4 => Self::G723,
            5 | 6 | 16 | 17 => Self::Dvi4(val),
            7 => Self::Lpc,
            8 => Self::Pcma,
            9 => Self::G722,
            10 => Self::L16Stereo,
            11 => Self::L16Mono,
            12 => Self::Qcelp,
            13 => Self::Cn,
            14 => Self::Mpa,
            15 => Self::G728,
            18 => Self::G729,
            25 => Self::CelB,
            26 => Self::Jpeg,
            28 => Self::Nv,
            31 => Self::H261,
            32 => Self::Mpv,
            33 => Self::Mp2t,
            34 => Self::H263,
            1..=2 | 19 | 72..=76 => Self::Reserved(val),
            96..=127 => Self::Dynamic(val),
            128..=255 => Self::Illegal(val),
            _ => Self::Unassigned(val),
        }
    }

    /// The code of this payload type, as a one-element tuple.
    pub fn to_primitive_values(&self) -> (r: (u8,))
        ensures
            r.0 == rtp_code(*self),
    {
        match self {
            Self::Pcmu => (0,),
            Self::Gsm => (3,),
            Self::G723 => (4,),
            Self::Lpc => (7,),
            Self::Pcma => (8,),
            Self::G722 => (9,),
            Self::L16Stereo => (10,),
            Self::L16Mono => (11,),
            Self::Qcelp => (12,),
            Self::Cn => (13,),
            Self::Mpa => (14,),
            Self::G728 => (15,),
            Self::G729 => (18,),
            Self::CelB => (25,),
            Self::Jpeg => (26,),
            Self::Nv => (28,),
            Self::H261 => (31,),
            Self::Mpv => (32,),
            Self::Mp2t => (33,),
            Self::H263 => (34,),
            Self::Dvi4(val)
            | Self::Dynamic(val)
            | Self::Unassigned(val)
            | Self::Reserved(val)
            | Self::Illegal(val) => (*val,),
        }
    }
}

/// Every code is recovered from its payload type: catch-all variants carry
/// the code, and each named variant has exactly one code.
pub proof fn lemma_rtp_code_of_classify(code: u8)
    ensures
        rtp_code(classify_rtp(code)) == code,
{
}

/// Classifying the code of a classified payload type gives that payload type back.
pub proof fn lemma_rtp_classify_round_trip(code: u8)
    requires
        code < 128,
    ensures
        classify_rtp(rtp_code(classify_rtp(code))) == classify_rtp(code),
{
    lemma_rtp_code_of_classify(code);
}

/// Where the CSRC list of an RTP packet ends: four bytes for each source that
/// `csrc_count` announces, cut short where the buffer ends.
pub open spec fn rtp_csrc_list_end(b: Seq<u8>) -> int {
    let end: int = 12 + 4 * bits_of(b[0], 0, 0x0f);
    if end <= b.len() {
        end
    } else {
        b.len() as int
    }
}

/// Where the data of an RTP header extension ends: four bytes for each word
/// that `length` announces, cut short where the buffer ends.
pub open spec fn rtp_extension_ext_data_end(b: Seq<u8>) -> int {
    let end: int = 4 + 4 * be16(b, 2);
    if end <= b.len() {
        end
    } else {
        b.len() as int
    }
}

/// `r` holds the fields that `b` encodes as an RTP packet.
pub open spec fn rtp_fields(r: Rtp, b: Seq<u8>) -> bool {
    &&& r.version == bits_of(b[0], 6, 3)
    &&& r.padding == bits_of(b[0], 5, 1)
    &&& r.extension == bits_of(b[0], 4, 1)
    &&& r.csrc_count == bits_of(b[0], 0, 0xf)
    &&& r.marker == bits_of(b[1], 7, 1)
    &&& r.payload_type == classify_rtp(bits_of(b[1], 0, 0x7f))
    &&& r.sequence == Wrap16(be16(b, 2) as u16)
    &&& r.timestamp == Wrap32(be32(b, 4) as u32)
    &&& r.ssrc == be32(b, 8)
    &&& r.csrc_list@ == be32_list(b, 12, rtp_csrc_list_end(b))
    &&& r.payload@ == b.subrange(rtp_csrc_list_end(b), b.len() as int)
}

/// `r` holds the fields that `b` encodes as an RTP header extension.
pub open spec fn rtp_extension_fields(r: RtpExtension, b: Seq<u8>) -> bool {
    &&& r.info == be16(b, 0)
    &&& r.length == be16(b, 2)
    &&& r.ext_data@ == b.subrange(4, rtp_extension_ext_data_end(b))
    &&& r.payload@ == b.subrange(rtp_extension_ext_data_end(b), b.len() as int)
}

/// A read-only view of an RTP packet over a borrowed buffer.
#[derive(Debug)]
pub struct RtpPacket<'p> {
    packet: &'p [u8],
}

/// A mutable view of an RTP packet over an exclusively borrowed buffer.
#[derive(Debug)]
pub struct MutableRtpPacket<'p> {
    packet: &'p mut [u8],
}

impl<'p> View for RtpPacket<'p> {
    type V = Seq<u8>;

    closed spec fn view(&self) -> Seq<u8> {
        self.packet@
    }
}

impl<'p> View for MutableRtpPacket<'p> {
    type V = Seq<u8>;

    closed spec fn view(&self) -> Seq<u8> {
        self.packet@
    }
}

impl<'p> RtpPacket<'p> {
    #[verifier::type_invariant]
    spec fn inv(&self) -> bool {
        self.packet@.len() >= 12
    }

    /// Views `packet`, or gives `None` when it is shorter than the fixed fields.
    pub fn new(packet: &'p [u8]) -> (r: Option<RtpPacket<'p>>)
        ensures
            r is Some <==> packet@.len() >= 12,
            r matches Some(p) ==> p@ == packet@,
    {
        if packet.len() >= 12 {
            Some(RtpPacket { packet })
        } else {
            None
        }
    }

    /// The size of the fixed fields, below which no view is made.
    pub fn minimum_packet_size() -> (r: usize)
        ensures
            r == 12,
    {
        12
    }

    /// The whole viewed buffer.
    pub fn packet(&self) -> (r: &'p [u8])
        ensures
            r@ == self@,
    {
        self.packet
    }

    /// Where `csrc_list` ends and the payload begins.
    fn csrc_list_end(&self) -> (r: usize)
        ensures
            r == rtp_csrc_list_end(self@),
    {
        proof {
            use_type_invariant(self);
        }
        let end: usize = 12 + 4 * (read_bits(self.packet[0], 0, 0x0f) as usize);
        if end <= self.packet.len() {
            end
        } else {
            self.packet.len()
        }
    }

    /// The bytes after the last field, up to the end of the buffer.
    pub fn payload(&self) -> (r: &'p [u8])
        ensures
            r@ == self@.subrange(rtp_csrc_list_end(self@), self@.len() as int),
    {
        proof {
            use_type_invariant(self);
        }
        let start: usize = self.csrc_list_end();
        &self.packet[start..self.packet.len()]
    }

    /// The size of the fields with the variable field as far as the buffer holds it.
    pub fn packet_size(&self) -> (r: usize)
        ensures
            r == rtp_csrc_list_end(self@),
    {
        self.csrc_list_end()
    }

    /// The `version` field; see [`Rtp::version`].
    pub fn get_version(&self) -> (r: u8)
        ensures
            r == bits_of(self@[0], 6, 3),
    {
        proof {
            use_type_invariant(self);
        }
        read_bits(self.packet[0], 6, 3)
    }

    /// The `padding` field; see [`Rtp::padding`].
    pub fn get_padding(&self) -> (r: u8)
        ensures
            r == bits_of(self@[0], 5, 1),
    {
        proof {
            use_type_invariant(self);
        }
        read_bits(self.packet[0], 5, 1)
    }

    /// The `extension` field; see [`Rtp::extension`].
    pub fn get_extension(&self) -> (r: u8)
        ensures
            r == bits_of(self@[0], 4, 1),
    {
        proof {
            use_type_invariant(self);
        }
        read_bits(self.packet[0], 4, 1)
    }

    /// The `csrc_count` field; see [`Rtp::csrc_count`].
    pub fn get_csrc_count(&self) -> (r: u8)
        ensures
            r == bits_of(self@[0], 0, 0xf),
    {
        proof {
            use_type_invariant(self);
        }
        read_bits(self.packet[0], 0, 0xf)
    }

    /// The `marker` field; see [`Rtp::marker`].
    pub fn get_marker(&self) -> (r: u8)
        ensures
            r == bits_of(self@[1], 7, 1),
    {
        proof {
            use_type_invariant(self);
        }
        read_bits(self.packet[1], 7, 1)
    }

    /// The `payload_type` field; see [`Rtp::payload_type`].
    pub fn get_payload_type(&self) -> (r: RtpType)
        ensures
            r == classify_rtp(bits_of(self@[1], 0, 0x7f)),
    {
        proof {
            use_type_invariant(self);
        }
        RtpType::new(read_bits(self.packet[1], 0, 0x7f))
    }

    /// The `sequence` field; see [`Rtp::sequence`].
    pub fn get_sequence(&self) -> (r: Wrap16)
        ensures
            r == Wrap16(be16(self@, 2) as u16),
    {
        proof {
            use_type_invariant(self);
        }
        Wrap16::new(read_be16(self.packet, 2))
    }

    /// The `timestamp` field; see [`Rtp::timestamp`].
    pub fn get_timestamp(&self) -> (r: Wrap32)
        ensures
            r == Wrap32(be32(self@, 4) as u32),
    {
        proof {
            use_type_invariant(self);
        }
        Wrap32::new(read_be32(self.packet, 4))
    }

    /// The `ssrc` field; see [`Rtp::ssrc`].
    pub fn get_ssrc(&self) -> (r: u32)
        ensures
            r == be32(self@, 8),
    {
        proof {
            use_type_invariant(self);
        }
        read_be32(self.packet, 8)
    }

    /// The bytes of `csrc_list`, cut short where the buffer ends.
    pub fn get_csrc_list_raw(&self) -> (r: &'p [u8])
        ensures
            r@ == self@.subrange(12, rtp_csrc_list_end(self@)),
    {
        proof {
            use_type_invariant(self);
        }
        let end: usize = self.csrc_list_end();
        &self.packet[12..end]
    }

    /// The entries of `csrc_list` that the buffer holds whole.
    pub fn get_csrc_list(&self) -> (r: Vec<u32>)
        ensures
            r@ == be32_list(self@, 12, rtp_csrc_list_end(self@)),
    {
        proof {
            use_type_invariant(self);
        }
        let end: usize = self.csrc_list_end();
        read_be32_list(self.packet, 12, end)
    }

    /// An owned copy of every field.
    pub fn from_packet(&self) -> (r: Rtp)
        ensures
            rtp_fields(r, self@),
    {
        Rtp {
            version: self.get_version(),
            padding: self.get_padding(),
            extension: self.get_extension(),
            csrc_count: self.get_csrc_count(),
            marker: self.get_marker(),
            payload_type: self.get_payload_type(),
            sequence: self.get_sequence(),
            timestamp: self.get_timestamp(),
            ssrc: self.get_ssrc(),
            csrc_list: self.get_csrc_list(),
            payload: slice_to_vec(self.payload()),
        }
    }
}

impl<'p> MutableRtpPacket<'p> {
    #[verifier::type_invariant]
    spec fn inv(&self) -> bool {
        self.packet@.len() >= 12
    }

    /// Views `packet` for writing, or gives `None` when it is shorter than the fixed fields.
    pub fn new(packet: &'p mut [u8]) -> (r: Option<MutableRtpPacket<'p>>)
        ensures
            r is Some <==> old(packet)@.len() >= 12,
            r matches Some(p) ==> p@ == old(packet)@,
    {
        if packet.len() >= 12 {
            Some(MutableRtpPacket { packet })
        } else {
            None
        }
    }

    /// The size of the fixed fields, below which no view is made.
    pub fn minimum_packet_size() -> (r: usize)
        ensures
            r == 12,
    {
        12
    }

    /// A read-only view of the same bytes.
    pub fn to_immutable(&self) -> (r: RtpPacket<'_>)
        ensures
            r@ == self@,
    {
        proof {
            use_type_invariant(self);
        }
        RtpPacket { packet: &*self.packet }
    }

    /// The whole viewed buffer.
    pub fn packet(&self) -> (r: &[u8])
        ensures
            r@ == self@,
    {
        &*self.packet
    }

    /// The bytes after the last field, up to the end of the buffer.
    pub fn payload(&self) -> (r: &[u8])
        ensures
            r@ == self@.subrange(rtp_csrc_list_end(self@), self@.len() as int),
    {
        let p = self.to_immutable();
        p.payload()
    }

    /// The size of the fields with the variable field as far as the buffer holds it.
    pub fn packet_size(&self) -> (r: usize)
        ensures
            r == rtp_csrc_list_end(self@),
    {
        self.to_immutable().packet_size()
    }

    /// The `version` field; see [`Rtp::version`].
    pub fn get_version(&self) -> (r: u8)
        ensures
            r == bits_of(self@[0], 6, 3),
    {
        self.to_immutable().get_version()
    }

    /// The `padding` field; see [`Rtp::padding`].
    pub fn get_padding(&self) -> (r: u8)
        ensures
            r == bits_of(self@[0], 5, 1),
    {
        self.to_immutable().get_padding()
    }

    /// The `extension` field; see [`Rtp::extension`].
    pub fn get_extension(&self) -> (r: u8)
        ensures
            r == bits_of(self@[0], 4, 1),
    {
        self.to_immutable().get_extension()
    }

    /// The `csrc_count` field; see [`Rtp::csrc_count`].
    pub fn get_csrc_count(&self) -> (r: u8)
        ensures
            r == bits_of(self@[0], 0, 0xf),
    {
        self.to_immutable().get_csrc_count()
    }

    /// The `marker` field; see [`Rtp::marker`].
    pub fn get_marker(&self) -> (r: u8)
        ensures
            r == bits_of(self@[1], 7, 1),
    {
        self.to_immutable().get_marker()
    }

    /// The `payload_type` field; see [`Rtp::payload_type`].
    pub fn get_payload_type(&self) -> (r: RtpType)
        ensures
            r == classify_rtp(bits_of(self@[1], 0, 0x7f)),
    {
        self.to_immutable().get_payload_type()
    }

    /// The `sequence` field; see [`Rtp::sequence`].
    pub fn get_sequence(&self) -> (r: Wrap16)
        ensures
            r == Wrap16(be16(self@, 2) as u16),
    {
        self.to_immutable().get_sequence()
    }

    /// The `timestamp` field; see [`Rtp::timestamp`].
    pub fn get_timestamp(&self) -> (r: Wrap32)
        ensures
            r == Wrap32(be32(self@, 4) as u32),
    {
        self.to_immutable().get_timestamp()
    }

    /// The `ssrc` field; see [`Rtp::ssrc`].
    pub fn get_ssrc(&self) -> (r: u32)
        ensures
            r == be32(self@, 8),
    {
        self.to_immutable().get_ssrc()
    }

    /// The entries of `csrc_list` that the buffer holds whole.
    pub fn get_csrc_list(&self) -> (r: Vec<u32>)
        ensures
            r@ == be32_list(self@, 12, rtp_csrc_list_end(self@)),
    {
        self.to_immutable().get_csrc_list()
    }

    /// An owned copy of every field.
    pub fn from_packet(&self) -> (r: Rtp)
        ensures
            rtp_fields(r, self@),
    {
        self.to_immutable().from_packet()
    }

    /// Writes the low bits of `val` to the `version` field.
    pub fn set_version(&mut self, val: u8)
        ensures
            final(self)@ == old(self)@.update(0, with_bits(old(self)@[0], 6, 3, val)),
    {
        proof {
            use_type_invariant(&*self);
        }
        let byte: u8 = write_bits(self.packet[0], 6, 3, val);
        self.packet[0] = byte;
    }

    /// Writes the low bits of `val` to the `padding` field.
    pub fn set_padding(&mut self, val: u8)
        ensures
            final(self)@ == old(self)@.update(0, with_bits(old(self)@[0], 5, 1, val)),
    {
        proof {
            use_type_invariant(&*self);
        }
        let byte: u8 = write_bits(self.packet[0], 5, 1, val);
        self.packet[0] = byte;
    }

    /// Writes the low bits of `val` to the `extension` field.
    pub fn set_extension(&mut self, val: u8)
        ensures
            final(self)@ == old(self)@.update(0, with_bits(old(self)@[0], 4, 1, val)),
    {
        proof {
            use_type_invariant(&*self);
        }
        let byte: u8 = write_bits(self.packet[0], 4, 1, val);
        self.packet[0] = byte;
    }

    /// Writes the low bits of `val` to the `csrc_count` field.
    pub fn set_csrc_count(&mut self, val: u8)
        ensures
            final(self)@ == old(self)@.update(0, with_bits(old(self)@[0], 0, 0xf, val)),
    {
        proof {
            use_type_invariant(&*self);
        }
        let byte: u8 = write_bits(self.packet[0], 0, 0xf, val);
        self.packet[0] = byte;
    }

    /// Writes the low bits of `val` to the `marker` field.
    pub fn set_marker(&mut self, val: u8)
        ensures
            final(self)@ == old(self)@.update(1, with_bits(old(self)@[1], 7, 1, val)),
    {
        proof {
            use_type_invariant(&*self);
        }
        let byte: u8 = write_bits(self.packet[1], 7, 1, val);
        self.packet[1] = byte;
    }

    /// Writes the code of `val` to the `payload_type` field.
    pub fn set_payload_type(&mut self, val: RtpType)
        ensures
            final(self)@ == old(self)@.update(1, with_bits(old(self)@[1], 0, 0x7f, rtp_code(val))),
    {
        proof {
            use_type_invariant(&*self);
        }
        let byte: u8 = write_bits(self.packet[1], 0, 0x7f, val.to_primitive_values().0);
        self.packet[1] = byte;
    }

    /// Writes `val` to the `sequence` field.
    pub fn set_sequence(&mut self, val: Wrap16)
        ensures
            final(self)@ == put_be16(old(self)@, 2, val.0 as int),
    {
        proof {
            use_type_invariant(&*self);
        }
        write_be16(self.packet, 2, val.0);
    }

    /// Writes `val` to the `timestamp` field.
    pub fn set_timestamp(&mut self, val: Wrap32)
        ensures
            final(self)@ == put_be32(old(self)@, 4, val.0 as int),
    {
        proof {
            use_type_invariant(&*self);
        }
        write_be32(self.packet, 4, val.0);
    }

    /// Writes `val` to the `ssrc` field.
    pub fn set_ssrc(&mut self, val: u32)
        ensures
            final(self)@ == put_be32(old(self)@, 8, val as int),
    {
        proof {
            use_type_invariant(&*self);
        }
        write_be32(self.packet, 8, val);
    }

    /// Writes `vals` as the first entries of `csrc_list`, which must hold them.
    pub fn set_csrc_list(&mut self, vals: &[u32])
        requires
            12 + 4 * vals@.len() <= rtp_csrc_list_end(old(self)@),
        ensures
            final(self)@.len() == old(self)@.len(),
            forall|i: int| 0 <= i < vals@.len() ==> be32(final(self)@, 12 + 4 * i) == vals@[i],
            forall|j: int|
                0 <= j < old(self)@.len() && !(12 <= j < 12 + 4 * vals@.len()) ==> final(self)@[j]
                    == old(self)@[j],
    {
        proof {
            use_type_invariant(&*self);
        }
        let n: usize = vals.len();
        write_be32_list(self.packet, 12, vals, n);
    }

    /// Copies `vals` over the start of the payload, which must hold them.
    pub fn set_payload(&mut self, vals: &[u8])
        requires
            rtp_csrc_list_end(old(self)@) + vals@.len() <= old(self)@.len(),
        ensures
            final(self)@ == splice(old(self)@, rtp_csrc_list_end(old(self)@), vals@),
    {
        proof {
            use_type_invariant(&*self);
        }
        let start: usize = self.packet_size();
        let n: usize = vals.len();
        write_bytes(self.packet, start, vals, n);
    }
}

/// A read-only view of an RTP header extension over a borrowed buffer.
#[derive(Debug)]
pub struct RtpExtensionPacket<'p> {
    packet: &'p [u8],
}

/// A mutable view of an RTP header extension over an exclusively borrowed buffer.
#[derive(Debug)]
pub struct MutableRtpExtensionPacket<'p> {
    packet: &'p mut [u8],
}

impl<'p> View for RtpExtensionPacket<'p> {
    type V = Seq<u8>;

    closed spec fn view(&self) -> Seq<u8> {
        self.packet@
    }
}

impl<'p> View for MutableRtpExtensionPacket<'p> {
    type V = Seq<u8>;

    closed spec fn view(&self) -> Seq<u8> {
        self.packet@
    }
}

impl<'p> RtpExtensionPacket<'p> {
    #[verifier::type_invariant]
    spec fn inv(&self) -> bool {
        self.packet@.len() >= 4
    }

    /// Views `packet`, or gives `None` when it is shorter than the fixed fields.
    pub fn new(packet: &'p [u8]) -> (r: Option<RtpExtensionPacket<'p>>)
        ensures
            r is Some <==> packet@.len() >= 4,
            r matches Some(p) ==> p@ == packet@,
    {
        if packet.len() >= 4 {
            Some(RtpExtensionPacket { packet })
        } else {
            None
        }
    }

    /// The size of the fixed fields, below which no view is made.
    pub fn minimum_packet_size() -> (r: usize)
        ensures
            r == 4,
    {
        4
    }

    /// The whole viewed buffer.
    pub fn packet(&self) -> (r: &'p [u8])
        ensures
            r@ == self@,
    {
        self.packet
    }

    /// Where `ext_data` ends and the payload begins.
    fn ext_data_end(&self) -> (r: usize)
        ensures
            r == rtp_extension_ext_data_end(self@),
    {
        proof {
            use_type_invariant(self);
        }
        let end: usize = 4 + 4 * (read_be16(self.packet, 2) as usize);
        if end <= self.packet.len() {
            end
        } else {
            self.packet.len()
        }
    }

    /// The bytes after the last field, up to the end of the buffer.
    pub fn payload(&self) -> (r: &'p [u8])
        ensures
            r@ == self@.subrange(rtp_extension_ext_data_end(self@), self@.len() as int),
    {
        proof {
            use_type_invariant(self);
        }
        let start: usize = self.ext_data_end();
        &self.packet[start..self.packet.len()]
    }

    /// The size of the fields with the variable field as far as the buffer holds it.
    pub fn packet_size(&self) -> (r: usize)
        ensures
            r == rtp_extension_ext_data_end(self@),
    {
        self.ext_data_end()
    }

    /// The `info` field; see [`RtpExtension::info`].
    pub fn get_info(&self) -> (r: u16)
        ensures
            r == be16(self@, 0),
    {
        proof {
            use_type_invariant(self);
        }
        read_be16(self.packet, 0)
    }

    /// The `length` field; see [`RtpExtension::length`].
    pub fn get_length(&self) -> (r: u16)
        ensures
            r == be16(self@, 2),
    {
        proof {
            use_type_invariant(self);
        }
        read_be16(self.packet, 2)
    }

    /// The bytes of `ext_data`, cut short where the buffer ends.
    pub fn get_ext_data_raw(&self) -> (r: &'p [u8])
        ensures
            r@ == self@.subrange(4, rtp_extension_ext_data_end(self@)),
    {
        proof {
            use_type_invariant(self);
        }
        let end: usize = self.ext_data_end();
        &self.packet[4..end]
    }

    /// A copy of the bytes of `ext_data`, cut short where the buffer ends.
    pub fn get_ext_data(&self) -> (r: Vec<u8>)
        ensures
            r@ == self@.subrange(4, rtp_extension_ext_data_end(self@)),
    {
        slice_to_vec(self.get_ext_data_raw())
    }

    /// An owned copy of every field.
    pub fn from_packet(&self) -> (r: RtpExtension)
        ensures
            rtp_extension_fields(r, self@),
    {
        RtpExtension {
            info: self.get_info(),
            length: self.get_length(),
            ext_data: self.get_ext_data(),
            payload: slice_to_vec(self.payload()),
        }
    }
}

impl<'p> MutableRtpExtensionPacket<'p> {
    #[verifier::type_invariant]
    spec fn inv(&self) -> bool {
        self.packet@.len() >= 4
    }

    /// Views `packet` for writing, or gives `None` when it is shorter than the fixed fields.
    pub fn new(packet: &'p mut [u8]) -> (r: Option<MutableRtpExtensionPacket<'p>>)
        ensures
            r is Some <==> old(packet)@.len() >= 4,
            r matches Some(p) ==> p@ == old(packet)@,
    {
        if packet.len() >= 4 {
            Some(MutableRtpExtensionPacket { packet })
        } else {
            None
        }
    }

    /// The size of the fixed fields, below which no view is made.
    pub fn minimum_packet_size() -> (r: usize)
        ensures
            r == 4,
    {
        4
    }

    /// A read-only view of the same bytes.
    pub fn to_immutable(&self) -> (r: RtpExtensionPacket<'_>)
        ensures
            r@ == self@,
    {
        proof {
            use_type_invariant(self);
        }
        RtpExtensionPacket { packet: &*self.packet }
    }

    /// The whole viewed buffer.
    pub fn packet(&self) -> (r: &[u8])
        ensures
            r@ == self@,
    {
        &*self.packet
    }

    /// The bytes after the last field, up to the end of the buffer.
    pub fn payload(&self) -> (r: &[u8])
        ensures
            r@ == self@.subrange(rtp_extension_ext_data_end(self@), self@.len() as int),
    {
        let p = self.to_immutable();
        p.payload()
    }

    /// The size of the fields with the variable field as far as the buffer holds it.
    pub fn packet_size(&self) -> (r: usize)
        ensures
            r == rtp_extension_ext_data_end(self@),
    {
        self.to_immutable().packet_size()
    }

    /// The `info` field; see [`RtpExtension::info`].
    pub fn get_info(&self) -> (r: u16)
        ensures
            r == be16(self@, 0),
    {
        self.to_immutable().get_info()
    }

    /// The `length` field; see [`RtpExtension::length`].
    pub fn get_length(&self) -> (r: u16)
        ensures
            r == be16(self@, 2),
    {
        self.to_immutable().get_length()
    }

    /// A copy of the bytes of `ext_data`, cut short where the buffer ends.
    pub fn get_ext_data(&self) -> (r: Vec<u8>)
        ensures
            r@ == self@.subrange(4, rtp_extension_ext_data_end(self@)),
    {
        self.to_immutable().get_ext_data()
    }

    /// An owned copy of every field.
    pub fn from_packet(&self) -> (r: RtpExtension)
        ensures
            rtp_extension_fields(r, self@),
    {
        self.to_immutable().from_packet()
    }

    /// Writes `val` to the `info` field.
    pub fn set_info(&mut self, val: u16)
        ensures
            final(self)@ == put_be16(old(self)@, 0, val as int),
    {
        proof {
            use_type_invariant(&*self);
        }
        write_be16(self.packet, 0, val);
    }

    /// Writes `val` to the `length` field.
    pub fn set_length(&mut self, val: u16)
        ensures
            final(self)@ == put_be16(old(self)@, 2, val as int),
    {
        proof {
            use_type_invariant(&*self);
        }
        write_be16(self.packet, 2, val);
    }

    /// Copies `vals` over the start of `ext_data`, which must hold them.
    pub fn set_ext_data(&mut self, vals: &[u8])
        requires
            4 + vals@.len() <= rtp_extension_ext_data_end(old(self)@),
        ensures
            final(self)@ == splice(old(self)@, 4, vals@),
    {
        proof {
            use_type_invariant(&*self);
        }
        let n: usize = vals.len();
        write_bytes(self.packet, 4, vals, n);
    }

    /// Copies `vals` over the start of the payload, which must hold them.
    pub fn set_payload(&mut self, vals: &[u8])
        requires
            rtp_extension_ext_data_end(old(self)@) + vals@.len() <= old(self)@.len(),
        ensures
            final(self)@ == splice(old(self)@, rtp_extension_ext_data_end(old(self)@), vals@),
    {
        proof {
            use_type_invariant(&*self);
        }
        let start: usize = self.packet_size();
        let n: usize = vals.len();
        write_bytes(self.packet, start, vals, n);
    }
}

/// A value written to a field of an RTP packet through a mutable view reads
/// back unchanged from any view of the same bytes (its low bits, for a
/// field of fewer bits than the value has).
pub proof fn lemma_rtp_write_then_read(
    b: Seq<u8>,
    version: u8,
    padding: u8,
    extension: u8,
    csrc_count: u8,
    marker: u8,
    payload_type: RtpType,
    sequence: Wrap16,
    timestamp: Wrap32,
    ssrc: u32,
)
    requires
        b.len() >= 12,
        rtp_code(payload_type) <= 0x7f,
        classify_rtp(rtp_code(payload_type)) == payload_type,
    ensures
        bits_of(b.update(0, with_bits(b[0], 6, 3, version))[0], 6, 3) == version & 3,
        bits_of(b.update(0, with_bits(b[0], 5, 1, padding))[0], 5, 1) == padding & 1,
        bits_of(b.update(0, with_bits(b[0], 4, 1, extension))[0], 4, 1) == extension & 1,
        bits_of(b.update(0, with_bits(b[0], 0, 0xf, csrc_count))[0], 0, 0xf) == csrc_count & 0xf,
        bits_of(b.update(1, with_bits(b[1], 7, 1, marker))[1], 7, 1) == marker & 1,
        classify_rtp(bits_of(b.update(1, with_bits(b[1], 0, 0x7f, rtp_code(payload_type)))[1], 0, 0x7f)) == payload_type,
        Wrap16(be16(put_be16(b, 2, sequence.0 as int), 2) as u16) == sequence,
        Wrap32(be32(put_be32(b, 4, timestamp.0 as int), 4) as u32) == timestamp,
        be32(put_be32(b, 8, ssrc as int), 8) == ssrc,
{
    assert((3u8 << 6u8) >> 6u8 == 3u8) by (bit_vector);
    lemma_bits_round_trip(b[0], 6, 3, version);
    assert((1u8 << 5u8) >> 5u8 == 1u8) by (bit_vector);
    lemma_bits_round_trip(b[0], 5, 1, padding);
    assert((1u8 << 4u8) >> 4u8 == 1u8) by (bit_vector);
    lemma_bits_round_trip(b[0], 4, 1, extension);
    assert((0xfu8 << 0u8) >> 0u8 == 0xfu8) by (bit_vector);
    lemma_bits_round_trip(b[0], 0, 0xf, csrc_count);
    assert((1u8 << 7u8) >> 7u8 == 1u8) by (bit_vector);
    lemma_bits_round_trip(b[1], 7, 1, marker);
    assert((0x7fu8 << 0u8) >> 0u8 == 0x7fu8) by (bit_vector);
    lemma_bits_round_trip(b[1], 0, 0x7f, rtp_code(payload_type));
    let payload_type_code = rtp_code(payload_type);
    assert(payload_type_code & 0x7f == payload_type_code) by (bit_vector)
        requires
            payload_type_code <= 0x7f,
    ;
    lemma_be16_round_trip(b, 2, sequence.0);
    lemma_be32_round_trip(b, 4, timestamp.0);
    lemma_be32_round_trip(b, 8, ssrc);
}

/// A value written to a field of an RTP header extension through a mutable view reads
/// back unchanged from any view of the same bytes (its low bits, for a
/// field of fewer bits than the value has).
pub proof fn lemma_rtp_extension_write_then_read(
    b: Seq<u8>,
    info: u16,
    length: u16,
)
    requires
        b.len() >= 4,
    ensures
        be16(put_be16(b, 0, info as int), 0) == info,
        be16(put_be16(b, 2, length as int), 2) == length,
{
    lemma_be16_round_trip(b, 0, info);
    lemma_be16_round_trip(b, 2, length);
}

/// In an RTP packet whose `csrc_count` is 2 and that holds at least 20 bytes,
/// the CSRC list has two entries, read from bytes 12 to 20, and the payload
/// begins at byte 20.
pub proof fn lemma_two_csrcs_layout(b: Seq<u8>)
    requires
        b.len() >= 20,
        bits_of(b[0], 0, 0x0f) == 2,
    ensures
        rtp_csrc_list_end(b) == 20,
        be32_list(b, 12, rtp_csrc_list_end(b)).len() == 2,
        be32_list(b, 12, rtp_csrc_list_end(b))[0] == be32(b, 12),
        be32_list(b, 12, rtp_csrc_list_end(b))[1] == be32(b, 16),
{
}

} // verus!
