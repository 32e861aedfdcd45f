//! Packet formats that Discord adds to RTP: IP discovery, used to traverse
//! NAT, and UDP keepalives.
use crate::bytes::{
    be16, be32, lemma_be16_round_trip, lemma_be32_round_trip, put_be16, put_be32, read_be16,
    read_be32, splice, write_be16, write_be32, write_bytes,
};
use vstd::prelude::*;
use vstd::slice::slice_to_vec;

verus! {

/// Bytes that `length` counts besides the address: the SSRC and the port.
pub const FIXED_SIZE_COMPONENT: usize = 6;

/// Length of an IP discovery packet whose address takes 64 bytes.
pub const IP_DISCOVERY_LEN: usize = 74;

/// The kind of an IP discovery packet. `Other` values are illegal.
#[derive(Copy, Clone, Debug, PartialEq, Eq, Structural)]
#[non_exhaustive]
pub enum IpDiscoveryType {
    Request,
    Response,
    Other(u16),
}

/// The kind that `code` stands for.
pub open spec fn classify_ip_discovery(code: u16) -> IpDiscoveryType {
    match code {
        1 => IpDiscoveryType::Request,
        2 => IpDiscoveryType::Response,
        _ => IpDiscoveryType::Other(code),
    }
}

/// The code that stands for `t`.
pub open spec fn ip_discovery_code(t: IpDiscoveryType) -> u16 {
    match t {
        IpDiscoveryType::Request => 1,
        IpDiscoveryType::Response => 2,
        IpDiscoveryType::Other(n) => n,
    }
}

impl IpDiscoveryType {
    pub fn new(val: u16) -> (r: Self)
        ensures
            r == classify_ip_discovery(val),
    {
        match val {
            1 => Self::Request,
            2 => Self::Response,
            _ => Self::Other(val),
        }
    }

    /// The code of this kind, as a one-element tuple.
    pub fn to_primitive_values(&self) -> (r: (u16,))
        ensures
            r.0 == ip_discovery_code(*self),
    {
        match self {
            Self::Request => (1,),
            Self::Response => (2,),
            Self::Other(n) => (*n,),
        }
    }
}

/// Where the address of an IP discovery packet ends: `length` counts the
/// address with the SSRC and the port. The address is cut short so that the
/// port after it still lies within the buffer.
pub open spec fn ip_discovery_address_end(b: Seq<u8>) -> int {
    let declared: int = if be16(b, 2) >= FIXED_SIZE_COMPONENT {
        be16(b, 2) - FIXED_SIZE_COMPONENT
    } else {
        0
    };
    if 8 + declared <= b.len() - 2 {
        8 + declared
    } else {
        b.len() - 2
    }
}

/// The fields of a Discord IP discovery packet, owned.
#[derive(Clone, Debug, PartialEq, Eq)]
pub struct IpDiscovery {
    /// Whether this packet is a request or a response.
    pub pkt_type: IpDiscoveryType,

    /// Length in bytes of the fields that follow it; it sets the length of
    /// `address`. In ordinary use it is 70.
    pub length: u16,

    /// SSRC that the requesting client was assigned for RTP.
    pub ssrc: u32,

    /// Null-terminated address of the requester as the server sees it.
    /// Requests leave it empty.
    pub address: Vec<u8>,

    /// Source port of the client as the server sees it; requests may give
    /// their destination port.
    pub port: u16,

    /// No payload exists for this packet type: it is always empty.
    pub payload: Vec<u8>,
}

/// The fields of a Discord UDP keepalive, owned.
#[derive(Clone, Debug, PartialEq, Eq)]
pub struct Keepalive {
    /// SSRC of the sending source.
    pub ssrc: u32,

    /// No payload exists for this packet type: it is always empty.
    pub payload: Vec<u8>,
}

/// `r` holds the fields that `b` encodes as an IP discovery packet.
pub open spec fn ip_discovery_fields(r: IpDiscovery, b: Seq<u8>) -> bool {
    &&& r.pkt_type == classify_ip_discovery(be16(b, 0) as u16)
    &&& r.length == be16(b, 2)
    &&& r.ssrc == be32(b, 4)
    &&& r.address@ == b.subrange(8, ip_discovery_address_end(b))
    &&& r.port == be16(b, ip_discovery_address_end(b))
    &&& r.payload@ == Seq::<u8>::empty()
}

/// `r` holds the fields that `b` encodes as a UDP keepalive.
pub open spec fn keepalive_fields(r: Keepalive, b: Seq<u8>) -> bool {
    &&& r.ssrc == be32(b, 0)
    &&& r.payload@ == Seq::<u8>::empty()
}

/// A read-only view of an IP discovery packet over a borrowed buffer.
#[derive(Debug)]
pub struct IpDiscoveryPacket<'p> {
    packet: &'p [u8],
}

/// A mutable view of an IP discovery packet over an exclusively borrowed buffer.
#[derive(Debug)]
pub struct MutableIpDiscoveryPacket<'p> {
    packet: &'p mut [u8],
}

impl<'p> View for IpDiscoveryPacket<'p> {
    type V = Seq<u8>;

    closed spec fn view(&self) -> Seq<u8> {
        self.packet@
    }
}

impl<'p> View for MutableIpDiscoveryPacket<'p> {
    type V = Seq<u8>;

    closed spec fn view(&self) -> Seq<u8> {
        self.packet@
    }
}

impl<'p> IpDiscoveryPacket<'p> {
    #[verifier::type_invariant]
    spec fn inv(&self) -> bool {
        self.packet@.len() >= 10
    }

    /// Views `packet`, or gives `None` when it is shorter than the fixed fields.
    pub fn new(packet: &'p [u8]) -> (r: Option<IpDiscoveryPacket<'p>>)
        ensures
            r is Some <==> packet@.len() >= 10,
            r matches Some(p) ==> p@ == packet@,
    {
        if packet.len() >= 10 {
            Some(IpDiscoveryPacket { packet })
        } else {
            None
        }
    }

    /// The size of the fixed fields, below which no view is made.
    pub fn minimum_packet_size() -> (r: usize)
        ensures
            r == 10,
    {
        10
    }

    /// Standard packet length when the lengths that Discord specifies are used.
    pub fn const_packet_size() -> (r: usize)
        ensures
            r == IP_DISCOVERY_LEN,
    {
        IP_DISCOVERY_LEN
    }

    /// The whole viewed buffer.
    pub fn packet(&self) -> (r: &'p [u8])
        ensures
            r@ == self@,
    {
        self.packet
    }

    /// Where `address` ends and the payload begins.
    fn address_end(&self) -> (r: usize)
        ensures
            r == ip_discovery_address_end(self@),
    {
        proof {
            use_type_invariant(self);
        }
        let length: usize = read_be16(self.packet, 2) as usize;
        let end: usize = if length >= FIXED_SIZE_COMPONENT {
            8 + (length - FIXED_SIZE_COMPONENT)
        } else {
            8
        };
        if end <= self.packet.len() - 2 {
            end
        } else {
            self.packet.len() - 2
        }
    }

    /// The payload, which this layout fixes at no bytes.
    pub fn payload(&self) -> (r: &'p [u8])
        ensures
            r@ == Seq::<u8>::empty(),
    {
        proof {
            use_type_invariant(self);
        }
        let r = &self.packet[10..10];
        assert(r@ =~= Seq::<u8>::empty());
        r
    }

    /// The size of the fields, with the address as far as the buffer holds it.
    pub fn packet_size(&self) -> (r: usize)
        ensures
            r == ip_discovery_address_end(self@) + 2,
    {
        proof {
            use_type_invariant(self);
        }
        self.address_end() + 2
    }

    /// The port, which follows the address.
    pub fn get_port(&self) -> (r: u16)
        ensures
            r == be16(self@, ip_discovery_address_end(self@)),
    {
        proof {
            use_type_invariant(self);
        }
        let at: usize = self.address_end();
        read_be16(self.packet, at)
    }

    /// The `pkt_type` field; see [`IpDiscovery::pkt_type`].
    pub fn get_pkt_type(&self) -> (r: IpDiscoveryType)
        ensures
            r == classify_ip_discovery(be16(self@, 0) as u16),
    {
        proof {
            use_type_invariant(self);
        }
        IpDiscoveryType::new(read_be16(self.packet, 0))
    }

    /// The `length` field; see [`IpDiscovery::length`].
    pub fn get_length(&self) -> (r: u16)
        ensures
            r == be16(self@, 2),
    {
        proof {
            use_type_invariant(self);
        }
        read_be16(self.packet, 2)
    }

    /// The `ssrc` field; see [`IpDiscovery::ssrc`].
    pub fn get_ssrc(&self) -> (r: u32)
        ensures
            r == be32(self@, 4),
    {
        proof {
            use_type_invariant(self);
        }
        read_be32(self.packet, 4)
    }

    /// The bytes of `address`, cut short where the buffer ends.
    pub fn get_address_raw(&self) -> (r: &'p [u8])
        ensures
            r@ == self@.subrange(8, ip_discovery_address_end(self@)),
    {
        proof {
            use_type_invariant(self);
        }
        let end: usize = self.address_end();
        &self.packet[8..end]
    }

    /// A copy of the bytes of `address`, cut short where the buffer ends.
    pub fn get_address(&self) -> (r: Vec<u8>)
        ensures
            r@ == self@.subrange(8, ip_discovery_address_end(self@)),
    {
        slice_to_vec(self.get_address_raw())
    }

    /// An owned copy of every field.
    pub fn from_packet(&self) -> (r: IpDiscovery)
        ensures
            ip_discovery_fields(r, self@),
    {
        IpDiscovery {
            pkt_type: self.get_pkt_type(),
            length: self.get_length(),
            ssrc: self.get_ssrc(),
            address: self.get_address(),
            port: self.get_port(),
            payload: slice_to_vec(self.payload()),
        }
    }
}

impl<'p> MutableIpDiscoveryPacket<'p> {
    #[verifier::type_invariant]
    spec fn inv(&self) -> bool {
        self.packet@.len() >= 10
    }

    /// Views `packet` for writing, or gives `None` when it is shorter than the fixed fields.
    pub fn new(packet: &'p mut [u8]) -> (r: Option<MutableIpDiscoveryPacket<'p>>)
        ensures
            r is Some <==> old(packet)@.len() >= 10,
            r matches Some(p) ==> p@ == old(packet)@,
    {
        if packet.len() >= 10 {
            Some(MutableIpDiscoveryPacket { packet })
        } else {
            None
        }
    }

    /// The size of the fixed fields, below which no view is made.
    pub fn minimum_packet_size() -> (r: usize)
        ensures
            r == 10,
    {
        10
    }

    /// A read-only view of the same bytes.
    pub fn to_immutable(&self) -> (r: IpDiscoveryPacket<'_>)
        ensures
            r@ == self@,
    {
        proof {
            use_type_invariant(self);
        }
        IpDiscoveryPacket { packet: &*self.packet }
    }

    /// The whole viewed buffer.
    pub fn packet(&self) -> (r: &[u8])
        ensures
            r@ == self@,
    {
        &*self.packet
    }

    /// The payload, which this layout fixes at no bytes.
    pub fn payload(&self) -> (r: &[u8])
        ensures
            r@ == Seq::<u8>::empty(),
    {
        let p = self.to_immutable();
        p.payload()
    }

    /// The size of the fields, with the address as far as the buffer holds it.
    pub fn packet_size(&self) -> (r: usize)
        ensures
            r == ip_discovery_address_end(self@) + 2,
    {
        self.to_immutable().packet_size()
    }

    /// The port, which follows the address.
    pub fn get_port(&self) -> (r: u16)
        ensures
            r == be16(self@, ip_discovery_address_end(self@)),
    {
        self.to_immutable().get_port()
    }

    /// The `pkt_type` field; see [`IpDiscovery::pkt_type`].
    pub fn get_pkt_type(&self) -> (r: IpDiscoveryType)
        ensures
            r == classify_ip_discovery(be16(self@, 0) as u16),
    {
        self.to_immutable().get_pkt_type()
    }

    /// The `length` field; see [`IpDiscovery::length`].
    pub fn get_length(&self) -> (r: u16)
        ensures
            r == be16(self@, 2),
    {
        self.to_immutable().get_length()
    }

    /// The `ssrc` field; see [`IpDiscovery::ssrc`].
    pub fn get_ssrc(&self) -> (r: u32)
        ensures
            r == be32(self@, 4),
    {
        self.to_immutable().get_ssrc()
    }

    /// A copy of the bytes of `address`, cut short where the buffer ends.
    pub fn get_address(&self) -> (r: Vec<u8>)
        ensures
            r@ == self@.subrange(8, ip_discovery_address_end(self@)),
    {
        self.to_immutable().get_address()
    }

    /// An owned copy of every field.
    pub fn from_packet(&self) -> (r: IpDiscovery)
        ensures
            ip_discovery_fields(r, self@),
    {
        self.to_immutable().from_packet()
    }

    /// Writes the code of `val` to the `pkt_type` field.
    pub fn set_pkt_type(&mut self, val: IpDiscoveryType)
        ensures
            final(self)@ == put_be16(old(self)@, 0, ip_discovery_code(val) as int),
    {
        proof {
            use_type_invariant(&*self);
        }
        write_be16(self.packet, 0, val.to_primitive_values().0);
    }

    /// Writes `val` to the `length` field.
    pub fn set_length(&mut self, val: u16)
        ensures
            final(self)@ == put_be16(old(self)@, 2, val as int),
    {
        proof {
            use_type_invariant(&*self);
        }
        write_be16(self.packet, 2, val);
    }

    /// Writes `val` to the `ssrc` field.
    pub fn set_ssrc(&mut self, val: u32)
        ensures
            final(self)@ == put_be32(old(self)@, 4, val as int),
    {
        proof {
            use_type_invariant(&*self);
        }
        write_be32(self.packet, 4, val);
    }

    /// Copies `vals` over the start of `address`, which must hold them.
    pub fn set_address(&mut self, vals: &[u8])
        requires
            8 + vals@.len() <= ip_discovery_address_end(old(self)@),
        ensures
            final(self)@ == splice(old(self)@, 8, vals@),
    {
        proof {
            use_type_invariant(&*self);
        }
        let n: usize = vals.len();
        write_bytes(self.packet, 8, vals, n);
    }

    /// Writes the port after the address as the buffer now holds it.
    pub fn set_port(&mut self, val: u16)
        ensures
            final(self)@ == put_be16(old(self)@, ip_discovery_address_end(old(self)@), val as int),
    {
        proof {
            use_type_invariant(&*self);
        }
        let at: usize = self.packet_size() - 2;
        write_be16(self.packet, at, val);
    }

    /// Standard packet length when the lengths that Discord specifies are used.
    pub fn const_packet_size() -> (r: usize)
        ensures
            r == IP_DISCOVERY_LEN,
    {
        IP_DISCOVERY_LEN
    }
}

/// A read-only view of a UDP keepalive over a borrowed buffer.
#[derive(Debug)]
pub struct KeepalivePacket<'p> {
    packet: &'p [u8],
}

/// A mutable view of a UDP keepalive over an exclusively borrowed buffer.
#[derive(Debug)]
pub struct MutableKeepalivePacket<'p> {
    packet: &'p mut [u8],
}

impl<'p> View for KeepalivePacket<'p> {
    type V = Seq<u8>;

    closed spec fn view(&self) -> Seq<u8> {
        self.packet@
    }
}

impl<'p> View for MutableKeepalivePacket<'p> {
    type V = Seq<u8>;

    closed spec fn view(&self) -> Seq<u8> {
        self.packet@
    }
}

impl<'p> KeepalivePacket<'p> {
    #[verifier::type_invariant]
    spec fn inv(&self) -> bool {
        self.packet@.len() >= 4
    }

    /// Views `packet`, or gives `None` when it is shorter than the fixed fields.
    pub fn new(packet: &'p [u8]) -> (r: Option<KeepalivePacket<'p>>)
        ensures
            r is Some <==> packet@.len() >= 4,
            r matches Some(p) ==> p@ == packet@,
    {
        if packet.len() >= 4 {
            Some(KeepalivePacket { packet })
        } else {
            None
        }
    }

    /// The size of the fixed fields, below which no view is made.
    pub fn minimum_packet_size() -> (r: usize)
        ensures
            r == 4,
    {
        4
    }

    /// The whole viewed buffer.
    pub fn packet(&self) -> (r: &'p [u8])
        ensures
            r@ == self@,
    {
        self.packet
    }

    /// The payload, which this layout fixes at no bytes.
    pub fn payload(&self) -> (r: &'p [u8])
        ensures
            r@ == Seq::<u8>::empty(),
    {
        proof {
            use_type_invariant(self);
        }
        let r = &self.packet[4..4];
        assert(r@ =~= Seq::<u8>::empty());
        r
    }

    /// The size of the fields.
    pub fn packet_size(&self) -> (r: usize)
        ensures
            r == 4,
    {
        4
    }

    /// The `ssrc` field; see [`Keepalive::ssrc`].
    pub fn get_ssrc(&self) -> (r: u32)
        ensures
            r == be32(self@, 0),
    {
        proof {
            use_type_invariant(self);
        }
        read_be32(self.packet, 0)
    }

    /// An owned copy of every field.
    pub fn from_packet(&self) -> (r: Keepalive)
        ensures
            keepalive_fields(r, self@),
    {
        Keepalive {
            ssrc: self.get_ssrc(),
            payload: slice_to_vec(self.payload()),
        }
    }
}

impl<'p> MutableKeepalivePacket<'p> {
    #[verifier::type_invariant]
    spec fn inv(&self) -> bool {
        self.packet@.len() >= 4
    }

    /// Views `packet` for writing, or gives `None` when it is shorter than the fixed fields.
    pub fn new(packet: &'p mut [u8]) -> (r: Option<MutableKeepalivePacket<'p>>)
        ensures
            r is Some <==> old(packet)@.len() >= 4,
            r matches Some(p) ==> p@ == old(packet)@,
    {
        if packet.len() >= 4 {
            Some(MutableKeepalivePacket { packet })
        } else {
            None
        }
    }

    /// The size of the fixed fields, below which no view is made.
    pub fn minimum_packet_size() -> (r: usize)
        ensures
            r == 4,
    {
        4
    }

    /// A read-only view of the same bytes.
    pub fn to_immutable(&self) -> (r: KeepalivePacket<'_>)
        ensures
            r@ == self@,
    {
        proof {
            use_type_invariant(self);
        }
        KeepalivePacket { packet: &*self.packet }
    }

    /// The whole viewed buffer.
    pub fn packet(&self) -> (r: &[u8])
        ensures
            r@ == self@,
    {
        &*self.packet
    }

    /// The payload, which this layout fixes at no bytes.
    pub fn payload(&self) -> (r: &[u8])
        ensures
            r@ == Seq::<u8>::empty(),
    {
        let p = self.to_immutable();
        p.payload()
    }

    /// The size of the fields.
    pub fn packet_size(&self) -> (r: usize)
        ensures
            r == 4,
    {
        self.to_immutable().packet_size()
    }

    /// The `ssrc` field; see [`Keepalive::ssrc`].
    pub fn get_ssrc(&self) -> (r: u32)
        ensures
            r == be32(self@, 0),
    {
        self.to_immutable().get_ssrc()
    }

    /// An owned copy of every field.
    pub fn from_packet(&self) -> (r: Keepalive)
        ensures
            keepalive_fields(r, self@),
    {
        self.to_immutable().from_packet()
    }

    /// Writes `val` to the `ssrc` field.
    pub fn set_ssrc(&mut self, val: u32)
        ensures
            final(self)@ == put_be32(old(self)@, 0, val as int),
    {
        proof {
            use_type_invariant(&*self);
        }
        write_be32(self.packet, 0, val);
    }
}

/// A value written to a field of an IP discovery packet through a mutable view reads
/// back unchanged from any view of the same bytes (its low bits, for a
/// field of fewer bits than the value has).
pub proof fn lemma_ip_discovery_write_then_read(
    b: Seq<u8>,
    pkt_type: IpDiscoveryType,
    length: u16,
    ssrc: u32,
)
    requires
        b.len() >= 10,
        classify_ip_discovery(ip_discovery_code(pkt_type)) == pkt_type,
    ensures
        classify_ip_discovery(be16(put_be16(b, 0, ip_discovery_code(pkt_type) as int), 0) as u16) == pkt_type,
        be16(put_be16(b, 2, length as int), 2) == length,
        be32(put_be32(b, 4, ssrc as int), 4) == ssrc,
{
    lemma_be16_round_trip(b, 0, ip_discovery_code(pkt_type));
    lemma_be16_round_trip(b, 2, length);
    lemma_be32_round_trip(b, 4, ssrc);
}

/// A port written to an IP discovery packet reads back unchanged, and the
/// address before it keeps its extent.
pub proof fn lemma_ip_discovery_port_write_then_read(b: Seq<u8>, port: u16)
    requires
        b.len() >= 10,
    ensures
        ip_discovery_address_end(put_be16(b, ip_discovery_address_end(b), port as int))
            == ip_discovery_address_end(b),
        be16(
            put_be16(b, ip_discovery_address_end(b), port as int),
            ip_discovery_address_end(b),
        ) == port,
{
    lemma_be16_round_trip(b, ip_discovery_address_end(b), port);
}

/// A value written to a field of a UDP keepalive through a mutable view reads
/// back unchanged from any view of the same bytes (its low bits, for a
/// field of fewer bits than the value has).
pub proof fn lemma_keepalive_write_then_read(
    b: Seq<u8>,
    ssrc: u32,
)
    requires
        b.len() >= 4,
    ensures
        be32(put_be32(b, 0, ssrc as int), 0) == ssrc,
{
    lemma_be32_round_trip(b, 0, ssrc);
}

} // verus!
