use discortp::discord::{
    IpDiscoveryPacket, IpDiscoveryType, KeepalivePacket, MutableIpDiscoveryPacket,
    MutableKeepalivePacket,
};

#[test]
fn ip_discovery_standard_packet() {
    let mut buf = vec![0u8; IpDiscoveryPacket::const_packet_size()];
    assert_eq!(buf.len(), 74);
    assert_eq!(MutableIpDiscoveryPacket::const_packet_size(), 74);
    {
        let mut p = MutableIpDiscoveryPacket::new(&mut buf).unwrap();
        p.set_pkt_type(IpDiscoveryType::Response);
        p.set_length(70);
        p.set_ssrc(0x0102_0304);
        p.set_address(b"10.0.0.1\0");
        p.set_port(50000);
    }
    let p = IpDiscoveryPacket::new(&buf).unwrap();
    assert_eq!(p.get_pkt_type(), IpDiscoveryType::Response);
    assert_eq!(p.get_length(), 70);
    assert_eq!(p.get_ssrc(), 0x0102_0304);
    assert_eq!(p.get_address().len(), 64);
    assert_eq!(&p.get_address_raw()[..9], b"10.0.0.1\0");
    assert_eq!(p.get_port(), 50000);
    assert_eq!(&buf[72..74], &[0xc3, 0x50]);
    assert_eq!(p.packet_size(), 74);
    assert_eq!(p.payload().len(), 0);
    let owned = p.from_packet();
    assert_eq!(owned.port, 50000);
    assert!(owned.payload.is_empty());
}

#[test]
fn ip_discovery_needs_ten_bytes() {
    assert!(IpDiscoveryPacket::new(&[0u8; 9]).is_none());
    assert_eq!(IpDiscoveryPacket::minimum_packet_size(), 10);
}

#[test]
fn ip_discovery_short_length_gives_empty_address() {
    let buf = [0, 1, 0, 2, 0, 0, 0, 5, 0x12, 0x34];
    let p = IpDiscoveryPacket::new(&buf).unwrap();
    assert_eq!(p.get_pkt_type(), IpDiscoveryType::Request);
    assert_eq!(p.get_address().len(), 0);
    assert_eq!(p.get_port(), 0x1234);
    assert_eq!(p.packet_size(), 10);
}

#[test]
fn ip_discovery_address_leaves_room_for_the_port() {
    let buf = [0, 9, 0, 70, 0, 0, 0, 5, 1, 2, 3, 4, 0xab, 0xcd];
    let p = IpDiscoveryPacket::new(&buf).unwrap();
    assert_eq!(p.get_pkt_type(), IpDiscoveryType::Other(9));
    assert_eq!(p.get_address(), vec![1, 2, 3, 4]);
    assert_eq!(p.get_port(), 0xabcd);
    assert_eq!(p.packet_size(), 14);
}

#[test]
fn ip_discovery_type_codes() {
    assert_eq!(IpDiscoveryType::new(1), IpDiscoveryType::Request);
    assert_eq!(IpDiscoveryType::new(2), IpDiscoveryType::Response);
    assert_eq!(IpDiscoveryType::new(0), IpDiscoveryType::Other(0));
    assert_eq!(IpDiscoveryType::Other(300).to_primitive_values(), (300,));
    assert_eq!(IpDiscoveryType::Response.to_primitive_values(), (2,));
}

#[test]
fn keepalive_has_no_payload() {
    let buf = [0, 0, 1, 0, 0xff, 0xff];
    let k = KeepalivePacket::new(&buf).unwrap();
    assert_eq!(k.get_ssrc(), 256);
    assert_eq!(k.payload().len(), 0);
    assert_eq!(k.packet_size(), 4);
    assert_eq!(k.packet().len(), 6);
    assert!(KeepalivePacket::new(&buf[..3]).is_none());
    let mut out = [0u8; 4];
    MutableKeepalivePacket::new(&mut out).unwrap().set_ssrc(7);
    assert_eq!(out, [0, 0, 0, 7]);
}
