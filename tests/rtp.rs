use discortp::rtp::{MutableRtpExtensionPacket, MutableRtpPacket, RtpExtensionPacket, RtpPacket, RtpType};
use discortp::wrap::{Wrap16, Wrap32};

fn header() -> Vec<u8> {
    vec![
        0x80 | 0x20 | 0x10 | 2, // version 2, padding, extension, two CSRCs
        0x80 | 96,              // marker, dynamic type 96
        0x12, 0x34,             // sequence
        0x01, 0x02, 0x03, 0x04, // timestamp
        0xaa, 0xbb, 0xcc, 0xdd, // ssrc
        0, 0, 0, 1,             // first CSRC
        0, 0, 0, 2,             // second CSRC
    ]
}

#[test]
fn rtp_view_needs_twelve_bytes() {
    assert!(RtpPacket::new(&[0u8; 11]).is_none());
    assert!(RtpPacket::new(&[0u8; 12]).is_some());
    assert_eq!(RtpPacket::minimum_packet_size(), 12);
    let mut b = [0u8; 11];
    assert!(MutableRtpPacket::new(&mut b).is_none());
}

#[test]
fn rtp_fixed_fields() {
    let buf = header();
    let rtp = RtpPacket::new(&buf).unwrap();
    assert_eq!(rtp.get_version(), 2);
    assert_eq!(rtp.get_padding(), 1);
    assert_eq!(rtp.get_extension(), 1);
    assert_eq!(rtp.get_csrc_count(), 2);
    assert_eq!(rtp.get_marker(), 1);
    assert_eq!(rtp.get_payload_type(), RtpType::Dynamic(96));
    assert_eq!(rtp.get_sequence(), Wrap16(0x1234));
    assert_eq!(rtp.get_timestamp(), Wrap32(0x0102_0304));
    assert_eq!(rtp.get_ssrc(), 0xaabb_ccdd);
}

#[test]
fn rtp_two_csrcs_in_twenty_bytes() {
    let buf = header();
    assert_eq!(buf.len(), 20);
    let rtp = RtpPacket::new(&buf).unwrap();
    assert_eq!(rtp.get_csrc_list(), vec![1, 2]);
    assert_eq!(rtp.get_csrc_list_raw().len(), 8);
    assert_eq!(rtp.packet_size(), 20);
    assert_eq!(rtp.payload().len(), 0);

    let mut longer = header();
    longer.extend_from_slice(&[9, 8, 7]);
    let rtp = RtpPacket::new(&longer).unwrap();
    assert_eq!(rtp.payload(), &[9, 8, 7]);
    assert_eq!(rtp.packet().len(), 23);
}

#[test]
fn rtp_csrc_list_is_cut_short_by_the_buffer() {
    let mut buf = header();
    buf[0] = 0x80 | 15;
    buf.truncate(18);
    let rtp = RtpPacket::new(&buf).unwrap();
    assert_eq!(rtp.get_csrc_list_raw().len(), 6);
    assert_eq!(rtp.get_csrc_list(), vec![1]);
    assert_eq!(rtp.packet_size(), 18);
    assert_eq!(rtp.payload().len(), 0);
}

#[test]
fn rtp_from_packet_copies_every_field() {
    let mut buf = header();
    buf.push(0x55);
    let owned = RtpPacket::new(&buf).unwrap().from_packet();
    assert_eq!(owned.version, 2);
    assert_eq!(owned.csrc_count, 2);
    assert_eq!(owned.payload_type, RtpType::Dynamic(96));
    assert_eq!(owned.sequence, Wrap16(0x1234));
    assert_eq!(owned.csrc_list, vec![1, 2]);
    assert_eq!(owned.payload, vec![0x55]);
}

#[test]
fn rtp_written_fields_read_back() {
    let mut buf = vec![0u8; 24];
    {
        let mut rtp = MutableRtpPacket::new(&mut buf).unwrap();
        rtp.set_version(2);
        rtp.set_padding(0);
        rtp.set_extension(1);
        rtp.set_csrc_count(2);
        rtp.set_marker(1);
        rtp.set_payload_type(RtpType::Pcma);
        rtp.set_sequence(Wrap16(65535) + 1);
        rtp.set_timestamp(Wrap32(0xfedc_ba98));
        rtp.set_ssrc(77);
        rtp.set_csrc_list(&[0x0102_0304, 5]);
        rtp.set_payload(&[1, 2, 3]);
        assert_eq!(rtp.get_ssrc(), 77);
    }
    let rtp = RtpPacket::new(&buf).unwrap();
    assert_eq!(rtp.get_version(), 2);
    assert_eq!(rtp.get_padding(), 0);
    assert_eq!(rtp.get_extension(), 1);
    assert_eq!(rtp.get_csrc_count(), 2);
    assert_eq!(rtp.get_marker(), 1);
    assert_eq!(rtp.get_payload_type(), RtpType::Pcma);
    assert_eq!(rtp.get_sequence(), Wrap16(0));
    assert_eq!(rtp.get_timestamp(), Wrap32(0xfedc_ba98));
    assert_eq!(rtp.get_ssrc(), 77);
    assert_eq!(rtp.get_csrc_list(), vec![0x0102_0304, 5]);
    assert_eq!(rtp.payload(), &[1, 2, 3, 0]);
    assert_eq!(&buf[..4], &[0x80 | 0x10 | 2, 0x80 | 8, 0, 0]);
}

#[test]
fn rtp_sub_byte_setters_keep_neighbours_and_mask() {
    let mut buf = [0xffu8; 12];
    let mut rtp = MutableRtpPacket::new(&mut buf).unwrap();
    rtp.set_version(0);
    assert_eq!(rtp.get_padding(), 1);
    assert_eq!(rtp.get_csrc_count(), 15);
    rtp.set_csrc_count(0x13);
    assert_eq!(rtp.get_csrc_count(), 3);
    assert_eq!(rtp.get_version(), 0);
    assert_eq!(rtp.packet()[0], 0x33);
}

#[test]
fn rtp_extension_view() {
    let buf = [0xbe, 0xde, 0, 1, 1, 2, 3, 4, 5, 6];
    let ext = RtpExtensionPacket::new(&buf).unwrap();
    assert_eq!(ext.get_info(), 0xbede);
    assert_eq!(ext.get_length(), 1);
    assert_eq!(ext.get_ext_data(), vec![1, 2, 3, 4]);
    assert_eq!(ext.payload(), &[5, 6]);
    assert_eq!(ext.packet_size(), 8);
    assert!(RtpExtensionPacket::new(&buf[..3]).is_none());
}

#[test]
fn rtp_extension_data_is_cut_short_by_the_buffer() {
    let buf = [0, 0, 0, 3, 1, 2, 3, 4, 5];
    let ext = RtpExtensionPacket::new(&buf).unwrap();
    assert_eq!(ext.get_ext_data_raw(), &[1, 2, 3, 4, 5]);
    assert_eq!(ext.payload().len(), 0);
    let owned = ext.from_packet();
    assert_eq!(owned.length, 3);
    assert_eq!(owned.ext_data, vec![1, 2, 3, 4, 5]);
}

#[test]
fn rtp_extension_written_fields_read_back() {
    let mut buf = [0u8; 12];
    {
        let mut ext = MutableRtpExtensionPacket::new(&mut buf).unwrap();
        ext.set_info(0x1000);
        ext.set_length(1);
        ext.set_ext_data(&[7, 7, 7, 7]);
        ext.set_payload(&[9]);
    }
    let ext = RtpExtensionPacket::new(&buf).unwrap();
    assert_eq!(ext.get_info(), 0x1000);
    assert_eq!(ext.get_ext_data(), vec![7, 7, 7, 7]);
    assert_eq!(ext.payload(), &[9, 0, 0, 0]);
}
