use discortp::demux::{classify_pt, demux, demux_mut, DemuxType, Demuxed, DemuxedMut};
use discortp::rtcp::{RtcpPacket, RtcpType};
use discortp::rtp::RtpType;

#[test]
fn demux_of_empty_and_one_byte_is_too_small() {
    assert!(matches!(demux(&[]), Demuxed::TooSmall));
    assert!(matches!(demux(&[0x80]), Demuxed::TooSmall));
    let mut one = [200u8];
    assert!(matches!(demux_mut(&mut one), DemuxedMut::TooSmall));
}

#[test]
fn demux_sender_report() {
    let mut pkt = [0u8; 20];
    pkt[0] = 0x81;
    pkt[1] = 200;
    pkt[3] = 4;
    pkt[4..8].copy_from_slice(&[0x12, 0x34, 0x56, 0x78]);
    match demux(&pkt) {
        Demuxed::Rtcp(RtcpPacket::SenderReport(sr)) => {
            assert_eq!(sr.get_ssrc(), 0x1234_5678);
            assert_eq!(sr.get_version(), 2);
            assert_eq!(sr.get_rx_report_count(), 1);
            assert_eq!(sr.get_packet_type(), RtcpType::SenderReport);
            assert_eq!(sr.get_pkt_length(), 4);
            assert_eq!(sr.payload().len(), 12);
        },
        other => panic!("unexpected {:?}", other),
    }
}

#[test]
fn demux_pcmu_rtp_and_too_short_rtp() {
    let mut pkt = [0u8; 12];
    pkt[0] = 0x80;
    match demux(&pkt) {
        Demuxed::Rtp(rtp) => {
            assert_eq!(rtp.get_payload_type(), RtpType::Pcmu);
            assert_eq!(rtp.get_marker(), 0);
        },
        other => panic!("unexpected {:?}", other),
    }
    assert!(matches!(
        demux(&pkt[..11]),
        Demuxed::FailedParse(DemuxType::Rtp(RtpType::Pcmu))
    ));
}

#[test]
fn demux_marker_bit_is_cleared_from_rtp_type() {
    let mut pkt = [0u8; 12];
    pkt[0] = 0x80;
    pkt[1] = 0x80 | 111;
    match demux(&pkt) {
        Demuxed::Rtp(rtp) => {
            assert_eq!(rtp.get_payload_type(), RtpType::Dynamic(111));
            assert_eq!(rtp.get_marker(), 1);
        },
        other => panic!("unexpected {:?}", other),
    }
    assert_eq!(classify_pt(&pkt), DemuxType::Rtp(RtpType::Dynamic(111)));
}

#[test]
fn demux_short_sender_report_fails_without_trying_rtp() {
    let pkt = [0x80u8, 200, 0, 0, 0, 0, 0];
    assert!(matches!(
        demux(&pkt),
        Demuxed::FailedParse(DemuxType::Rtcp(RtcpType::SenderReport))
    ));
}

#[test]
fn demux_rtcp_type_without_view_is_known_type() {
    let pkt = [0x81u8, 203];
    match demux(&pkt) {
        Demuxed::Rtcp(p) => {
            assert!(matches!(p, RtcpPacket::KnownType(RtcpType::Goodbye)));
            assert_eq!(p.packet().len(), 0);
            assert_eq!(p.payload().len(), 0);
            assert_eq!(p.packet_size(), 0);
        },
        other => panic!("unexpected {:?}", other),
    }
}

#[test]
fn demux_rtcp_reserved_code_is_rtp() {
    // 192 is a reserved RTCP code: with the marker bit cleared it is RTP type 64.
    let pkt = [0x80u8, 192];
    assert_eq!(classify_pt(&pkt), DemuxType::Rtp(RtpType::Unassigned(64)));
    assert!(matches!(
        demux(&pkt),
        Demuxed::FailedParse(DemuxType::Rtp(RtpType::Unassigned(64)))
    ));
}

#[test]
fn demux_mut_writes_reach_the_buffer() {
    let mut pkt = [0u8; 16];
    pkt[0] = 0x80;
    pkt[1] = 8;
    match demux_mut(&mut pkt) {
        DemuxedMut::Rtp(mut rtp) => {
            assert_eq!(rtp.get_payload_type(), RtpType::Pcma);
            rtp.set_ssrc(0xdead_beef);
        },
        other => panic!("unexpected {:?}", other),
    }
    assert_eq!(&pkt[8..12], &[0xde, 0xad, 0xbe, 0xef]);
}

#[test]
fn demux_mut_short_rtp_fails() {
    let mut pkt = [0x80u8, 0, 0];
    assert!(matches!(
        demux_mut(&mut pkt),
        DemuxedMut::FailedParse(DemuxType::Rtp(RtpType::Pcmu))
    ));
}
