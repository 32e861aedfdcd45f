use discortp::rtcp::report::{
    MutableReportBlockPacket, MutableSenderInfoPacket, MutableSenderReportPacket,
    ReceiverReportPacket, ReportBlockPacket, SenderInfoPacket, SenderReportPacket,
};
use discortp::rtcp::{MutableRtcpPacket, Rtcp, RtcpPacket, RtcpType};

#[test]
fn rtcp_packet_new_dispatches_on_type() {
    let rr = [0x80u8, 201, 0, 1, 0, 0, 0, 9];
    match RtcpPacket::new(&rr) {
        Some(RtcpPacket::ReceiverReport(p)) => {
            assert_eq!(p.get_ssrc(), 9);
            assert_eq!(p.get_pkt_length(), 1);
        },
        other => panic!("unexpected {:?}", other),
    }
    assert!(RtcpPacket::new(&rr[..7]).is_none());
    assert!(RtcpPacket::new(&rr[..1]).is_none());
    assert!(matches!(
        RtcpPacket::new(&[0x80, 207]),
        Some(RtcpPacket::KnownType(RtcpType::ExtendedReport))
    ));
}

#[test]
fn rtcp_decode_known_type_ignores_length() {
    assert!(matches!(
        RtcpType::Avb.decode(&[]),
        Some(RtcpPacket::KnownType(RtcpType::Avb))
    ));
    assert!(RtcpType::SenderReport.decode(&[0u8; 7]).is_none());
    let mut b = [0u8; 3];
    assert!(matches!(
        RtcpType::Unassigned(3).decode_mut(&mut b),
        Some(MutableRtcpPacket::KnownType(RtcpType::Unassigned(3)))
    ));
}

#[test]
fn rtcp_from_packet_copies_report() {
    let sr = [0x80u8, 200, 0, 6, 1, 2, 3, 4, 0xaa];
    let p = RtcpPacket::new(&sr).unwrap();
    assert_eq!(p.packet_size(), 8);
    assert_eq!(p.payload(), &[0xaa]);
    assert_eq!(p.packet().len(), 9);
    match p.from_packet() {
        Rtcp::SenderReport(s) => {
            assert_eq!(s.ssrc, 0x0102_0304);
            assert_eq!(s.packet_type, RtcpType::SenderReport);
            assert_eq!(s.pkt_length, 6);
            assert_eq!(s.payload, vec![0xaa]);
        },
        other => panic!("unexpected {:?}", other),
    }
}

#[test]
fn mutable_rtcp_packet_writes_reach_the_buffer() {
    let mut buf = [0x80u8, 200, 0, 0, 0, 0, 0, 0];
    match MutableRtcpPacket::new(&mut buf) {
        Some(MutableRtcpPacket::SenderReport(mut s)) => {
            s.set_rx_report_count(3);
            s.set_pkt_length(0x0102);
        },
        other => panic!("unexpected {:?}", other),
    }
    assert_eq!(buf[..4], [0x83, 200, 1, 2]);
    let p = SenderReportPacket::new(&buf).unwrap();
    assert_eq!(p.get_rx_report_count(), 3);
}

#[test]
fn sender_report_written_fields_read_back() {
    let mut buf = [0u8; 10];
    {
        let mut s = MutableSenderReportPacket::new(&mut buf).unwrap();
        s.set_version(2);
        s.set_padding(1);
        s.set_rx_report_count(31);
        s.set_packet_type(RtcpType::SenderReport);
        s.set_ssrc(0xffff_fffe);
        s.set_payload(&[4, 5]);
    }
    let s = SenderReportPacket::new(&buf).unwrap();
    assert_eq!(s.get_version(), 2);
    assert_eq!(s.get_padding(), 1);
    assert_eq!(s.get_rx_report_count(), 31);
    assert_eq!(s.get_packet_type(), RtcpType::SenderReport);
    assert_eq!(s.get_ssrc(), 0xffff_fffe);
    assert_eq!(s.payload(), &[4, 5]);
    assert_eq!(buf[0], 0xbf);
}

#[test]
fn receiver_report_view_needs_eight_bytes() {
    assert!(ReceiverReportPacket::new(&[0u8; 7]).is_none());
    assert_eq!(ReceiverReportPacket::minimum_packet_size(), 8);
}

#[test]
fn sender_info_fields() {
    let mut buf = [0u8; 21];
    for (i, b) in buf.iter_mut().enumerate() {
        *b = i as u8;
    }
    let si = SenderInfoPacket::new(&buf).unwrap();
    assert_eq!(si.get_ntp_timestamp_second(), 0x0001_0203);
    assert_eq!(si.get_ntp_timestamp_fraction(), 0x0405_0607);
    assert_eq!(si.get_rtp_timestamp(), 0x0809_0a0b);
    assert_eq!(si.get_pkt_count(), 0x0c0d_0e0f);
    assert_eq!(si.get_byte_count(), 0x1011_1213);
    assert_eq!(si.payload(), &[20]);
    assert!(SenderInfoPacket::new(&buf[..19]).is_none());
}

#[test]
fn sender_info_written_fields_read_back() {
    let mut buf = [0u8; 20];
    {
        let mut si = MutableSenderInfoPacket::new(&mut buf).unwrap();
        si.set_pkt_count(1000);
        si.set_byte_count(160_000);
    }
    let si = SenderInfoPacket::new(&buf).unwrap();
    assert_eq!(si.get_pkt_count(), 1000);
    assert_eq!(si.get_byte_count(), 160_000);
    assert_eq!(si.get_ntp_timestamp_second(), 0);
}

#[test]
fn report_block_fields() {
    let buf = [
        0, 0, 0, 7, // ssrc
        64,         // fraction lost
        0x01, 0x02, 0x03, // cumulative lost
        0, 2, // cycles
        0xff, 0xfe, // sequence
        0, 0, 1, 0, // jitter
        1, 1, 1, 1, // last SR
        0, 1, 0, 0, // delay
    ];
    let rb = ReportBlockPacket::new(&buf).unwrap();
    assert_eq!(rb.get_ssrc(), 7);
    assert_eq!(rb.get_fraction_lost(), 64);
    assert_eq!(rb.get_cumulative_pkts_lost(), 0x0001_0203);
    assert_eq!(rb.get_cycles(), 2);
    assert_eq!(rb.get_sequence(), 0xfffe);
    assert_eq!(rb.get_interarrival_jitter(), 256);
    assert_eq!(rb.get_last_sr_timestamp(), 0x0101_0101);
    assert_eq!(rb.get_last_sr_delay(), 0x0001_0000);
    assert_eq!(rb.payload().len(), 0);
    assert!(ReportBlockPacket::new(&buf[..23]).is_none());
    let owned = rb.from_packet();
    assert_eq!(owned.cumulative_pkts_lost, 0x0001_0203);
}

#[test]
fn report_block_cumulative_loss_keeps_low_24_bits() {
    let mut buf = [0u8; 24];
    {
        let mut rb = MutableReportBlockPacket::new(&mut buf).unwrap();
        rb.set_fraction_lost(9);
        rb.set_cumulative_pkts_lost(0x0aff_ffff);
        rb.set_sequence(5);
    }
    assert_eq!(buf[4..8], [9, 0xff, 0xff, 0xff]);
    let rb = ReportBlockPacket::new(&buf).unwrap();
    assert_eq!(rb.get_cumulative_pkts_lost(), 0x00ff_ffff);
    assert_eq!(rb.get_sequence(), 5);
}
