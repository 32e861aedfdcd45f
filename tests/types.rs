use discortp::rtcp::RtcpType;
use discortp::rtp::RtpType;

#[test]
fn rtp_classification_round_trips_for_every_code() {
    for code in 0u8..128 {
        let t = RtpType::new(code);
        assert_eq!(RtpType::new(t.to_primitive_values().0), t);
        assert_eq!(t.to_primitive_values().0, code);
    }
}

#[test]
fn rtcp_classification_round_trips_for_every_code() {
    for code in 0u8..=255 {
        let t = RtcpType::new(code);
        assert_eq!(RtcpType::new(t.to_primitive_values().0), t);
        assert_eq!(t.to_primitive_values().0, code);
    }
}

#[test]
fn rtp_named_and_catch_all_codes() {
    assert_eq!(RtpType::new(0), RtpType::Pcmu);
    assert_eq!(RtpType::new(3), RtpType::Gsm);
    assert_eq!(RtpType::new(5), RtpType::Dvi4(5));
    assert_eq!(RtpType::new(17), RtpType::Dvi4(17));
    assert_eq!(RtpType::new(8), RtpType::Pcma);
    assert_eq!(RtpType::new(34), RtpType::H263);
    assert_eq!(RtpType::new(1), RtpType::Reserved(1));
    assert_eq!(RtpType::new(19), RtpType::Reserved(19));
    assert_eq!(RtpType::new(72), RtpType::Reserved(72));
    assert_eq!(RtpType::new(76), RtpType::Reserved(76));
    assert_eq!(RtpType::new(77), RtpType::Unassigned(77));
    assert_eq!(RtpType::new(20), RtpType::Unassigned(20));
    assert_eq!(RtpType::new(95), RtpType::Unassigned(95));
    assert_eq!(RtpType::new(96), RtpType::Dynamic(96));
    assert_eq!(RtpType::new(127), RtpType::Dynamic(127));
    assert_eq!(RtpType::new(128), RtpType::Illegal(128));
    assert_eq!(RtpType::new(255), RtpType::Illegal(255));
}

#[test]
fn rtp_codes_of_named_types() {
    assert_eq!(RtpType::Pcmu.to_primitive_values(), (0,));
    assert_eq!(RtpType::G729.to_primitive_values(), (18,));
    assert_eq!(RtpType::CelB.to_primitive_values(), (25,));
    assert_eq!(RtpType::Jpeg.to_primitive_values(), (26,));
    assert_eq!(RtpType::Nv.to_primitive_values(), (28,));
    assert_eq!(RtpType::H261.to_primitive_values(), (31,));
    assert_eq!(RtpType::Mp2t.to_primitive_values(), (33,));
}

#[test]
fn rtcp_named_and_catch_all_codes() {
    assert_eq!(RtcpType::new(194), RtcpType::SmpteMap);
    assert_eq!(RtcpType::new(200), RtcpType::SenderReport);
    assert_eq!(RtcpType::new(201), RtcpType::ReceiverReport);
    assert_eq!(RtcpType::new(203), RtcpType::Goodbye);
    assert_eq!(RtcpType::new(213), RtcpType::SplicingNotification);
    assert_eq!(RtcpType::new(0), RtcpType::Reserved(0));
    assert_eq!(RtcpType::new(192), RtcpType::Reserved(192));
    assert_eq!(RtcpType::new(193), RtcpType::Reserved(193));
    assert_eq!(RtcpType::new(255), RtcpType::Reserved(255));
    assert_eq!(RtcpType::new(196), RtcpType::Unassigned(196));
    assert_eq!(RtcpType::new(214), RtcpType::Unassigned(214));
    assert_eq!(RtcpType::new(7), RtcpType::Unassigned(7));
    assert_eq!(RtcpType::Idms.to_primitive_values(), (211,));
}

#[test]
fn rtcp_type_from_packet_reads_second_byte() {
    assert_eq!(RtcpType::from_packet(&[]), None);
    assert_eq!(RtcpType::from_packet(&[0x80]), None);
    assert_eq!(RtcpType::from_packet(&[0x80, 202]), Some(RtcpType::SourceDescription));
}
