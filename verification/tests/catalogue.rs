//! Tests of the payload catalogue, the envelope, the helpers and the
//! wire framing.

use qlog_writer::events::{Event, ProtocolEventData, RawInfo};
use qlog_writer::frame_record;
use qlog_writer::logfile::{
    ClockType, CommonFields, Epoch, ReferenceTime, TimeFormat, TraceSeq, VantagePoint,
    VantagePointType,
};
use qlog_writer::moq::data::{MoqEventData, StreamType};
use qlog_writer::quic_10::data::{
    CryptoFrame, FrameType, PacketHeader, PacketType, QuicBaseFrame, StreamFrame, Token,
};
use qlog_writer::quic_10::events::PacketSent;
use qlog_writer::util::{bytes_to_hexstring, is_empty_or_none, u64_to_dec_string};
use qlog_writer::writer::{PacketNum, PacketNumSpace};

#[test]
fn hexstring_renders_two_upper_case_digits_per_byte() {
    assert_eq!(bytes_to_hexstring(&[]), "".to_string());
    assert_eq!(bytes_to_hexstring(&[0x0f, 0xa0]), "0FA0".to_string());
    assert_eq!(bytes_to_hexstring(&[0x00, 0xff, 0x1e]), "00FF1E".to_string());
}

#[test]
fn decimal_rendering_is_exact() {
    assert_eq!(u64_to_dec_string(0), "0".to_string());
    assert_eq!(u64_to_dec_string(7), "7".to_string());
    assert_eq!(u64_to_dec_string(1234567890), "1234567890".to_string());
    assert_eq!(
        u64_to_dec_string(u64::MAX),
        "18446744073709551615".to_string()
    );
}

#[test]
fn frame_record_wraps_payload_in_separator_and_line_feed() {
    assert_eq!(frame_record(b"x"), vec![0x1e, b'x', 0x0a]);
    assert_eq!(frame_record(b""), vec![0x1e, 0x0a]);
}

#[test]
fn raw_info_records_length_and_truncates_data() {
    let r = RawInfo::new(Some(5), None);
    assert_eq!(r.length, Some(5));
    assert_eq!(r.payload_length, None);
    assert_eq!(r.data, None);

    let short = RawInfo::new(None, Some(&[0xab, 0xcd]));
    assert_eq!(short.payload_length, Some(2));
    assert_eq!(short.data, Some("ABCD".to_string()));

    // only the first 64 bytes are reproduced
    let long_payload = [0x11u8; 100];
    let long = RawInfo::new(Some(100), Some(&long_payload));
    assert_eq!(long.payload_length, Some(100));
    let hex = long.data.unwrap();
    assert_eq!(hex.len(), 128);
    assert!(hex.chars().all(|c| c == '1'));
}

#[test]
fn packet_num_labels() {
    assert_eq!(
        PacketNum::Number(PacketNumSpace::Initial, 7).label(),
        "Initial:7".to_string()
    );
    assert_eq!(
        PacketNum::Number(PacketNumSpace::Handshake, 123).label(),
        "Handshake:123".to_string()
    );
    assert_eq!(
        PacketNum::Number(PacketNumSpace::Data, 0).label(),
        "Data:0".to_string()
    );
    assert_eq!(PacketNum::Retry.label(), "Retry".to_string());
    assert_eq!(PacketNum::StatelessReset.label(), "StatelessReset".to_string());
    assert_eq!(
        PacketNum::VersionNegotiation.label(),
        "VersionNegotiation".to_string()
    );
    assert_eq!(PacketNum::Unknown.label(), "Unknown".to_string());
}

#[test]
fn frame_variant_labels() {
    let crypto = QuicBaseFrame::CryptoFrame(CryptoFrame::new(0, 1, None));
    assert_eq!(crypto.variant_label(), "CryptoFrame".to_string());
    let stream = QuicBaseFrame::StreamFrame(StreamFrame::new(1, 0, 10, None, None));
    assert_eq!(stream.variant_label(), "StreamFrame".to_string());
}

#[test]
fn event_envelope_defaults() {
    let e = Event::new_at(
        "moq-transfork-03:session_update_created",
        ProtocolEventData::MoqEventData(MoqEventData::StreamCreated(
            qlog_writer::moq::events::Stream::new(StreamType::Info),
        )),
        Some("9".to_string()),
        777,
    );
    assert_eq!(e.time, 777);
    assert_eq!(e.name, "moq-transfork-03:session_update_created".to_string());
    assert_eq!(e.path, Some("".to_string()));
    assert_eq!(e.time_format, None);
    assert_eq!(e.group_id, Some("9".to_string()));
    assert!(e.custom_fields.is_empty());
    assert_eq!(e.get_name(), "moq-transfork-03:session_update_created");
    assert_eq!(e.get_group_id(), Some(&"9".to_string()));
}

#[test]
fn set_group_id_patches_only_the_id() {
    let mut e = Event::moq_stream_created(StreamType::Session, 0);
    assert_eq!(e.group_id, Some("0".to_string()));
    let real = "31".to_string();
    e.set_group_id(Some(&real));
    assert_eq!(e.group_id, Some("31".to_string()));
    assert_eq!(e.name, "moq-transfork-03:stream_created".to_string());
    e.set_group_id(None);
    assert_eq!(e.group_id, None);
}

#[test]
fn moq_event_names_and_group_ids() {
    let e = Event::moq_fetch_update_created(3, 1042);
    assert_eq!(e.name, "moq-transfork-03:fetch_update_created".to_string());
    assert_eq!(e.group_id, Some("1042".to_string()));
    let e = Event::moq_group_parsed(1, 2, 3);
    assert_eq!(e.name, "moq-transfork-03:group_parsed".to_string());
}

#[test]
fn moq_subscription_defaults_bounds_to_zero() {
    let e = Event::moq_subscription_started_created(
        1,
        vec!["a".to_string()],
        2,
        3,
        None,
        Some(17),
        4,
    );
    match &e.data {
        ProtocolEventData::MoqEventData(MoqEventData::SubscriptionStarted(s)) => {
            assert_eq!(s.group_min, 0);
            assert_eq!(s.group_max, 17);
            assert_eq!(s.subscribe_id, 1);
        }
        _ => panic!("expected a subscription payload"),
    }
}

#[test]
fn moq_frame_event_carries_truncated_payload() {
    let payload = [0x2a_u8; 3];
    let e = Event::moq_frame_created(Some(3), Some(&payload), 8);
    match &e.data {
        ProtocolEventData::MoqEventData(MoqEventData::FrameCreated(f)) => {
            assert_eq!(f.payload.length, Some(3));
            assert_eq!(f.payload.payload_length, Some(3));
            assert_eq!(f.payload.data, Some("2A2A2A".to_string()));
        }
        _ => panic!("expected a frame payload"),
    }
}

#[test]
fn quic_event_names_carry_the_namespace() {
    let e = Event::quic_10_spin_bit_updated(true, Some("c".to_string()));
    assert_eq!(e.name, "quic-10:spin_bit_updated".to_string());
    assert_eq!(e.group_id, Some("c".to_string()));
    let e = Event::quic_10_mtu_updated(None, 1500, None, None);
    assert_eq!(e.name, "quic-10:mtu_updated".to_string());
    assert_eq!(e.group_id, None);
}

#[test]
fn packet_header_applies_quic_bit_default() {
    let h = PacketHeader::new(
        None,
        PacketType::OneRtt,
        None,
        Some(42),
        None,
        None,
        None,
        None,
        None,
        None,
        None,
        None,
    );
    assert!(h.quic_bit);
    assert_eq!(h.packet_number, Some(42));
    let h = PacketHeader::new(
        Some(false),
        PacketType::Retry,
        None,
        None,
        None,
        Some(Token::new(None, None, None)),
        None,
        None,
        None,
        None,
        None,
        None,
    );
    assert!(!h.quic_bit);
}

#[test]
fn packet_header_update_length_is_checked() {
    let mut h = PacketHeader::new(
        None,
        PacketType::Initial,
        None,
        Some(0),
        None,
        Some(Token::new(None, None, None)),
        Some(10),
        None,
        None,
        None,
        None,
        None,
    );
    h.update_packet_length(100);
    assert_eq!(h.length, Some(110));
    // a sum beyond the field keeps the old value
    h.update_packet_length(u16::MAX);
    assert_eq!(h.length, Some(110));
    let mut no_len = PacketHeader::new(
        None,
        PacketType::OneRtt,
        None,
        Some(1),
        None,
        None,
        None,
        None,
        None,
        None,
        None,
        None,
    );
    no_len.update_packet_length(5);
    assert_eq!(no_len.length, None);
}

#[test]
fn packet_sent_add_frame_starts_and_extends_the_list() {
    let header = PacketHeader::new(
        None,
        PacketType::OneRtt,
        None,
        Some(1),
        None,
        None,
        None,
        None,
        None,
        None,
        None,
        None,
    );
    let mut p = PacketSent::new(header, None, None, None, None, None, None, None);
    assert!(p.frames.is_none());
    assert!(!p.is_mtu_probe_packet);
    p.add_frame(qlog_writer::quic_10::data::QuicFrame::QuicBaseFrame(
        QuicBaseFrame::CryptoFrame(CryptoFrame::new(0, 5, None)),
    ));
    assert_eq!(p.frames.as_ref().unwrap().len(), 1);
    p.add_frame(qlog_writer::quic_10::data::QuicFrame::QuicBaseFrame(
        QuicBaseFrame::CryptoFrame(CryptoFrame::new(5, 6, None)),
    ));
    assert_eq!(p.frames.as_ref().unwrap().len(), 2);
}

#[test]
fn frames_carry_their_discriminator() {
    let c = CryptoFrame::new(3, 4, None);
    assert_eq!(c.frame_type, FrameType::Crypto);
    assert_eq!(c.offset, 3);
    assert_eq!(c.length, 4);
    let s = StreamFrame::new(9, 0, 10, None, None);
    assert_eq!(s.frame_type, FrameType::Stream);
    assert!(!s.fin);
}

#[test]
fn reference_time_and_epoch_defaults() {
    let t = ReferenceTime::default();
    match t.epoch {
        Epoch::Rfc3339DateTime(s) => assert_eq!(s, "1970-01-01T00:00:00.000Z".to_string()),
        Epoch::Unknown => panic!("expected the epoch date"),
    }
    let t = ReferenceTime::new(Some(ClockType::Monotonic), Some(Epoch::Unknown), None);
    assert!(matches!(t.epoch, Epoch::Unknown));
    let t = ReferenceTime::new(None, None, Some("2024-01-01T00:00:00Z".to_string()));
    assert!(matches!(t.clock_type, ClockType::System));
    assert_eq!(t.wall_clock_time, Some("2024-01-01T00:00:00Z".to_string()));
}

#[test]
fn common_fields_defaults() {
    let cf = CommonFields::default();
    assert_eq!(cf.path, Some("".to_string()));
    assert_eq!(cf.time_format, Some(TimeFormat::RelativeToEpoch));
    assert!(cf.group_id.is_none());
    assert!(cf.custom_fields.is_empty());
}

#[test]
fn trace_seq_lists_both_event_schemas() {
    let t = TraceSeq::new(Some("t".to_string()), None, None, None);
    assert_eq!(
        t.event_schemas,
        vec![
            "urn:ietf:params:qlog:events:moq-transfork-03".to_string(),
            "urn:ietf:params:qlog:events:quic-10".to_string(),
        ]
    );
}

#[test]
fn vantage_point_construction() {
    let v = VantagePoint::new(Some("client-0".to_string()), VantagePointType::Client, None);
    assert!(matches!(v.vp_type, VantagePointType::Client));
    let v = VantagePoint::new(None, VantagePointType::Network, Some(VantagePointType::Client));
    assert!(matches!(v.flow, Some(VantagePointType::Client)));
}

#[test]
fn empty_or_none_paths() {
    assert!(is_empty_or_none(&None));
    assert!(is_empty_or_none(&Some("".to_string())));
    assert!(!is_empty_or_none(&Some("p".to_string())));
}
