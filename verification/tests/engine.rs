//! Behavioural tests of the correlation engine: ordering, stream/session
//! pairing, packet assembly, connection independence, and the silently
//! discarding mode.

use qlog_writer::events::{Event, ProtocolEventData};
use qlog_writer::moq::data::{MoqEventData, SessionMessage, StreamType};
use qlog_writer::quic_10::data::{PacketType, Quic10EventData, QuicBaseFrame, QuicFrame, Token};
use qlog_writer::quic_10::data::CryptoFrame;
use qlog_writer::quic_10::data::PacketHeader;
use qlog_writer::quic_10::events::{PacketReceived, PacketSent};
use qlog_writer::writer::{PacketNum, PacketNumSpace, QlogWriter, WriterError};

fn engine_with_header() -> QlogWriter {
    let mut w = QlogWriter::new(true);
    let header = w.log_file_details(None, None, None, None, None, None);
    assert!(header.is_some());
    w
}

fn sent_packet(packet_number: u64) -> PacketSent {
    let header = PacketHeader::new(
        None,
        PacketType::Initial,
        None,
        Some(packet_number),
        None,
        Some(Token::new(None, None, None)),
        Some(20),
        None,
        None,
        None,
        None,
        None,
    );
    PacketSent::new(header, None, None, None, None, None, None, None)
}

fn received_packet(packet_number: u64) -> PacketReceived {
    let header = PacketHeader::new(
        None,
        PacketType::Initial,
        None,
        Some(packet_number),
        None,
        Some(Token::new(None, None, None)),
        Some(20),
        None,
        None,
        None,
        None,
        None,
    );
    PacketReceived::new(header, None, None, None, None, None, None)
}

fn crypto_frame(offset: u64, length: u64) -> QuicFrame {
    QuicFrame::QuicBaseFrame(QuicBaseFrame::CryptoFrame(CryptoFrame::new(offset, length, None)))
}

fn frame_crypto_fields(frame: &QuicFrame) -> (u64, u64) {
    match frame {
        QuicFrame::QuicBaseFrame(QuicBaseFrame::CryptoFrame(c)) => (c.offset, c.length),
        _ => panic!("expected a crypto frame"),
    }
}

#[test]
fn submit_before_header_is_refused() {
    let mut w = QlogWriter::new(true);
    let event = Event::moq_session_update_created(1000, 7);
    let r = w.log_event(event);
    assert!(matches!(r, Err(WriterError::HeaderNotWritten)));
}

#[test]
fn ordinary_events_emit_in_call_order() {
    let mut w = engine_with_header();
    let e1 = Event::moq_session_update_created(1000, 7);
    let e2 = Event::moq_session_update_parsed(2000, 7);
    let out1 = w.log_event(e1).unwrap();
    let out2 = w.log_event(e2).unwrap();
    assert_eq!(out1.len(), 1);
    assert_eq!(out2.len(), 1);
    assert_eq!(
        out1[0].name,
        "moq-transfork-03:session_update_created".to_string()
    );
    assert_eq!(
        out2[0].name,
        "moq-transfork-03:session_update_parsed".to_string()
    );
}

#[test]
fn pending_stream_event_is_buffered_then_patched() {
    let mut w = engine_with_header();
    // tracing id 0 is the placeholder: the stream's session is not yet known
    let stream_event = Event::moq_stream_created(StreamType::Session, 0);
    let out = w.log_event(stream_event).unwrap();
    assert_eq!(out.len(), 0);

    let session_event = Event::moq_session_started_client_created(vec![1], None, 42);
    let out = w.log_event(session_event).unwrap();
    assert_eq!(out.len(), 2);
    // the stream record precedes the session record, patched to the real id
    assert_eq!(out[0].name, "moq-transfork-03:stream_created".to_string());
    assert_eq!(out[0].group_id, Some("42".to_string()));
    assert_eq!(out[1].name, "moq-transfork-03:session_started_created".to_string());
    assert_eq!(out[1].group_id, Some("42".to_string()));
    // the placeholder id never reaches the output
    assert!(out.iter().all(|e| e.group_id.as_deref() != Some("0")));
}

#[test]
fn session_event_without_buffered_stream_goes_out_alone() {
    let mut w = engine_with_header();
    let session_event = Event::moq_session_started_client_created(vec![1], None, 9);
    let out = w.log_event(session_event).unwrap();
    assert_eq!(out.len(), 1);
    assert_eq!(out[0].name, "moq-transfork-03:session_started_created".to_string());
}

#[test]
fn stream_event_with_real_id_is_not_buffered() {
    let mut w = engine_with_header();
    // a session-kind stream whose id is already known is emitted directly
    let stream_event = Event::moq_stream_created(StreamType::Session, 5);
    let out = w.log_event(stream_event).unwrap();
    assert_eq!(out.len(), 1);
}

#[test]
fn non_session_stream_with_placeholder_is_not_buffered() {
    let mut w = engine_with_header();
    let stream_event = Event::moq_stream_created(StreamType::Subscribe, 0);
    let out = w.log_event(stream_event).unwrap();
    assert_eq!(out.len(), 1);
}

#[test]
fn packet_assembly_emits_frames_in_order() {
    let mut w = engine_with_header();
    let cid = "abc123".to_string();
    let key = PacketNum::Number(PacketNumSpace::Initial, 0);
    let overwrote = w.cache_quic_packet_sent(cid.clone(), key, sent_packet(0));
    assert!(!overwrote);
    w.quic_packet_sent_add_frame(cid.clone(), key, crypto_frame(0, 100))
        .unwrap();
    w.quic_packet_sent_add_frame(cid.clone(), key, crypto_frame(100, 50))
        .unwrap();
    let (events, missing) = w.log_quic_packets_sent(cid.clone(), vec![key]).unwrap();
    assert_eq!(events.len(), 1);
    assert_eq!(missing.len(), 0);
    let event = &events[0];
    assert_eq!(event.name, "quic-10:packet_sent".to_string());
    match &event.data {
        ProtocolEventData::Quic10EventData(Quic10EventData::PacketSent(p)) => {
            let frames = p.frames.as_ref().unwrap();
            assert_eq!(frames.len(), 2);
            assert_eq!(frame_crypto_fields(&frames[0]), (0, 100));
            assert_eq!(frame_crypto_fields(&frames[1]), (100, 50));
        }
        _ => panic!("expected a packet-sent payload"),
    }
    // the key is gone: finalizing it again emits nothing
    let (events, missing) = w.log_quic_packets_sent(cid, vec![key]).unwrap();
    assert_eq!(events.len(), 0);
    assert_eq!(missing.len(), 1);
}

#[test]
fn concrete_crypto_packet_scenario() {
    let mut w = engine_with_header();
    let cid = "abc123".to_string();
    let key = PacketNum::Number(PacketNumSpace::Initial, 0);
    w.cache_quic_packet_sent(cid.clone(), key, sent_packet(0));
    w.quic_packet_sent_add_frame(cid.clone(), key, crypto_frame(0, 100))
        .unwrap();
    let (events, missing) = w.log_quic_packets_sent(cid, vec![key]).unwrap();
    assert_eq!(events.len(), 1);
    assert_eq!(missing.len(), 0);
    let event = &events[0];
    assert_eq!(event.name, "quic-10:packet_sent".to_string());
    assert_eq!(event.group_id, Some("abc123".to_string()));
    match &event.data {
        ProtocolEventData::Quic10EventData(Quic10EventData::PacketSent(p)) => {
            assert_eq!(p.header.packet_number, Some(0));
            let frames = p.frames.as_ref().unwrap();
            assert_eq!(frames.len(), 1);
            assert_eq!(frame_crypto_fields(&frames[0]), (0, 100));
        }
        _ => panic!("expected a packet-sent payload"),
    }
}

#[test]
fn finalize_unknown_key_emits_nothing_and_keeps_others() {
    let mut w = engine_with_header();
    let cid = "abc123".to_string();
    let known = PacketNum::Number(PacketNumSpace::Initial, 0);
    let unknown = PacketNum::Number(PacketNumSpace::Handshake, 3);
    w.cache_quic_packet_sent(cid.clone(), known, sent_packet(0));
    let (events, missing) = w.log_quic_packets_sent(cid.clone(), vec![unknown]).unwrap();
    assert_eq!(events.len(), 0);
    assert_eq!(missing, vec![unknown]);
    // the cached key was untouched and still finalizes
    let (events, missing) = w.log_quic_packets_sent(cid, vec![known]).unwrap();
    assert_eq!(events.len(), 1);
    assert_eq!(missing.len(), 0);
}

#[test]
fn finalize_batch_continues_past_missing_keys() {
    let mut w = engine_with_header();
    let cid = "abc123".to_string();
    let k0 = PacketNum::Number(PacketNumSpace::Initial, 0);
    let k1 = PacketNum::Number(PacketNumSpace::Initial, 1);
    let k2 = PacketNum::Number(PacketNumSpace::Initial, 2);
    w.cache_quic_packet_sent(cid.clone(), k0, sent_packet(0));
    w.cache_quic_packet_sent(cid.clone(), k2, sent_packet(2));
    let (events, missing) = w.log_quic_packets_sent(cid, vec![k0, k1, k2]).unwrap();
    assert_eq!(events.len(), 2);
    assert_eq!(missing, vec![k1]);
}

#[test]
fn connections_with_identical_packet_numbers_are_independent() {
    let mut w = engine_with_header();
    let key = PacketNum::Number(PacketNumSpace::Initial, 0);
    w.cache_quic_packet_sent("c1".to_string(), key, sent_packet(0));
    w.cache_quic_packet_sent("c2".to_string(), key, sent_packet(0));
    // a frame added under c1 never shows up under c2
    w.quic_packet_sent_add_frame("c1".to_string(), key, crypto_frame(0, 10))
        .unwrap();
    let (events_c2, missing_c2) = w.log_quic_packets_sent("c2".to_string(), vec![key]).unwrap();
    assert_eq!(events_c2.len(), 1);
    assert_eq!(missing_c2.len(), 0);
    match &events_c2[0].data {
        ProtocolEventData::Quic10EventData(Quic10EventData::PacketSent(p)) => {
            assert!(p.frames.is_none());
        }
        _ => panic!("expected a packet-sent payload"),
    }
    let (events_c1, _) = w.log_quic_packets_sent("c1".to_string(), vec![key]).unwrap();
    assert_eq!(events_c1.len(), 1);
    match &events_c1[0].data {
        ProtocolEventData::Quic10EventData(Quic10EventData::PacketSent(p)) => {
            assert_eq!(p.frames.as_ref().unwrap().len(), 1);
        }
        _ => panic!("expected a packet-sent payload"),
    }
}

#[test]
fn cache_overwrite_is_reported() {
    let mut w = engine_with_header();
    let cid = "abc123".to_string();
    let key = PacketNum::Number(PacketNumSpace::Initial, 0);
    assert!(!w.cache_quic_packet_sent(cid.clone(), key, sent_packet(0)));
    assert!(w.cache_quic_packet_sent(cid, key, sent_packet(0)));
}

#[test]
fn add_frame_to_missing_packet_is_refused() {
    let mut w = engine_with_header();
    let key = PacketNum::Number(PacketNumSpace::Initial, 0);
    let r = w.quic_packet_sent_add_frame("abc123".to_string(), key, crypto_frame(0, 1));
    assert!(matches!(r, Err(WriterError::UnknownPacketKey)));
    let r = w.quic_packet_received_add_frame("abc123".to_string(), key, crypto_frame(0, 1));
    assert!(matches!(r, Err(WriterError::UnknownPacketKey)));
}

#[test]
fn received_packet_keeps_buffering_time() {
    let mut w = engine_with_header();
    let cid = "abc123".to_string();
    let key = PacketNum::Number(PacketNumSpace::Initial, 5);
    w.cache_quic_packet_received_at(cid.clone(), key, received_packet(5), 1234567);
    w.quic_packet_received_add_frame(cid.clone(), key, crypto_frame(7, 8))
        .unwrap();
    let event = w.log_quic_packets_received(cid.clone(), key).unwrap().unwrap();
    assert_eq!(event.name, "quic-10:packet_received".to_string());
    assert_eq!(event.time, 1234567);
    match &event.data {
        ProtocolEventData::Quic10EventData(Quic10EventData::PacketReceived(p)) => {
            assert_eq!(p.frames.as_ref().unwrap().len(), 1);
        }
        _ => panic!("expected a packet-received payload"),
    }
    // the record is gone afterwards
    assert!(w.log_quic_packets_received(cid, key).unwrap().is_none());
}

#[test]
fn update_packet_length_adds_to_recorded_length() {
    let mut w = engine_with_header();
    let cid = "abc123".to_string();
    let key = PacketNum::Number(PacketNumSpace::Initial, 0);
    w.cache_quic_packet_sent(cid.clone(), key, sent_packet(0));
    assert!(w.update_packet_length(cid.clone(), key, 100));
    let (events, _) = w.log_quic_packets_sent(cid.clone(), vec![key]).unwrap();
    match &events[0].data {
        ProtocolEventData::Quic10EventData(Quic10EventData::PacketSent(p)) => {
            // the cached header carried length 20
            assert_eq!(p.header.length, Some(120));
        }
        _ => panic!("expected a packet-sent payload"),
    }
    // no record under the key: reported, nothing changes
    assert!(!w.update_packet_length(cid, key, 1));
}

#[test]
fn disabled_engine_discards_everything() {
    let mut w = QlogWriter::new(false);
    // the header is never owed and never produced
    assert!(w
        .log_file_details(Some("t".to_string()), None, None, None, None, None)
        .is_none());
    let out = w
        .log_event(Event::moq_session_update_created(1, 7))
        .unwrap();
    assert_eq!(out.len(), 0);
    let out = w
        .log_event(Event::moq_stream_created(StreamType::Session, 0))
        .unwrap();
    assert_eq!(out.len(), 0);
    let cid = "abc123".to_string();
    let key = PacketNum::Number(PacketNumSpace::Data, 1);
    w.cache_quic_packet_sent(cid.clone(), key, sent_packet(1));
    w.quic_packet_sent_add_frame(cid.clone(), key, crypto_frame(0, 1))
        .unwrap();
    let (events, missing) = w.log_quic_packets_sent(cid.clone(), vec![key]).unwrap();
    assert_eq!(events.len(), 0);
    assert_eq!(missing.len(), 0);
    w.cache_quic_packet_received(cid.clone(), key, received_packet(1));
    assert!(w.log_quic_packets_received(cid, key).unwrap().is_none());
}

#[test]
fn header_record_names_both_event_schemas() {
    let mut w = QlogWriter::new(true);
    let header = w
        .log_file_details(
            Some("a title".to_string()),
            Some("a description".to_string()),
            None,
            None,
            None,
            Some(vec![("k".to_string(), "v".to_string())]),
        )
        .unwrap();
    assert_eq!(
        header.log_file_details.file_schema,
        "urn:ietf:params:qlog:file:sequential".to_string()
    );
    assert_eq!(
        header.log_file_details.serialization_format,
        "application/qlog+json-seq".to_string()
    );
    assert_eq!(header.log_file_details.title, Some("a title".to_string()));
    assert_eq!(
        header.trace.event_schemas,
        vec![
            "urn:ietf:params:qlog:events:moq-transfork-03".to_string(),
            "urn:ietf:params:qlog:events:quic-10".to_string(),
        ]
    );
    let cf = header.trace.common_fields.as_ref().unwrap();
    assert_eq!(cf.custom_fields, vec![("k".to_string(), "v".to_string())]);
    // after the header, events are accepted
    assert!(w.log_event(Event::moq_session_update_created(1, 7)).is_ok());
}

#[test]
fn is_session_started_client_recognizes_only_client_session_events() {
    let client = Event::moq_session_started_client_created(vec![1], None, 3);
    assert!(client.moq_is_session_started_client());
    let server = Event::moq_session_started_server_created(1, None, 3);
    assert!(!server.moq_is_session_started_client());
    let other = Event::moq_session_update_created(5, 3);
    assert!(!other.moq_is_session_started_client());
    match &client.data {
        ProtocolEventData::MoqEventData(MoqEventData::SessionStarted(
            SessionMessage::SessionClient(sc),
        )) => {
            assert_eq!(sc.supported_versions, vec![1]);
            assert_eq!(sc.tracing_id, 3);
        }
        _ => panic!("expected a client session payload"),
    }
}

#[test]
fn buffered_stream_events_pair_oldest_first() {
    let mut w = engine_with_header();
    assert!(w
        .log_event(Event::moq_stream_created(StreamType::Session, 0))
        .unwrap()
        .is_empty());
    assert!(w
        .log_event(Event::moq_stream_parsed(StreamType::Session, 0))
        .unwrap()
        .is_empty());
    let out = w
        .log_event(Event::moq_session_started_client_created(vec![1], None, 7))
        .unwrap();
    assert_eq!(out.len(), 2);
    assert_eq!(out[0].name, "moq-transfork-03:stream_created".to_string());
    assert_eq!(out[0].group_id, Some("7".to_string()));
    let out = w
        .log_event(Event::moq_session_started_client_created(vec![1], None, 8))
        .unwrap();
    assert_eq!(out.len(), 2);
    assert_eq!(out[0].name, "moq-transfork-03:stream_parsed".to_string());
    assert_eq!(out[0].group_id, Some("8".to_string()));
}
