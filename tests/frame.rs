use ledswarm_protocol::frame::{
    ClientMessage, ControllerMessage, Frame, FramePayload, InternalMessage, ProtocolMessage,
};
use ledswarm_protocol::wire::split_buffer;
use ledswarm_protocol::{FrameError, FrameHeader};

fn is_url_safe(c: char) -> bool {
    c.is_ascii_alphanumeric() || c == '_' || c == '-'
}

#[test]
fn new_frame_has_header_defaults() {
    let f = Frame::new();
    assert_eq!(f.header.lifetime, 2);
    assert_eq!(f.header.sender_id, 65535);
    assert_eq!(f.header.target_id, None);
    assert!(!f.header.requires_acknowledgement);
    assert_eq!(f.header.current_tick, 0);
    assert_eq!(f.header.universe, 0);
    assert_eq!(f.header.ranging_bytes, [0, 0, 0, 0]);
    assert_eq!(f.payload, FramePayload::Empty);
    assert_eq!(f.header.message_id.chars().count(), 10);
    assert!(f.header.message_id.chars().all(is_url_safe));
    assert!(has_rfc3339_offset(&f.header.timestamp));
}

fn has_rfc3339_offset(s: &str) -> bool {
    let c: Vec<char> = s.chars().collect();
    let n = c.len();
    n >= 25
        && (c[n - 6] == '+' || c[n - 6] == '-')
        && c[n - 5].is_ascii_digit()
        && c[n - 4].is_ascii_digit()
        && c[n - 3] == ':'
        && c[n - 2].is_ascii_digit()
        && c[n - 1].is_ascii_digit()
}

#[test]
fn join_request_carries_rfc3339_timestamp() {
    let f = Frame::join_request(1);
    assert!(has_rfc3339_offset(&f.header.timestamp));
    assert_eq!(&f.header.timestamp[4..5], "-");
    assert_eq!(&f.header.timestamp[10..11], "T");
}

#[test]
fn stamped_header_keeps_given_time_and_id() {
    let h = FrameHeader::stamped("2024-05-01T12:00:00+02:00".to_string(), "abcdefghij".to_string());
    assert_eq!(h.timestamp, "2024-05-01T12:00:00+02:00");
    assert_eq!(h.message_id, "abcdefghij");
    assert_eq!(h.lifetime, 2);
    assert_eq!(h.sender_id, 65535);
    assert_eq!(h.target_id, None);
    assert!(!h.requires_acknowledgement);
    assert_eq!(h.current_tick, 0);
    assert_eq!(h.universe, 0);
    assert_eq!(h.ranging_bytes, [0, 0, 0, 0]);
}

#[test]
fn message_ids_differ_between_frames() {
    let a = Frame::new();
    let b = Frame::new();
    assert_ne!(a.header.message_id, b.header.message_id);
}

#[test]
fn join_request_composes_builder_calls() {
    let f = Frame::join_request(42);
    assert_eq!(f.payload, FramePayload::ControllerMessage(ControllerMessage::JoinRequest));
    assert!(f.header.requires_acknowledgement);
    assert_eq!(f.header.target_id, Some(0));
    assert_eq!(f.header.current_tick, 42);
    assert_eq!(f.header.sender_id, 65535);
}

#[test]
fn header_setters_overwrite_fields() {
    let f = Frame::new().lifetime(5).sender_id(9).target_id(3).tick(65535).universe(4);
    assert_eq!(f.header.lifetime, 5);
    assert_eq!(f.header.sender_id, 9);
    assert_eq!(f.header.target_id, Some(3));
    assert_eq!(f.header.current_tick, 65535);
    assert_eq!(f.header.universe, 4);
    assert!(!f.header.requires_acknowledgement);
    let g = f.clone().require_confirmation();
    assert!(g.header.requires_acknowledgement);
    assert_eq!(g.payload, f.payload);
}

#[test]
fn last_payload_call_wins() {
    let f = Frame::new()
        .message(ControllerMessage::JoinResponse { assigned_id: 12 })
        .protocol_message(ProtocolMessage::Tick(8));
    assert_eq!(f.payload, FramePayload::ProtocolMessage(ProtocolMessage::Tick(8)));
    let f = f.client_message(ClientMessage::SetBrightness(0.5f32.to_bits()));
    assert_eq!(
        f.payload,
        FramePayload::ClientMessage(ClientMessage::SetBrightness(0.5f32.to_bits()))
    );
    let inner = Frame::join_request(1);
    let f = f.internal_message(InternalMessage::Frame(Box::new(inner.clone())));
    assert_eq!(f.payload, FramePayload::InternalMessage(InternalMessage::Frame(Box::new(inner))));
    let f = f.message(ControllerMessage::JoinRequest);
    assert_eq!(f.payload, FramePayload::ControllerMessage(ControllerMessage::JoinRequest));
}

#[test]
fn clone_keeps_nested_frames() {
    let inner = Frame::new().protocol_message(ProtocolMessage::Acknowledged {
        message_id: "abcdefghij".to_string(),
    });
    let f = Frame::new().internal_message(InternalMessage::Frame(Box::new(inner)));
    assert_eq!(f.clone(), f);
}

#[test]
fn encode_lays_out_marker_body_trailer() {
    let mut f = Frame::new();
    f.header.ranging_bytes = [1, 2, 3, 4];
    let buf = f.encode(&[10, 20, 30]);
    assert_eq!(buf, b"LEDswarm\x0a\x14\x1e\x01\x02\x03\x04".to_vec());
}

#[test]
fn scenario_join_frame_round_trip() {
    let f = Frame::new()
        .sender_id(7)
        .universe(1)
        .message(ControllerMessage::JoinRequest)
        .require_confirmation()
        .target_id(0)
        .tick(100);
    let body: Vec<u8> = vec![7, 0, 1, 2, 3];
    let buf = f.encode(&body);
    assert_eq!(buf.len(), 8 + body.len() + 4);
    let parts = split_buffer(&buf).unwrap();
    assert_eq!(parts.body, body);
    assert_eq!(parts.ranging_bytes, [0, 0, 0, 0]);
    let decoded = Frame::from_parts(Some(f.clone()), parts.ranging_bytes).unwrap();
    assert_eq!(decoded, f);
    assert_eq!(decoded.header.sender_id, 7);
    assert_eq!(decoded.header.universe, 1);
    assert!(decoded.header.requires_acknowledgement);
    assert_eq!(decoded.header.target_id, Some(0));
    assert_eq!(decoded.header.current_tick, 100);
    assert_eq!(decoded.header.lifetime, 2);
    assert_eq!(decoded.header.ranging_bytes, [0, 0, 0, 0]);
    assert_eq!(decoded.payload, FramePayload::ControllerMessage(ControllerMessage::JoinRequest));
}

#[test]
fn trailer_overrides_body_ranging_bytes() {
    let mut sent = Frame::new().tick(3);
    sent.header.ranging_bytes = [9, 8, 7, 6];
    let buf = sent.encode(&[1, 1]);
    let parts = split_buffer(&buf).unwrap();
    assert_eq!(parts.ranging_bytes, [9, 8, 7, 6]);
    let mut from_body = sent.clone();
    from_body.header.ranging_bytes = [0, 0, 0, 0];
    let decoded = Frame::from_parts(Some(from_body), parts.ranging_bytes).unwrap();
    assert_eq!(decoded, sent);
}

#[test]
fn undecodable_body_is_serialize_error() {
    assert_eq!(Frame::from_parts(None, [1, 2, 3, 4]), Err(FrameError::SerializeError));
}

#[test]
fn wrong_marker_is_no_magic_string() {
    let buf = b"LEDSWARMbody\x00\x00\x00\x00".to_vec();
    assert_eq!(split_buffer(&buf), Err(FrameError::NoMagicString(b"LEDSWARM".to_vec())));
    let noise = vec![0xff, 0xfe, 0, 1, 2, 3, 4, 5, 6];
    assert_eq!(
        split_buffer(&noise),
        Err(FrameError::NoMagicString(vec![0xff, 0xfe, 0, 1, 2, 3, 4, 5]))
    );
}

#[test]
fn short_buffers_are_too_short() {
    assert_eq!(split_buffer(&[]), Err(FrameError::BufferTooShort));
    assert_eq!(split_buffer(b"LEDsw"), Err(FrameError::BufferTooShort));
    assert_eq!(split_buffer(b"LEDswarm\x01\x02\x03"), Err(FrameError::BufferTooShort));
}

#[test]
fn shortest_buffer_has_empty_body() {
    let parts = split_buffer(b"LEDswarm\x01\x02\x03\x04").unwrap();
    assert!(parts.body.is_empty());
    assert_eq!(parts.ranging_bytes, [1, 2, 3, 4]);
}

#[test]
fn decode_hands_body_to_parser_and_stamps_trailer() {
    let mut sent = Frame::new().sender_id(7).universe(1).tick(100);
    sent.header.ranging_bytes = [5, 6, 7, 8];
    let body: Vec<u8> = vec![42, 43];
    let buf = sent.encode(&body);
    let mut read = sent.clone();
    read.header.ranging_bytes = [0, 0, 0, 0];
    let decoded = Frame::decode(&buf, |b: &[u8]| {
        if b == [42u8, 43].as_slice() {
            Some(read.clone())
        } else {
            None
        }
    });
    assert_eq!(decoded, Ok(sent));
}

#[test]
fn decode_reports_unreadable_body() {
    let buf = Frame::new().encode(&[1, 2, 3]);
    assert_eq!(Frame::decode(&buf, |_b: &[u8]| None), Err(FrameError::SerializeError));
}

#[test]
fn decode_refuses_bad_marker_without_parsing() {
    let buf = b"LEDswarX\x01\x00\x00\x00\x00".to_vec();
    let decoded = Frame::decode(&buf, |_b: &[u8]| -> Option<Frame> { panic!("body parsed") });
    assert_eq!(decoded, Err(FrameError::NoMagicString(b"LEDswarX".to_vec())));
    let short = b"LEDswarm\x00".to_vec();
    let decoded = Frame::decode(&short, |_b: &[u8]| -> Option<Frame> { panic!("body parsed") });
    assert_eq!(decoded, Err(FrameError::BufferTooShort));
}
