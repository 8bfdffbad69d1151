use unifi_protect_backup::codec::{frame_messages, FrameError, ProtectWebSocketRawFrames};

fn message(action: &[u8], data: &[u8]) -> Vec<u8> {
    let mut out = vec![1u8, 1, 0, 0, 0, 0, (action.len() / 256) as u8, (action.len() % 256) as u8];
    out.extend_from_slice(action);
    out.extend_from_slice(&[2u8, 1, 0, 0, 0, 0, (data.len() / 256) as u8, (data.len() % 256) as u8]);
    out.extend_from_slice(data);
    out
}

#[test]
fn frames_round_trip() {
    let action = r#"{"action":"add","newUpdateId":"6f1c","modelKey":"event","id":"evt1"}"#;
    let data = r#"{"type":"motion","id":"evt1","start":1700000000000}"#;
    let bytes = frame_messages(action, data);
    assert_eq!(bytes.len(), 16 + action.len() + data.len());
    let frames = ProtectWebSocketRawFrames::from_bytes(&bytes).expect("well formed");
    assert_eq!(frames.action, action);
    assert_eq!(frames.data, data);
}

#[test]
fn frames_round_trip_non_ascii() {
    let action = "{\"id\":\"caméra ✓\"}";
    let data = "{}";
    let bytes = frame_messages(action, data);
    let frames = ProtectWebSocketRawFrames::from_bytes(&bytes).expect("well formed");
    assert_eq!(frames.action.as_bytes(), action.as_bytes());
    assert_eq!(frames.data, "{}");
}

#[test]
fn long_payload_uses_two_length_bytes() {
    let action = "a".repeat(300);
    let bytes = frame_messages(&action, "{}");
    assert_eq!(bytes[6], 1);
    assert_eq!(bytes[7], 44);
    let frames = ProtectWebSocketRawFrames::from_bytes(&bytes).expect("well formed");
    assert_eq!(frames.action, action);
}

#[test]
fn short_message_is_rejected() {
    let r = ProtectWebSocketRawFrames::from_bytes(&[0u8; 15]);
    assert_eq!(r.err(), Some(FrameError::TooShort));
}

#[test]
fn action_length_past_buffer_is_rejected() {
    let mut bytes = message(b"{}", b"{}");
    bytes[7] = 20;
    let r = ProtectWebSocketRawFrames::from_bytes(&bytes);
    assert_eq!(r.err(), Some(FrameError::ActionOverrun));
}

#[test]
fn data_length_past_buffer_is_rejected() {
    let mut bytes = message(b"{}", b"{}");
    let last = bytes.len() - 3;
    bytes[last] = 9;
    let r = ProtectWebSocketRawFrames::from_bytes(&bytes);
    assert_eq!(r.err(), Some(FrameError::DataOverrun));
}

#[test]
fn invalid_utf8_is_rejected() {
    let r = ProtectWebSocketRawFrames::from_bytes(&message(&[0xff, 0xfe], b"{}"));
    assert_eq!(r.err(), Some(FrameError::ActionNotUtf8));
    let r = ProtectWebSocketRawFrames::from_bytes(&message(b"{}", &[0xc3]));
    assert_eq!(r.err(), Some(FrameError::DataNotUtf8));
}

#[test]
fn single_byte_length_mode() {
    let bytes = message(b"{\"a\":1}", b"{\"b\":2}");
    assert_eq!(bytes[6], 0);
    let frames = ProtectWebSocketRawFrames::from_bytes(&bytes).expect("well formed");
    assert_eq!(frames.action, "{\"a\":1}");
    assert_eq!(frames.data, "{\"b\":2}");
}
