use rekos::json::{Json, JsonMember, JsonNumber};
use rekos::kstars::{decode_media_frame, message_is_type, METADATA_PACKET};
use serde_json::Value;

fn to_json(v: &Value) -> Json {
    match v {
        Value::Null => Json::Null,
        Value::Bool(b) => Json::Bool(*b),
        Value::Number(n) => Json::Number(if let Some(u) = n.as_u64() {
            JsonNumber::PosInt(u)
        } else if let Some(i) = n.as_i64() {
            JsonNumber::NegInt(i)
        } else {
            JsonNumber::Float(n.as_f64().unwrap_or(0.0).to_bits())
        }),
        Value::String(s) => Json::Str(s.clone()),
        Value::Array(a) => Json::Array(a.iter().map(to_json).collect()),
        Value::Object(m) => Json::Object(
            m.iter().map(|(k, v)| JsonMember { key: k.clone(), value: to_json(v) }).collect(),
        ),
    }
}

/// A message text read as JSON, as the server reads it.
fn parse(text: &str) -> Option<Json> {
    serde_json::from_str::<Value>(text).ok().map(|v| to_json(&v))
}

fn build_media_frame(metadata: &str, payload: &[u8]) -> Vec<u8> {
    let mut frame = vec![0u8; METADATA_PACKET + payload.len()];
    let meta_bytes = metadata.as_bytes();
    let copy_len = meta_bytes.len().min(METADATA_PACKET);
    frame[..copy_len].copy_from_slice(&meta_bytes[..copy_len]);
    frame[METADATA_PACKET..].copy_from_slice(payload);
    frame
}

#[test]
fn decode_media_frame_rejects_short_payload() {
    assert!(decode_media_frame(&vec![0u8; METADATA_PACKET]).is_none());
}

#[test]
fn decode_media_frame_with_json_metadata() {
    let frame = build_media_frame(r#"{"uuid":"+F","ext":"jpg"}"#, &[1, 2, 3]);
    let decoded = decode_media_frame(&frame).expect("frame should decode");
    let parsed: Value = serde_json::from_str(&decoded).expect("decoded json");
    assert_eq!(parsed["type"], "new_preview_image");
    assert_eq!(parsed["payload"]["metadata"]["uuid"], "+F");
    assert_eq!(parsed["payload"]["data"], "AQID");
}

#[test]
fn decode_media_frame_falls_back_to_raw_metadata() {
    let frame = build_media_frame("not-json", &[255]);
    let decoded = decode_media_frame(&frame).expect("frame should decode");
    let parsed: Value = serde_json::from_str(&decoded).expect("decoded json");
    assert_eq!(parsed["payload"]["metadata"]["raw"], "not-json");
}

#[test]
fn message_type_detection_works() {
    assert!(message_is_type(
        &parse(r#"{"type":"new_connection_state","payload":{}}"#),
        "new_connection_state"
    ));
    assert!(!message_is_type(&parse(r#"{"payload":{}}"#), "new_connection_state"));
    assert!(!message_is_type(&parse("not-json"), "new_connection_state"));
}

#[test]
fn decoded_frame_has_exact_layout() {
    let frame = build_media_frame(r#"{"uuid":"+F","ext":"jpg"}"#, &[1, 2, 3, 4]);
    let decoded = decode_media_frame(&frame).unwrap();
    assert_eq!(
        decoded,
        r#"{"payload":{"data":"AQIDBA==","metadata":{"ext":"jpg","uuid":"+F"}},"type":"new_preview_image"}"#
    );
}

#[test]
fn raw_metadata_is_escaped() {
    let frame = build_media_frame("a\"b\\c\n", &[0xff, 0xfe]);
    let decoded = decode_media_frame(&frame).unwrap();
    assert_eq!(
        decoded,
        r#"{"payload":{"data":"//4=","metadata":{"raw":"a\"b\\c\n"}},"type":"new_preview_image"}"#
    );
}

#[test]
fn oversized_frame_is_dropped() {
    let frame = vec![b'x'; rekos::kstars::MAX_MEDIA_FRAME + 1];
    assert!(decode_media_frame(&frame).is_none());
}

#[test]
fn non_utf8_metadata_is_dropped() {
    let mut frame = vec![0u8; METADATA_PACKET + 1];
    frame[0] = 0xff;
    assert!(decode_media_frame(&frame).is_none());
}

#[test]
fn event_type_labels() {
    assert_eq!(
        rekos::kstars::event_type_for_log(&parse(r#"{"type":"new_connection_state"}"#)),
        "new_connection_state"
    );
    assert_eq!(rekos::kstars::event_type_for_log(&parse(r#"{"type":"other"}"#)), "unknown");
}

#[test]
fn connection_state_messages() {
    assert_eq!(
        rekos::kstars::connection_state_msg(true, Some("/home/u")),
        r#"{"payload":{"connected":true,"home_dir":"/home/u"},"type":"new_connection_state"}"#
    );
    assert_eq!(
        rekos::kstars::connection_state_msg(false, None),
        r#"{"payload":{"connected":false},"type":"new_connection_state"}"#
    );
    assert_eq!(
        rekos::kstars::set_client_state_msg(),
        r#"{"payload":{"state":true},"type":"set_client_state"}"#
    );
}

#[test]
fn hub_keeps_a_single_session_and_replays_state() {
    let mut hub = rekos::kstars::Hub::new();
    assert_eq!(
        hub.browser_greeting("/h"),
        r#"{"type":"new_connection_state","payload":{"connected":false,"home_dir":"/h"}}"#
    );
    assert!(hub.try_attach());
    assert!(!hub.try_attach());
    assert!(hub.can_forward());
    let state = r#"{"type":"new_connection_state","payload":{"connected":true,"online":true}}"#;
    hub.observe_kstars_text(r#"{"type":"other"}"#, &parse(r#"{"type":"other"}"#));
    assert!(hub.last_connection_state.is_none());
    hub.observe_kstars_text(state, &parse(state));
    assert_eq!(hub.browser_greeting("/h"), state);
    hub.detach();
    assert!(!hub.can_forward());
    assert!(hub.try_attach());
}

#[test]
fn frame_payload_is_standard_base64() {
    let one = decode_media_frame(&build_media_frame("{}", &[1, 2, 3])).unwrap();
    assert_eq!(one, r#"{"payload":{"data":"AQID","metadata":{}},"type":"new_preview_image"}"#);
    let two = decode_media_frame(&build_media_frame("{}", &[255])).unwrap();
    assert_eq!(two, r#"{"payload":{"data":"/w==","metadata":{}},"type":"new_preview_image"}"#);
}

#[test]
fn message_type_needs_a_json_object() {
    assert!(message_is_type(&parse(r#"{"type":"x","a":1}"#), "x"));
    assert!(!message_is_type(&parse(r#"{"a":1}"#), "x"));
    assert!(!message_is_type(&parse("not json"), "x"));
}
