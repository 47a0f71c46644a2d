use phoenix_channels::codec::{decode, encode};
use phoenix_channels::error::MessageError;
use phoenix_channels::event::EventKind;

#[test]
fn decode_reply_frame() {
    let m = decode(r#"{"topic":"room:lobby","event":"phx_reply","payload":{"status":"ok","n":1.5},"ref":"7"}"#).unwrap();
    assert_eq!(m.topic, "room:lobby");
    assert_eq!(m.event, EventKind::Reply);
    assert_eq!(m.payload, r#"{"status":"ok","n":1.5}"#);
    assert_eq!(m.reference, Some("7".to_string()));
}

#[test]
fn decode_custom_event_without_ref() {
    let m = decode(r#"{"event":"new_msg","topic":"room:1","payload":[1,2],"ref":null}"#).unwrap();
    assert_eq!(m.event, EventKind::Custom("new_msg".to_string()));
    assert_eq!(m.payload, "[1,2]");
    assert_eq!(m.reference, None);
}

#[test]
fn decode_absent_payload_is_null() {
    let m = decode(r#"{"topic":"t","event":"phx_error"}"#).unwrap();
    assert_eq!(m.event, EventKind::Error);
    assert_eq!(m.payload, "null");
    assert_eq!(m.reference, None);
}

#[test]
fn decode_missing_topic() {
    let r = decode(r#"{"event":"phx_reply","payload":{},"ref":"1"}"#);
    assert_eq!(r, Err(MessageError::MissingField("topic".to_string())));
}

#[test]
fn decode_missing_event() {
    let r = decode(r#"{"topic":"room:lobby","payload":{},"ref":"1"}"#);
    assert_eq!(r, Err(MessageError::MissingField("event".to_string())));
}

#[test]
fn decode_topic_not_a_string() {
    let r = decode(r#"{"topic":3,"event":"phx_reply"}"#);
    assert_eq!(r, Err(MessageError::NotAString("topic".to_string())));
}

#[test]
fn decode_event_not_a_string() {
    let r = decode(r#"{"topic":"t","event":null}"#);
    assert_eq!(r, Err(MessageError::NotAString("event".to_string())));
}

#[test]
fn decode_not_an_object() {
    assert_eq!(decode("[1,2,3]"), Err(MessageError::NotAnObject));
    assert_eq!(decode("not json"), Err(MessageError::NotAnObject));
    assert_eq!(decode(""), Err(MessageError::NotAnObject));
}

#[test]
fn encode_join_frame() {
    let f = encode("room:lobby", &EventKind::Join, "{}", &Some("1".to_string()));
    assert_eq!(f, r#"{"topic":"room:lobby","event":"phx_join","payload":{},"ref":"1"}"#);
}

#[test]
fn encode_escapes_topic_and_keeps_payload() {
    let f = encode("a\"b", &EventKind::Custom("shout".to_string()), r#"{"x":12345678901234567890}"#, &None);
    assert_eq!(f, r#"{"topic":"a\"b","event":"shout","payload":{"x":12345678901234567890},"ref":null}"#);
}

#[test]
fn encoded_frame_decodes_to_same_fields() {
    let f = encode("room:1", &EventKind::Leave, r#"{"k":[true,null]}"#, &Some("42".to_string()));
    let m = decode(&f).unwrap();
    assert_eq!(m.topic, "room:1");
    assert_eq!(m.event, EventKind::Leave);
    assert_eq!(m.payload, r#"{"k":[true,null]}"#);
    assert_eq!(m.reference, Some("42".to_string()));
}

#[test]
fn event_names_round_trip() {
    let kinds = vec![EventKind::Join, EventKind::Leave, EventKind::Heartbeat, EventKind::Reply, EventKind::Error];
    let names = vec!["phx_join", "phx_leave", "heartbeat", "phx_reply", "phx_error"];
    for (k, n) in kinds.into_iter().zip(names) {
        assert_eq!(k.wire_name(), n);
        assert_eq!(EventKind::from_wire(n.to_string()), k);
    }
    assert_eq!(EventKind::from_wire("phx_close".to_string()), EventKind::Custom("phx_close".to_string()));
}
