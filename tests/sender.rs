use phoenix_channels::client::{client_join_result, poisoned_error};
use phoenix_channels::codec::decode;
use phoenix_channels::endpoint::{endpoint, PROTOCOL_VERSION};
use phoenix_channels::error::{ClientError, JoinError};
use phoenix_channels::event::EventKind;
use phoenix_channels::sender::{decimal_text, join_outcome, Sender};

#[test]
fn joins_take_increasing_references() {
    let mut s = Sender::new();
    let mut refs = Vec::new();
    for topic in ["a", "b", "c", "d"] {
        let (n, frame) = s.join(topic).unwrap();
        let m = decode(&frame).unwrap();
        assert_eq!(m.topic, topic);
        assert_eq!(m.event, EventKind::Join);
        assert_eq!(m.reference, Some(n.to_string()));
        refs.push(n);
    }
    assert_eq!(refs, vec![1, 2, 3, 4]);
    assert_eq!(s.next_ref(), 5);
}

#[test]
fn sends_and_joins_share_the_counter() {
    let mut s = Sender::new();
    let f = s.send("room:1", EventKind::Custom("ping".to_string()), r#"{"a":1}"#).unwrap();
    assert_eq!(f, r#"{"topic":"room:1","event":"ping","payload":{"a":1},"ref":"1"}"#);
    let (n, _) = s.join("room:1").unwrap();
    assert_eq!(n, 2);
}

#[test]
fn heartbeat_frame() {
    let s = Sender::new();
    assert_eq!(s.heartbeat(), r#"{"topic":"phoenix","event":"heartbeat","payload":{},"ref":null}"#);
    let m = decode(&s.heartbeat()).unwrap();
    assert_eq!(m.topic, "phoenix");
    assert_eq!(m.event, EventKind::Heartbeat);
    assert_eq!(m.payload, "{}");
    assert_eq!(m.reference, None);
    assert_eq!(s.next_ref(), 1);
}

#[test]
fn decimal_references() {
    assert_eq!(decimal_text(0), "0");
    assert_eq!(decimal_text(9), "9");
    assert_eq!(decimal_text(10), "10");
    assert_eq!(decimal_text(1234567890), "1234567890");
    assert_eq!(decimal_text(u32::MAX), "4294967295");
}

#[test]
fn endpoint_with_token() {
    assert_eq!(endpoint("wss://host", &vec![("token", "abc")]), "wss://host/websocket?vsn=2.0.0&token=abc");
}

#[test]
fn endpoint_keeps_parameter_order_and_encodes_nothing() {
    assert_eq!(PROTOCOL_VERSION, "2.0.0");
    assert_eq!(endpoint("ws://h:4000/socket", &vec![]), "ws://h:4000/socket/websocket?vsn=2.0.0");
    assert_eq!(
        endpoint("ws://h", &vec![("b", "2"), ("a", "x y")]),
        "ws://h/websocket?vsn=2.0.0&b=2&a=x y"
    );
}

#[test]
fn failed_join_write_is_join_error() {
    assert_eq!(join_outcome(3, Ok(())), Ok(3));
    assert_eq!(join_outcome(3, Err("broken pipe".to_string())), Err(JoinError::Write("broken pipe".to_string())));
}

#[test]
fn client_join_reports() {
    assert!(matches!(client_join_result(Some(Ok(5))), Ok(5)));
    assert!(matches!(
        client_join_result(Some(Err(JoinError::ReferencesExhausted))),
        Err(ClientError::Join(JoinError::ReferencesExhausted))
    ));
    match client_join_result(None) {
        Err(ClientError::Thread(m)) => assert_eq!(m, "Cannot join as sender mutex has been poisoned"),
        other => panic!("unexpected {:?}", other),
    }
    assert!(matches!(poisoned_error(), ClientError::Thread(_)));
}
