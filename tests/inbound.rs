use phoenix_channels::delivery::Delivery;
use phoenix_channels::error::MessageError;
use phoenix_channels::event::EventKind;
use phoenix_channels::receiver::{Incoming, Pulled, Receiver};

#[test]
fn malformed_frame_does_not_end_the_stream() {
    let mut r = Receiver::new();
    let bad = r.on_frame(Incoming::Text(r#"{"event":"phx_reply"}"#.to_string()));
    assert_eq!(bad, Pulled::Item(Err(MessageError::MissingField("topic".to_string()))));
    assert!(!r.is_ended());
    match r.on_frame(Incoming::Text(r#"{"topic":"t","event":"phx_reply","payload":{},"ref":"2"}"#.to_string())) {
        Pulled::Item(Ok(m)) => {
            assert_eq!(m.topic, "t");
            assert_eq!(m.event, EventKind::Reply);
        },
        other => panic!("unexpected {:?}", other),
    }
}

#[test]
fn receiver_frames_of_other_kinds() {
    let mut r = Receiver::new();
    assert_eq!(r.on_frame(Incoming::Ping), Pulled::Skip);
    assert_eq!(r.on_frame(Incoming::Pong), Pulled::Skip);
    assert_eq!(r.on_frame(Incoming::Binary(vec![1, 2])), Pulled::Item(Err(MessageError::NotText)));
    assert_eq!(
        r.on_frame(Incoming::Failure("reset".to_string())),
        Pulled::Item(Err(MessageError::Transport("reset".to_string())))
    );
    assert!(!r.is_ended());
    assert_eq!(r.on_frame(Incoming::Close), Pulled::End);
    assert!(r.is_ended());
    assert_eq!(r.on_frame(Incoming::Text(r#"{"topic":"t","event":"e"}"#.to_string())), Pulled::End);
}

#[test]
fn closed_channel_stops_delivery() {
    let mut d = Delivery::new();
    let item = d.on_pulled(Some(Err(MessageError::NotText)));
    assert_eq!(item, Some(Err(MessageError::NotText)));
    d.on_forwarded(true);
    assert!(!d.is_finished());
    d.on_forwarded(false);
    assert!(d.is_finished());
    assert_eq!(d.on_pulled(Some(Err(MessageError::NotText))), None);
    assert!(d.is_finished());
}

#[test]
fn end_of_stream_stops_delivery() {
    let mut d = Delivery::new();
    assert_eq!(d.on_pulled(None), None);
    assert!(d.is_finished());
}
