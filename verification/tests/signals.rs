use ezsockets::message::{Message, RawMessage};
use ezsockets::signal::{delivery_status, InMessage, InRawMessage, MessageSignal, MessageStatus};

#[test]
fn signal_starts_with_the_given_status() {
    assert_eq!(MessageSignal::new(MessageStatus::Sending).status(), MessageStatus::Sending);
    assert_eq!(MessageSignal::new(MessageStatus::Sent).status(), MessageStatus::Sent);
    assert_eq!(MessageSignal::new(MessageStatus::Failed).status(), MessageStatus::Failed);
    assert_eq!(MessageSignal::sending().status(), MessageStatus::Sending);
}

#[test]
fn status_bytes_round_trip() {
    for status in [MessageStatus::Sending, MessageStatus::Sent, MessageStatus::Failed] {
        assert_eq!(MessageStatus::from_byte(status.to_byte()), status);
    }
    assert_eq!(MessageStatus::from_byte(7), MessageStatus::Failed);
}

#[test]
fn fresh_message_has_a_signal_that_is_shared() {
    let message = InMessage::new(Message::Text("hi".to_string()));
    let signal = message.clone_signal().expect("a fresh message has a signal");
    assert_eq!(signal.status(), MessageStatus::Sending);
    let mut raw: InRawMessage = message.into();
    raw.report_delivery(true);
    assert_eq!(signal.status(), MessageStatus::Sent);
    assert!(raw.clone_signal().is_none());
}

#[test]
fn signal_reports_failure_once() {
    let (message, signal) = InMessage::new_watched(Message::Binary(vec![1]));
    let mut raw = message.into_raw();
    raw.report_delivery(false);
    assert_eq!(signal.status(), MessageStatus::Failed);
    raw.set_signal(MessageStatus::Sent);
    assert_eq!(signal.status(), MessageStatus::Failed);
}

#[test]
fn dropped_messages_fail_their_signal() {
    let (message, signal) = InMessage::new_watched(Message::Text("lost".to_string()));
    drop(message);
    assert_eq!(signal.status(), MessageStatus::Failed);

    let raw = InRawMessage::new(RawMessage::Ping(vec![]));
    let raw_signal = raw.clone_signal().unwrap();
    drop(raw);
    assert_eq!(raw_signal.status(), MessageStatus::Failed);
}

#[test]
fn delivered_messages_keep_their_status_after_drop() {
    let mut raw = InRawMessage::new(RawMessage::Text("ok".to_string()));
    let signal = raw.clone_signal().unwrap();
    let taken = raw.take_message();
    assert!(matches!(taken, Some(RawMessage::Text(ref t)) if t == "ok"));
    assert!(raw.take_message().is_none());
    raw.set_signal(MessageStatus::Sent);
    drop(raw);
    assert_eq!(signal.status(), MessageStatus::Sent);
}

#[test]
fn close_messages_are_recognised() {
    let m = InMessage::new(Message::Close(None));
    assert!(m.is_close());
    assert!(matches!(m.message(), Some(Message::Close(None))));
    let t = InMessage::new(Message::Text("a".to_string()));
    assert!(!t.is_close());
}

#[test]
fn shared_signal_sees_updates() {
    let signal = MessageSignal::new(MessageStatus::Sending);
    let other = signal.share();
    let mut raw = InRawMessage::new(RawMessage::Text("x".to_string()));
    let s2 = raw.clone_signal().unwrap();
    raw.report_delivery(true);
    assert_eq!(s2.share().status(), MessageStatus::Sent);
    assert_eq!(other.status(), MessageStatus::Sending);
}

#[test]
fn delivery_status_follows_the_report() {
    assert_eq!(delivery_status(true), MessageStatus::Sent);
    assert_eq!(delivery_status(false), MessageStatus::Failed);
}

#[test]
fn cloned_messages_share_the_signal() {
    let (message, signal) = InMessage::new_watched(Message::Text("x".to_string()));
    let copy = message.clone();
    let mut raw = copy.into_raw();
    raw.report_delivery(true);
    assert_eq!(signal.status(), MessageStatus::Sent);
}
