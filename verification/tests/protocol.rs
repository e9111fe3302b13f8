use ezsockets::close::CloseCode;
use ezsockets::close::CloseFrame;
use ezsockets::heartbeat::{
    after_ping, default_heartbeat_ping, heartbeat_step, inactivity_close_message,
    pong_timestamp_millis, u128_from_be_bytes, u128_to_be_bytes, HeartbeatStep,
};
use ezsockets::message::{Message, RawMessage};

#[test]
fn close_code_numbers_match_the_protocol() {
    assert_eq!(u16::from(CloseCode::Normal), 1000);
    assert_eq!(u16::from(CloseCode::Away), 1001);
    assert_eq!(u16::from(CloseCode::Protocol), 1002);
    assert_eq!(u16::from(CloseCode::Unsupported), 1003);
    assert_eq!(u16::from(CloseCode::Status), 1005);
    assert_eq!(u16::from(CloseCode::Abnormal), 1006);
    assert_eq!(u16::from(CloseCode::Invalid), 1007);
    assert_eq!(u16::from(CloseCode::Policy), 1008);
    assert_eq!(u16::from(CloseCode::Size), 1009);
    assert_eq!(u16::from(CloseCode::Extension), 1010);
    assert_eq!(u16::from(CloseCode::Error), 1011);
    assert_eq!(u16::from(CloseCode::Restart), 1012);
    assert_eq!(u16::from(CloseCode::Again), 1013);
    assert_eq!(u16::from(CloseCode::Tls), 1015);
    assert_eq!(u16::from(CloseCode::Reserved(2000)), 2000);
    assert_eq!(u16::from(CloseCode::Iana(3001)), 3001);
    assert_eq!(u16::from(CloseCode::Library(4001)), 4001);
    assert_eq!(u16::from(CloseCode::Bad(7)), 7);
}

#[test]
fn close_code_numbers_are_read_by_range() {
    assert_eq!(CloseCode::from(1001u16), CloseCode::Away);
    assert_eq!(CloseCode::from(1015u16), CloseCode::Tls);
    assert_eq!(CloseCode::from(0u16), CloseCode::Bad(0));
    assert_eq!(CloseCode::from(999u16), CloseCode::Bad(999));
    assert_eq!(CloseCode::from(1004u16), CloseCode::Bad(1004));
    assert_eq!(CloseCode::from(1014u16), CloseCode::Bad(1014));
    assert_eq!(CloseCode::from(1016u16), CloseCode::Reserved(1016));
    assert_eq!(CloseCode::from(2999u16), CloseCode::Reserved(2999));
    assert_eq!(CloseCode::from(3000u16), CloseCode::Iana(3000));
    assert_eq!(CloseCode::from(4999u16), CloseCode::Library(4999));
    assert_eq!(CloseCode::from(5000u16), CloseCode::Bad(5000));
    assert_eq!(CloseCode::from_number(65535), CloseCode::Bad(65535));
}

#[test]
fn every_number_survives_a_round_trip() {
    for n in 0..=u16::MAX {
        assert_eq!(u16::from(CloseCode::from(n)), n);
        let code = CloseCode::from(n);
        assert_eq!(CloseCode::from(code.code()), code);
    }
}

#[test]
fn non_canonical_codes_are_read_back_canonically() {
    assert_eq!(CloseCode::from(u16::from(CloseCode::Bad(1000))), CloseCode::Normal);
    assert_eq!(CloseCode::from(u16::from(CloseCode::Reserved(5))), CloseCode::Bad(5));
}

#[test]
fn messages_keep_kind_and_payload_through_raw_form() {
    match Message::Text("hello".to_string()).into_raw() {
        RawMessage::Text(t) => assert_eq!(t, "hello"),
        _ => panic!("wrong kind"),
    }
    match RawMessage::from(Message::Binary(vec![1, 2, 3])) {
        RawMessage::Binary(b) => assert_eq!(b, vec![1, 2, 3]),
        _ => panic!("wrong kind"),
    }
    match Message::Close(Some(CloseFrame { code: CloseCode::Away, reason: "bye".to_string() }))
        .into_raw()
        .into_message()
    {
        Message::Close(Some(f)) => {
            assert_eq!(f.code, CloseCode::Away);
            assert_eq!(f.reason, "bye");
        }
        _ => panic!("wrong kind"),
    }
    match RawMessage::Pong(vec![9]).into_message() {
        Message::Pong(b) => assert_eq!(b, vec![9]),
        _ => panic!("wrong kind"),
    }
    assert!(RawMessage::Close(None).is_close());
    assert!(!RawMessage::Ping(vec![]).is_close());
    assert!(Message::Close(None).is_close());
    assert!(!Message::Text(String::new()).is_close());
}

#[test]
fn big_endian_bytes_of_a_number() {
    let bytes = u128_to_be_bytes(0x0102_0304_0506_0708_090a_0b0c_0d0e_0f10);
    assert_eq!(bytes, (1u8..=16).collect::<Vec<u8>>());
    assert_eq!(u128_to_be_bytes(0), vec![0u8; 16]);
    assert_eq!(u128_to_be_bytes(u128::MAX), vec![255u8; 16]);
    assert_eq!(u128_to_be_bytes(258), {
        let mut v = vec![0u8; 16];
        v[14] = 1;
        v[15] = 2;
        v
    });
    assert_eq!(u128_from_be_bytes(&bytes), Some(0x0102_0304_0506_0708_090a_0b0c_0d0e_0f10));
    assert_eq!(u128_from_be_bytes(&vec![1, 2, 3]), None);
    assert_eq!(1234567u128.to_be_bytes().to_vec(), u128_to_be_bytes(1234567));
}

#[test]
fn default_ping_carries_the_timestamp_and_pong_gives_it_back() {
    let timestamp: u128 = 1_700_000_000_123;
    let ping = default_heartbeat_ping(timestamp);
    let payload = match ping {
        RawMessage::Ping(bytes) => bytes,
        _ => panic!("the default heartbeat message is a ping"),
    };
    assert_eq!(payload, timestamp.to_be_bytes().to_vec());
    assert_eq!(pong_timestamp_millis(&payload), Some(timestamp));
    assert_eq!(pong_timestamp_millis(&vec![0u8; 15]), None);
    assert_eq!(pong_timestamp_millis(&vec![0u8; 17]), None);
}

#[test]
fn heartbeat_decisions() {
    let second: u128 = 1_000_000_000;
    // heard from 2s ago, interval 5s, timeout 10s: check again in 3s
    assert_eq!(heartbeat_step(2 * second, 5 * second, 10 * second), HeartbeatStep::WaitFor(3 * second));
    // silent for 6s: ping
    assert_eq!(heartbeat_step(6 * second, 5 * second, 10 * second), HeartbeatStep::SendPing);
    // silent exactly the timeout: still a ping
    assert_eq!(heartbeat_step(10 * second, 5 * second, 10 * second), HeartbeatStep::SendPing);
    // silent longer than the timeout: close
    assert_eq!(heartbeat_step(10 * second + 1, 5 * second, 10 * second), HeartbeatStep::CloseInactive);
    assert_eq!(after_ping(true, 5 * second), Some(5 * second));
    assert_eq!(after_ping(false, 5 * second), None);
}

#[test]
fn inactivity_closes_abnormally() {
    match inactivity_close_message() {
        RawMessage::Close(Some(frame)) => {
            assert_eq!(frame.code, CloseCode::Abnormal);
            assert_eq!(frame.reason, "remote partner is inactive");
        }
        _ => panic!("expected a close frame"),
    }
}

#[test]
fn close_frame_duplicate_is_equal() {
    let frame = CloseFrame { code: CloseCode::Library(4100), reason: "x".to_string() };
    let copy = frame.duplicate();
    assert_eq!(copy.code, CloseCode::Library(4100));
    assert_eq!(copy.reason, "x");
}
