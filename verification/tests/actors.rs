use ezsockets::client::{
    client_reaction, outgoing_outcome, reconnects, ClientCloseMode, ClientReaction,
    ConnectAttempts, OutgoingOutcome, QueueEntry, QueueVerdict, RetryVerdict, SinkClose,
};
use ezsockets::close::{CloseCode, CloseFrame};
use ezsockets::message::{Message, Received};
use ezsockets::server::{
    shutdown_close_frame, GracefulShutdownError, ServerAction, ServerEvent, ServerState,
};
use ezsockets::session::{session_after_send, session_close_frame, session_reaction, SessionReaction};

#[test]
fn graceful_shutdown_waits_for_every_session() {
    let mut server = ServerState::new();
    assert_eq!(server.step(ServerEvent::ConnectionArrived), ServerAction::OfferConnection);
    assert_eq!(server.step(ServerEvent::SessionAccepted), ServerAction::WatchSession);
    assert_eq!(server.step(ServerEvent::ConnectionArrived), ServerAction::OfferConnection);
    assert_eq!(server.step(ServerEvent::SessionAccepted), ServerAction::WatchSession);
    assert_eq!(server.active_sessions(), 2);
    assert!(!server.is_done());

    assert_eq!(server.step(ServerEvent::ShutdownRequested), ServerAction::BroadcastShutdown);
    assert!(server.is_shutting_down());
    assert!(!server.is_done());
    assert_eq!(server.step(ServerEvent::SessionClosed), ServerAction::NotifyDisconnect);
    assert!(!server.is_done());
    assert_eq!(server.step(ServerEvent::SessionClosed), ServerAction::NotifyDisconnect);
    assert!(server.is_done());
}

#[test]
fn graceful_shutdown_without_sessions_is_immediate() {
    let mut server = ServerState::new();
    assert_eq!(server.step(ServerEvent::ShutdownRequested), ServerAction::BroadcastShutdown);
    assert!(server.is_done());
}

#[test]
fn graceful_shutdown_requests_are_idempotent() {
    let mut server = ServerState::new();
    server.step(ServerEvent::ConnectionArrived);
    server.step(ServerEvent::SessionAccepted);
    assert_eq!(server.step(ServerEvent::ShutdownRequested), ServerAction::BroadcastShutdown);
    assert_eq!(server.step(ServerEvent::ShutdownRequested), ServerAction::AwaitDrain);
    assert_eq!(server.step(ServerEvent::ShutdownRequested), ServerAction::AwaitDrain);
    assert_eq!(server.active_sessions(), 1);
    server.step(ServerEvent::SessionClosed);
    assert!(server.is_done());
}

#[test]
fn shutdown_holds_connections_and_calls() {
    let mut server = ServerState::new();
    assert!(server.accepts_calls());
    assert!(server.accepts_connections());
    assert_eq!(server.step(ServerEvent::CallArrived), ServerAction::DispatchCall);
    server.step(ServerEvent::ConnectionArrived);
    server.step(ServerEvent::SessionAccepted);
    server.step(ServerEvent::ShutdownRequested);
    assert!(!server.accepts_calls());
    assert_eq!(server.step(ServerEvent::CallArrived), ServerAction::HoldCall);
    assert!(!server.accepts_connections());
    assert_eq!(server.step(ServerEvent::ConnectionArrived), ServerAction::HoldConnection);
    let frame = shutdown_close_frame();
    assert_eq!(frame.code, CloseCode::Away);
    assert_eq!(u16::from(frame.code), 1001);
    assert_eq!(frame.reason, "server shutting down");
}

#[test]
fn rejected_connections_forward_the_frame_and_disconnects_saturate() {
    let mut server = ServerState::new();
    assert_eq!(server.step(ServerEvent::ConnectionRejected), ServerAction::ForwardRejection);
    assert_eq!(server.step(ServerEvent::SessionClosed), ServerAction::NotifyDisconnect);
    assert_eq!(server.active_sessions(), 0);
}

#[test]
fn shutdown_error_text() {
    assert_eq!(GracefulShutdownError::ServerStopped.message(), "server actor has already stopped");
}

#[test]
fn connecting_client_gives_up_after_its_budget() {
    let mut attempts = ConnectAttempts::new(3);
    assert_eq!(attempts.on_queue_entry(QueueEntry::Empty), QueueVerdict::Connect { attempt: 1 });
    assert_eq!(attempts.on_attempt_failed(ClientCloseMode::Reconnect), RetryVerdict::RetryAfterInterval);
    assert_eq!(attempts.on_queue_entry(QueueEntry::Empty), QueueVerdict::Connect { attempt: 2 });
    assert_eq!(attempts.on_attempt_failed(ClientCloseMode::Reconnect), RetryVerdict::RetryAfterInterval);
    assert_eq!(attempts.attempt(), 3);
    assert_eq!(attempts.on_attempt_failed(ClientCloseMode::Reconnect), RetryVerdict::GiveUp { attempts: 3 });
}

#[test]
fn zero_attempts_still_tries_once() {
    let mut attempts = ConnectAttempts::new(0);
    assert_eq!(attempts.on_queue_entry(QueueEntry::Empty), QueueVerdict::Connect { attempt: 1 });
    assert_eq!(attempts.on_attempt_failed(ClientCloseMode::Reconnect), RetryVerdict::GiveUp { attempts: 1 });
}

#[test]
fn client_may_stop_retrying() {
    let mut attempts = ConnectAttempts::new(usize::MAX);
    assert_eq!(attempts.on_attempt_failed(ClientCloseMode::Close), RetryVerdict::StopClosed);
    assert_eq!(attempts.attempt(), 1);
}

#[test]
fn messages_sent_while_connecting_are_discarded() {
    let attempts = ConnectAttempts::new(5);
    assert_eq!(attempts.on_queue_entry(QueueEntry::Submitted { is_close: false }), QueueVerdict::Discard);
    assert_eq!(attempts.on_queue_entry(QueueEntry::Submitted { is_close: true }), QueueVerdict::StopClosed);
    assert_eq!(attempts.on_queue_entry(QueueEntry::Closed), QueueVerdict::StopDead);
}

#[test]
fn outgoing_outcomes() {
    assert_eq!(outgoing_outcome(false, None), OutgoingOutcome::KeepSocket);
    assert_eq!(outgoing_outcome(true, None), OutgoingOutcome::ClosedSelf);
    assert_eq!(outgoing_outcome(false, Some(SinkClose::Io)), OutgoingOutcome::KeepSocket);
    assert_eq!(outgoing_outcome(false, Some(SinkClose::ConnectionClosed)), OutgoingOutcome::KeepSocket);
    assert_eq!(outgoing_outcome(false, Some(SinkClose::Other)), OutgoingOutcome::Abort);
    assert_eq!(outgoing_outcome(true, Some(SinkClose::Other)), OutgoingOutcome::ClosedSelf);
    assert_eq!(outgoing_outcome(false, Some(SinkClose::Clean)), OutgoingOutcome::KeepSocket);
}

#[test]
fn client_reactions() {
    assert!(matches!(client_reaction(Received::Message(Message::Text("a".into()))), ClientReaction::OnText(t) if t == "a"));
    assert!(matches!(client_reaction(Received::Message(Message::Binary(vec![1]))), ClientReaction::OnBinary(b) if b == vec![1]));
    assert!(matches!(client_reaction(Received::Message(Message::Close(None))), ClientReaction::OnClose(None)));
    assert!(matches!(client_reaction(Received::Message(Message::Ping(vec![]))), ClientReaction::Ignore));
    assert!(matches!(client_reaction(Received::Error), ClientReaction::LogError));
    assert!(matches!(client_reaction(Received::Ended), ClientReaction::OnDisconnect));
    assert!(reconnects(ClientCloseMode::Reconnect));
    assert!(!reconnects(ClientCloseMode::Close));
}

#[test]
fn session_reactions() {
    assert!(matches!(session_reaction(Received::Message(Message::Text("a".into()))), SessionReaction::OnText(t) if t == "a"));
    assert!(matches!(session_reaction(Received::Message(Message::Binary(vec![2]))), SessionReaction::OnBinary(b) if b == vec![2]));
    let frame = CloseFrame { code: CloseCode::Normal, reason: "done".into() };
    match session_reaction(Received::Message(Message::Close(Some(frame)))) {
        SessionReaction::Finish(Some(f)) => {
            assert_eq!(f.code, CloseCode::Normal);
            assert_eq!(f.reason, "done");
        }
        _ => panic!("a client's close ends the session"),
    }
    assert!(matches!(session_reaction(Received::Ended), SessionReaction::Finish(None)));
    assert!(matches!(session_reaction(Received::Error), SessionReaction::LogError));
    assert!(matches!(session_reaction(Received::Message(Message::Pong(vec![]))), SessionReaction::Ignore));
}

#[test]
fn session_outgoing_outcomes() {
    let close = Some(Message::Close(Some(CloseFrame { code: CloseCode::Away, reason: "bye".into() })));
    let frame = session_close_frame(&close);
    assert!(matches!(&frame, Some(Some(f)) if f.code == CloseCode::Away && f.reason == "bye"));
    assert!(matches!(session_after_send(frame, false), Some(Some(_))));
    assert!(session_close_frame(&Some(Message::Text("x".into()))).is_none());
    assert!(session_after_send(None, true).is_none());
    assert!(matches!(session_after_send(None, false), Some(None)));
    assert!(matches!(session_after_send(Some(None), true), Some(None)));
}

#[test]
fn sessions_closed_by_shutdown_end_with_going_away() {
    // The shutdown watcher closes every live session with the shutdown frame;
    // the session then ends with that frame, whether or not it reached the
    // socket, and the server reports it to `on_disconnect`.
    for sent in [true, false] {
        let message = Some(Message::Close(Some(shutdown_close_frame())));
        let frame = session_close_frame(&message);
        match session_after_send(frame, sent) {
            Some(Some(f)) => {
                assert_eq!(u16::from(f.code), 1001);
                assert_eq!(f.reason, "server shutting down");
            }
            _ => panic!("a session closed by shutdown ends with its frame"),
        }
    }
}

#[test]
fn session_count_follows_accepts_and_closes() {
    let mut server = ServerState::new();
    let events = [
        ServerEvent::ConnectionArrived,
        ServerEvent::SessionAccepted,
        ServerEvent::ConnectionArrived,
        ServerEvent::SessionAccepted,
        ServerEvent::CallArrived,
        ServerEvent::SessionClosed,
        ServerEvent::ConnectionArrived,
        ServerEvent::ConnectionRejected,
        ServerEvent::ConnectionArrived,
        ServerEvent::SessionAccepted,
    ];
    for e in events {
        server.step(e);
    }
    assert_eq!(server.active_sessions(), 2);
    assert!(!server.is_shutting_down());
}
