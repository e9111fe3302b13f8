use vstd::prelude::*;

use crate::close::CloseFrame;
use crate::message::Message;
use crate::message::Received;

verus! {

/// What a session actor does with what its socket yields.
#[derive(Debug)]
pub enum SessionReaction {
    /// Hand the text to the session's `on_text`.
    OnText(String),
    /// Hand the bytes to the session's `on_binary`.
    OnBinary(Vec<u8>),
    /// The session is over, closed by the client with this frame, or ended
    /// with no frame when the socket died.
    Finish(Option<CloseFrame>),
    /// Log the connection error and go on.
    LogError,
    /// Nothing to do (pings and pongs are answered by the socket).
    Ignore,
}

/// What a session actor does with what its socket yields.
pub open spec fn session_reaction_of(r: Received) -> SessionReaction {
    match r {
        Received::Message(Message::Text(t)) => SessionReaction::OnText(t),
        Received::Message(Message::Binary(b)) => SessionReaction::OnBinary(b),
        Received::Message(Message::Close(f)) => SessionReaction::Finish(f),
        Received::Message(Message::Ping(_)) => SessionReaction::Ignore,
        Received::Message(Message::Pong(_)) => SessionReaction::Ignore,
        Received::Error => SessionReaction::LogError,
        Received::Ended => SessionReaction::Finish(None),
    }
}

/// Decides what a session actor does with what its socket yields.
pub fn session_reaction(received: Received) -> (reaction: SessionReaction)
    ensures
        reaction == session_reaction_of(received),
{
    match received {
        Received::Message(Message::Text(t)) => SessionReaction::OnText(t),
        Received::Message(Message::Binary(b)) => SessionReaction::OnBinary(b),
        Received::Message(Message::Close(f)) => SessionReaction::Finish(f),
        Received::Message(Message::Ping(_)) => SessionReaction::Ignore,
        Received::Message(Message::Pong(_)) => SessionReaction::Ignore,
        Received::Error => SessionReaction::LogError,
        Received::Ended => SessionReaction::Finish(None),
    }
}

/// The close frame that a message from the session's own handle ends the
/// session with, if it is a close message.
pub open spec fn own_close_frame(message: Option<Message>) -> Option<Option<CloseFrame>> {
    match message {
        Some(Message::Close(f)) => Some(f),
        _ => None,
    }
}

/// The close frame a session's own close message carries, taken before the
/// message is handed to the socket.
pub fn session_close_frame(message: &Option<Message>) -> (frame: Option<Option<CloseFrame>>)
    ensures
        frame == own_close_frame(*message),
{
    match message {
        Some(Message::Close(Some(f))) => Some(Some(f.duplicate())),
        Some(Message::Close(None)) => Some(None),
        _ => None,
    }
}

/// After handing a message from the session's handle to the socket: the
/// session ends with the message's close frame if it was a close message,
/// ends with no frame if the socket refused it, and goes on otherwise.
pub open spec fn session_outcome_of(close_frame: Option<Option<CloseFrame>>, sent: bool) -> Option<
    Option<CloseFrame>,
> {
    match close_frame {
        Some(f) => Some(f),
        None => if sent {
            None
        } else {
            Some(None)
        },
    }
}

/// Decides whether a session ends after handing a message to the socket;
/// `Some(frame)` ends it with that frame.
pub fn session_after_send(close_frame: Option<Option<CloseFrame>>, sent: bool) -> (outcome: Option<
    Option<CloseFrame>,
>)
    ensures
        outcome == session_outcome_of(close_frame, sent),
{
    match close_frame {
        Some(f) => Some(f),
        None => if sent {
            None
        } else {
            Some(None)
        },
    }
}

/// A session that closes itself ends with exactly the frame it sent, whether
/// or not the socket took the message.
pub proof fn lemma_session_close_keeps_frame(frame: Option<CloseFrame>, sent: bool)
    ensures
        session_outcome_of(own_close_frame(Some(Message::Close(frame))), sent) == Some(frame),
{
}

/// Only a close message ends the session from its own side: a message from
/// the session's handle carries a close frame exactly when it is a close
/// message, and any other message that the socket took lets the session go
/// on.
pub proof fn lemma_only_own_close_ends_session(m: Message)
    ensures
        own_close_frame(Some(m)) is Some <==> m is Close,
        own_close_frame(None) is None,
        !(m is Close) ==> session_outcome_of(own_close_frame(Some(m)), true) is None,
        !(m is Close) ==> session_outcome_of(own_close_frame(Some(m)), false) == Some(
            None::<CloseFrame>,
        ),
        session_outcome_of(None, true) is None,
{
}

/// What the socket yields reaches the session unchanged: text to `on_text`,
/// bytes to `on_binary`, and the client's close frame, exactly as received,
/// as the frame the session finishes with.
pub proof fn lemma_session_gets_what_was_received(t: String, b: Vec<u8>, f: Option<CloseFrame>)
    ensures
        session_reaction_of(Received::Message(Message::Text(t))) == SessionReaction::OnText(t),
        session_reaction_of(Received::Message(Message::Binary(b))) == SessionReaction::OnBinary(b),
        session_reaction_of(Received::Message(Message::Close(f))) == SessionReaction::Finish(f),
{
}

/// A client's close frame ends the session with that frame; a dead socket
/// ends it with none; data never ends it.
pub proof fn lemma_session_ends_only_on_close(r: Received)
    ensures
        (session_reaction_of(r) is Finish) <==> (r is Ended || r matches Received::Message(
            Message::Close(_),
        )),
{
}

} // verus!
