use vstd::prelude::*;

use crate::close::CloseFrame;

verus! {

/// A message as the library hands it to users: what was received, or what
/// a user submits for sending.
#[derive(Debug, Clone)]
pub enum Message {
    Text(String),
    Binary(Vec<u8>),
    Close(Option<CloseFrame>),
    Ping(Vec<u8>),
    Pong(Vec<u8>),
}

/// A message as it travels through a socket.
#[derive(Debug, Clone)]
pub enum RawMessage {
    Text(String),
    Binary(Vec<u8>),
    Ping(Vec<u8>),
    Pong(Vec<u8>),
    Close(Option<CloseFrame>),
}

/// What a socket's stream yields to the actor that reads it.
#[derive(Debug)]
pub enum Received {
    /// A message from the peer.
    Message(Message),
    /// The connection reported an error; the stream goes on.
    Error,
    /// The stream is over: the socket died.
    Ended,
}

/// The raw form of a message: the same payload under the same kind.
pub open spec fn raw_of(message: Message) -> RawMessage {
    match message {
        Message::Text(t) => RawMessage::Text(t),
        Message::Binary(b) => RawMessage::Binary(b),
        Message::Ping(b) => RawMessage::Ping(b),
        Message::Pong(b) => RawMessage::Pong(b),
        Message::Close(f) => RawMessage::Close(f),
    }
}

/// The message that a raw message is delivered as: the same payload under
/// the same kind.
pub open spec fn message_of(raw: RawMessage) -> Message {
    match raw {
        RawMessage::Text(t) => Message::Text(t),
        RawMessage::Binary(b) => Message::Binary(b),
        RawMessage::Ping(b) => Message::Ping(b),
        RawMessage::Pong(b) => Message::Pong(b),
        RawMessage::Close(f) => Message::Close(f),
    }
}

impl Message {
    /// Turns the message into its raw form for the socket.
    pub fn into_raw(self) -> (raw: RawMessage)
        ensures
            raw == raw_of(self),
    {
        match self {
            Message::Text(text) => RawMessage::Text(text),
            Message::Binary(bytes) => RawMessage::Binary(bytes),
            Message::Ping(bytes) => RawMessage::Ping(bytes),
            Message::Pong(bytes) => RawMessage::Pong(bytes),
            Message::Close(frame) => RawMessage::Close(frame),
        }
    }

    /// Whether this is a close message.
    pub fn is_close(&self) -> (b: bool)
        ensures
            b <==> self is Close,
    {
        match self {
            Message::Close(_) => true,
            _ => false,
        }
    }
}

impl RawMessage {
    /// Turns a received raw message into the message handed to users.
    pub fn into_message(self) -> (message: Message)
        ensures
            message == message_of(self),
    {
        match self {
            RawMessage::Text(text) => Message::Text(text),
            RawMessage::Binary(bytes) => Message::Binary(bytes),
            RawMessage::Ping(bytes) => Message::Ping(bytes),
            RawMessage::Pong(bytes) => Message::Pong(bytes),
            RawMessage::Close(frame) => Message::Close(frame),
        }
    }

    /// Whether this is a close message, after which the peer stops.
    pub fn is_close(&self) -> (b: bool)
        ensures
            b <==> self is Close,
    {
        match self {
            RawMessage::Close(_) => true,
            _ => false,
        }
    }
}

impl From<Message> for RawMessage {
    fn from(message: Message) -> (raw: RawMessage) {
        message.into_raw()
    }
}

impl vstd::std_specs::convert::FromSpecImpl<Message> for RawMessage {
    open spec fn obeys_from_spec() -> bool {
        true
    }

    open spec fn from_spec(message: Message) -> RawMessage {
        raw_of(message)
    }
}

/// Sending a message and receiving it on the other side of the conversion
/// gives the same message back.
pub proof fn lemma_message_raw_round_trip(message: Message)
    ensures
        message_of(raw_of(message)) == message,
{
}

/// Receiving a raw message and sending it on gives the same raw message back.
pub proof fn lemma_raw_message_round_trip(raw: RawMessage)
    ensures
        raw_of(message_of(raw)) == raw,
{
}

/// The conversion keeps the kind of the message; in particular a close
/// message stays a close message with the same frame.
pub proof fn lemma_raw_of_keeps_close(message: Message)
    ensures
        (message is Close) <==> (raw_of(message) is Close),
        message matches Message::Close(f) ==> raw_of(message) == RawMessage::Close(f),
{
}

} // verus!
