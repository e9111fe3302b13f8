use vstd::prelude::*;

use std::sync::atomic::AtomicU8;
use std::sync::atomic::Ordering;
use std::sync::Arc;

use crate::message::raw_of;
use crate::message::Message;
use crate::message::RawMessage;

verus! {

/// Possible states of a submitted message.
#[derive(Debug, Copy, Clone, PartialEq, Eq, Structural)]
pub enum MessageStatus {
    /// Message is in the process of being sent.
    Sending,
    /// Message was successfully sent.
    Sent,
    /// Message failed sending.
    Failed,
}

/// The byte that stands for a status inside a signal.
pub open spec fn status_byte(status: MessageStatus) -> u8 {
    match status {
        MessageStatus::Sending => 0,
        MessageStatus::Sent => 1,
        MessageStatus::Failed => 2,
    }
}

/// The status that a byte inside a signal is read as.
pub open spec fn status_of_byte(b: u8) -> MessageStatus {
    if b == 0 {
        MessageStatus::Sending
    } else if b == 1 {
        MessageStatus::Sent
    } else {
        MessageStatus::Failed
    }
}

/// Storing a status and reading the stored byte back gives the same status.
pub proof fn lemma_status_byte_round_trip(status: MessageStatus)
    ensures
        status_of_byte(status_byte(status)) == status,
{
}

impl MessageStatus {
    /// The byte that stands for this status.
    pub fn to_byte(self) -> (b: u8)
        ensures
            b == status_byte(self),
        opens_invariants none
        no_unwind
    {
        match self {
            MessageStatus::Sending => 0u8,
            MessageStatus::Sent => 1u8,
            MessageStatus::Failed => 2u8,
        }
    }

    /// The status that a stored byte is read as.
    pub fn from_byte(b: u8) -> (status: MessageStatus)
        ensures
            status == status_of_byte(b),
    {
        if b == 0u8 {
            MessageStatus::Sending
        } else if b == 1u8 {
            MessageStatus::Sent
        } else {
            MessageStatus::Failed
        }
    }
}

/// `Arc::clone`: another handle on the same allocation, so the clone is the
/// same shared cell as the one cloned.
#[verifier::external_body]
fn share_cell(cell: &Arc<AtomicU8>) -> (shared: Arc<AtomicU8>)
    ensures
        shared == *cell,
{
    cell.clone()
}

/// The status a delivery report sets: `Sent` when the socket took the
/// message, `Failed` when it did not.
pub fn delivery_status(sent: bool) -> (status: MessageStatus)
    ensures
        sent ==> status == MessageStatus::Sent,
        !sent ==> status == MessageStatus::Failed,
{
    if sent {
        MessageStatus::Sent
    } else {
        MessageStatus::Failed
    }
}

/// Signal that listens to the current `MessageStatus` of a submitted message.
/// Clones share one cell: a status set through one clone is read through all.
#[derive(Debug, Clone)]
pub struct MessageSignal {
    signal: Arc<AtomicU8>,
}

impl MessageSignal {
    /// A fresh signal in the `Sending` state. What a later read of it gives
    /// is not stated: the status lives in a shared atomic cell whose content
    /// is not visible to proofs.
    pub fn sending() -> (signal: MessageSignal) {
        MessageSignal { signal: Arc::new(AtomicU8::new(MessageStatus::Sending.to_byte())) }
    }

    /// Makes a new `MessageSignal` that starts with the specified status.
    ///
    /// Useful for creating [`MessageStatus::Failed`] statuses without
    /// actually trying to send a message. As for `sending`, what a later
    /// read gives is not stated.
    pub fn new(status: MessageStatus) -> (signal: MessageSignal) {
        let signal = Self::sending();
        signal.set(status);
        signal
    }

    /// Reads the signal's [`MessageStatus`]: the stored byte, read as a
    /// status. The byte is shared with every clone, so what is read is not
    /// stated here.
    pub fn status(&self) -> (status: MessageStatus) {
        let b: u8 = self.signal.load(Ordering::Acquire);
        MessageStatus::from_byte(b)
    }

    /// Sets the signal's [`MessageStatus`] by storing its byte.
    pub(crate) fn set(&self, status: MessageStatus)
        opens_invariants none
        no_unwind
    {
        let b: u8 = status.to_byte();
        store_byte(&self.signal, b);
    }

    /// Another handle on this signal, sharing its state.
    pub fn share(&self) -> (shared: MessageSignal)
        ensures
            shared == *self,
    {
        MessageSignal { signal: share_cell(&self.signal) }
    }
}

/// Raw message with associated message signal.
#[derive(Debug, Clone)]
pub struct InRawMessage {
    message: Option<RawMessage>,
    signal: Option<MessageSignal>,
}

impl InRawMessage {
    /// The message still waiting to be sent, if it was not taken yet.
    pub closed spec fn payload(&self) -> Option<RawMessage> {
        self.message
    }

    /// The signal still waiting for the outcome, if it was not set yet.
    pub closed spec fn pending_signal(&self) -> Option<MessageSignal> {
        self.signal
    }

    /// A raw message with a fresh signal waiting for its outcome.
    pub fn new(message: RawMessage) -> (m: InRawMessage)
        ensures
            m.payload() == Some(message),
            m.pending_signal() is Some,
    {
        InRawMessage { message: Some(message), signal: Some(MessageSignal::sending()) }
    }

    /// Takes the message out for sending, leaving none behind.
    pub fn take_message(&mut self) -> (taken: Option<RawMessage>)
        ensures
            taken == old(self).payload(),
            final(self).payload() is None,
            final(self).pending_signal() == old(self).pending_signal(),
    {
        self.message.take()
    }

    /// Reports the outcome on the signal, once: the signal is released, so
    /// later calls report nothing more.
    pub fn set_signal(&mut self, state: MessageStatus)
        ensures
            final(self).pending_signal() is None,
            final(self).payload() == old(self).payload(),
    {
        match self.signal.take() {
            Some(signal) => signal.set(state),
            None => {},
        }
    }

    /// A copy of the signal, if it is still waiting.
    pub fn clone_signal(&self) -> (signal: Option<MessageSignal>)
        ensures
            signal == self.pending_signal(),
    {
        match &self.signal {
            Some(s) => Some(s.share()),
            None => None,
        }
    }

    /// Reports whether the socket took the message: `Sent` if it did,
    /// `Failed` if not. The signal is released either way.
    pub fn report_delivery(&mut self, sent: bool)
        ensures
            final(self).pending_signal() is None,
            final(self).payload() == old(self).payload(),
    {
        self.set_signal(delivery_status(sent));
    }
}

/// `AtomicU8::store` with `Release` ordering: stores a byte. A store with
/// this ordering neither panics nor opens an invariant.
#[verifier::external_body]
fn store_byte(cell: &AtomicU8, b: u8)
    opens_invariants none
    no_unwind
{
    cell.store(b, Ordering::Release);
}

impl Drop for InRawMessage {
    /// A message dropped while its signal still waits has failed: the signal
    /// is set to `Failed`.
    fn drop(&mut self)
        opens_invariants none
        no_unwind
    {
        match &self.signal {
            Some(signal) => signal.set(MessageStatus::Failed),
            None => {},
        }
        self.signal = None;
    }
}

/// Message with associated message signal.
#[derive(Debug, Clone)]
pub struct InMessage {
    message: Option<Message>,
    signal: Option<MessageSignal>,
}

impl InMessage {
    /// The message carried, if it was not taken yet.
    pub closed spec fn payload(&self) -> Option<Message> {
        self.message
    }

    /// The signal still waiting for the outcome, if it was not set yet.
    pub closed spec fn pending_signal(&self) -> Option<MessageSignal> {
        self.signal
    }

    /// A message with a fresh signal waiting for its outcome.
    pub fn new(message: Message) -> (m: InMessage)
        ensures
            m.payload() == Some(message),
            m.pending_signal() is Some,
    {
        InMessage { message: Some(message), signal: Some(MessageSignal::sending()) }
    }

    /// A message together with a handle on its signal, for the sender to
    /// watch.
    pub fn new_watched(message: Message) -> (r: (InMessage, MessageSignal))
        ensures
            r.0.payload() == Some(message),
            r.0.pending_signal() == Some(r.1),
    {
        let m = InMessage::new(message);
        let signal = match &m.signal {
            Some(s) => s.share(),
            None => MessageSignal::sending(),
        };
        (m, signal)
    }

    /// A copy of the signal, if it is still waiting.
    pub fn clone_signal(&self) -> (signal: Option<MessageSignal>)
        ensures
            signal == self.pending_signal(),
    {
        match &self.signal {
            Some(s) => Some(s.share()),
            None => None,
        }
    }

    /// The message carried.
    pub fn message(&self) -> (m: &Option<Message>)
        ensures
            *m == self.payload(),
    {
        &self.message
    }

    /// Whether the message carried is a close message.
    pub fn is_close(&self) -> (b: bool)
        ensures
            b <==> (self.payload() matches Some(Message::Close(_))),
    {
        match &self.message {
            Some(m) => m.is_close(),
            None => false,
        }
    }

    /// Turns the message into its raw form, handing its signal over.
    pub fn into_raw(self) -> (raw: InRawMessage)
        ensures
            raw.payload() == (match self.payload() {
                Some(m) => Some(raw_of(m)),
                None => None,
            }),
            raw.pending_signal() == self.pending_signal(),
    {
        let mut this = self;
        let message = match this.message.take() {
            Some(m) => Some(m.into_raw()),
            None => None,
        };
        let signal = this.signal.take();
        InRawMessage { message, signal }
    }
}

impl Drop for InMessage {
    /// A message dropped while its signal still waits has failed: the signal
    /// is set to `Failed`.
    fn drop(&mut self)
        opens_invariants none
        no_unwind
    {
        match &self.signal {
            Some(signal) => signal.set(MessageStatus::Failed),
            None => {},
        }
        self.signal = None;
    }
}

/// The raw form of a message with its signal: the raw form of the payload,
/// and the same signal.
pub closed spec fn in_raw_of(m: InMessage) -> InRawMessage {
    InRawMessage {
        message: match m.message {
            Some(msg) => Some(raw_of(msg)),
            None => None,
        },
        signal: m.signal,
    }
}

impl From<InMessage> for InRawMessage {
    fn from(inmessage: InMessage) -> (raw: InRawMessage)
        ensures
            raw.payload() == (match inmessage.payload() {
                Some(m) => Some(raw_of(m)),
                None => None,
            }),
            raw.pending_signal() == inmessage.pending_signal(),
    {
        let raw = inmessage.into_raw();
        proof {
            assert(raw == in_raw_of(inmessage));
        }
        raw
    }
}

impl vstd::std_specs::convert::FromSpecImpl<InMessage> for InRawMessage {
    open spec fn obeys_from_spec() -> bool {
        true
    }

    open spec fn from_spec(inmessage: InMessage) -> InRawMessage {
        in_raw_of(inmessage)
    }
}

/// What the conversion of a message with its signal holds: the raw form of
/// the payload, and the same signal.
pub proof fn lemma_in_raw_of(m: InMessage)
    ensures
        in_raw_of(m).payload() == (match m.payload() {
            Some(msg) => Some(raw_of(msg)),
            None => None,
        }),
        in_raw_of(m).pending_signal() == m.pending_signal(),
{
}

} // verus!
