use vstd::prelude::*;

use crate::close::CloseFrame;
use crate::message::Message;
use crate::message::Received;

verus! {

/// What a client does after its connection closed or an attempt failed.
#[derive(Debug, Clone, Copy, PartialEq, Eq, Structural)]
pub enum ClientCloseMode {
    /// Try to connect again.
    Reconnect,
    /// Stop for good.
    Close,
}

/// What a connecting client does with an entry of its outgoing queue.
#[derive(Debug, Clone, Copy, PartialEq, Eq, Structural)]
pub enum QueueEntry {
    /// A message the user submitted; `is_close` when it is a close message.
    Submitted { is_close: bool },
    /// The queue is empty.
    Empty,
    /// Every handle on the client was dropped.
    Closed,
}

/// The verdict on an entry of the outgoing queue while connecting.
#[derive(Debug, Clone, Copy, PartialEq, Eq, Structural)]
pub enum QueueVerdict {
    /// Not connected: the message is discarded; look at the next entry.
    Discard,
    /// The queue is drained: make connection attempt number `attempt`.
    Connect { attempt: usize },
    /// The user closed the client while it was connecting: stop, without
    /// error.
    StopClosed,
    /// The client is dead: stop with an error.
    StopDead,
}

/// The verdict after a failed connection attempt.
#[derive(Debug, Clone, Copy, PartialEq, Eq, Structural)]
pub enum RetryVerdict {
    /// The client chose to close: stop, without error.
    StopClosed,
    /// The last allowed attempt failed: stop with an error that names the
    /// number of attempts made.
    GiveUp { attempts: usize },
    /// Wait for the reconnect interval, then drain the queue and try again.
    RetryAfterInterval,
}

/// The abstract state of a connection loop.
pub struct AttemptsView {
    /// The number of the current (or next) attempt, starting at 1.
    pub attempt: nat,
    /// The number of attempts allowed.
    pub max_attempts: nat,
}

/// The number of attempts a loop makes before giving up: the limit, and at
/// least one.
pub open spec fn attempt_budget(max_attempts: nat) -> nat {
    if max_attempts == 0 {
        1
    } else {
        max_attempts
    }
}

/// The queue verdict while connecting.
pub open spec fn queue_verdict_of(s: AttemptsView, entry: QueueEntry) -> QueueVerdict {
    match entry {
        QueueEntry::Submitted { is_close } => if is_close {
            QueueVerdict::StopClosed
        } else {
            QueueVerdict::Discard
        },
        QueueEntry::Empty => QueueVerdict::Connect { attempt: s.attempt as usize },
        QueueEntry::Closed => QueueVerdict::StopDead,
    }
}

/// The state and the verdict after a failed attempt.
pub open spec fn retry_next(s: AttemptsView, mode: ClientCloseMode) -> (AttemptsView, RetryVerdict) {
    match mode {
        ClientCloseMode::Close => (s, RetryVerdict::StopClosed),
        ClientCloseMode::Reconnect => if s.attempt >= s.max_attempts {
            (s, RetryVerdict::GiveUp { attempts: s.attempt as usize })
        } else {
            (AttemptsView { attempt: s.attempt + 1, ..s }, RetryVerdict::RetryAfterInterval)
        },
    }
}

/// The connection loop of a client: which attempt it is at, out of how many.
pub struct ConnectAttempts {
    attempt: usize,
    max_attempts: usize,
}

impl View for ConnectAttempts {
    type V = AttemptsView;

    closed spec fn view(&self) -> AttemptsView {
        AttemptsView { attempt: self.attempt as nat, max_attempts: self.max_attempts as nat }
    }
}

impl ConnectAttempts {
    /// The loop's invariant: attempts are numbered from 1 and never go past
    /// the budget.
    pub open spec fn wf(&self) -> bool {
        1 <= self@.attempt <= attempt_budget(self@.max_attempts)
    }

    /// A loop about to make its first attempt, out of `max_attempts`.
    pub fn new(max_attempts: usize) -> (s: ConnectAttempts)
        ensures
            s.wf(),
            s@.attempt == 1,
            s@.max_attempts == max_attempts,
    {
        ConnectAttempts { attempt: 1, max_attempts }
    }

    /// The number of the current attempt.
    pub fn attempt(&self) -> (n: usize)
        ensures
            n == self@.attempt,
    {
        self.attempt
    }

    /// The verdict on an entry of the outgoing queue.
    pub fn on_queue_entry(&self, entry: QueueEntry) -> (verdict: QueueVerdict)
        requires
            self.wf(),
        ensures
            verdict == queue_verdict_of(self@, entry),
    {
        match entry {
            QueueEntry::Submitted { is_close } => if is_close {
                QueueVerdict::StopClosed
            } else {
                QueueVerdict::Discard
            },
            QueueEntry::Empty => QueueVerdict::Connect { attempt: self.attempt },
            QueueEntry::Closed => QueueVerdict::StopDead,
        }
    }

    /// The verdict after the current attempt failed and the client chose
    /// `mode`; moves to the next attempt when retrying.
    pub fn on_attempt_failed(&mut self, mode: ClientCloseMode) -> (verdict: RetryVerdict)
        requires
            old(self).wf(),
        ensures
            final(self).wf(),
            (final(self)@, verdict) == retry_next(old(self)@, mode),
    {
        match mode {
            ClientCloseMode::Close => RetryVerdict::StopClosed,
            ClientCloseMode::Reconnect => {
                if self.attempt >= self.max_attempts {
                    RetryVerdict::GiveUp { attempts: self.attempt }
                } else {
                    self.attempt = self.attempt + 1;
                    RetryVerdict::RetryAfterInterval
                }
            },
        }
    }
}

/// The state after `k` failed attempts, each followed by a choice to
/// reconnect.
pub open spec fn after_failures(s: AttemptsView, k: nat) -> AttemptsView
    decreases k,
{
    if k == 0 {
        s
    } else {
        retry_next(after_failures(s, (k - 1) as nat), ClientCloseMode::Reconnect).0
    }
}

/// A client that keeps failing and keeps choosing to reconnect makes exactly
/// its budget of attempts: the attempts before the last are retried, and
/// the last gives up naming the budget.
pub proof fn lemma_attempt_budget(max_attempts: nat, k: nat)
    requires
        k < attempt_budget(max_attempts),
    ensures
        after_failures(AttemptsView { attempt: 1, max_attempts }, k).attempt == k + 1,
        after_failures(AttemptsView { attempt: 1, max_attempts }, k).max_attempts == max_attempts,
        k + 1 < attempt_budget(max_attempts) ==> retry_next(
            after_failures(AttemptsView { attempt: 1, max_attempts }, k),
            ClientCloseMode::Reconnect,
        ).1 == RetryVerdict::RetryAfterInterval,
        k + 1 == attempt_budget(max_attempts) ==> retry_next(
            after_failures(AttemptsView { attempt: 1, max_attempts }, k),
            ClientCloseMode::Reconnect,
        ).1 == (RetryVerdict::GiveUp { attempts: (k + 1) as usize }),
    decreases k,
{
    if k > 0 {
        lemma_attempt_budget(max_attempts, (k - 1) as nat);
    }
}

/// A client that chooses to close after a failed attempt stops without
/// error, whatever attempt it is at and whatever its budget, and its state is
/// left as it was; giving up on the budget only ever follows a choice to
/// reconnect.
pub proof fn lemma_close_choice_stops_without_error(s: AttemptsView, mode: ClientCloseMode)
    ensures
        retry_next(s, ClientCloseMode::Close) == (s, RetryVerdict::StopClosed),
        retry_next(s, mode).1 is GiveUp ==> mode == ClientCloseMode::Reconnect,
        retry_next(s, mode).1 is StopClosed <==> mode == ClientCloseMode::Close,
{
}

/// While connecting, a user's close message stops the loop without error, a
/// dead client stops it with an error, any other message is discarded, and
/// only a drained queue leads to an attempt, the current one.
pub proof fn lemma_queue_verdicts(s: AttemptsView, is_close: bool)
    ensures
        queue_verdict_of(s, QueueEntry::Submitted { is_close }) == (if is_close {
            QueueVerdict::StopClosed
        } else {
            QueueVerdict::Discard
        }),
        queue_verdict_of(s, QueueEntry::Closed) == QueueVerdict::StopDead,
        queue_verdict_of(s, QueueEntry::Empty) == (QueueVerdict::Connect {
            attempt: s.attempt as usize,
        }),
{
}

/// A loop connects at once: with its queue drained, a fresh loop makes its
/// first attempt without waiting for an interval.
pub proof fn lemma_first_attempt_immediate(max_attempts: nat)
    ensures
        queue_verdict_of(AttemptsView { attempt: 1, max_attempts }, QueueEntry::Empty) == (
        QueueVerdict::Connect { attempt: 1 }),
{
}

/// Messages submitted while connecting never go out: every entry but a close
/// message is discarded, and a close message stops the loop.
pub proof fn lemma_no_message_crosses_a_reconnect(s: AttemptsView, entry: QueueEntry)
    requires
        entry is Submitted,
    ensures
        queue_verdict_of(s, entry) == QueueVerdict::Discard || queue_verdict_of(s, entry)
            == QueueVerdict::StopClosed,
{
}

/// How the closing of the sink went, after a message could not be handed to
/// it.
#[derive(Debug, Clone, Copy, PartialEq, Eq, Structural)]
pub enum SinkClose {
    /// The sink closed without error.
    Clean,
    /// The connection was closed through the close protocol.
    ConnectionClosed,
    /// The connection was already closed.
    AlreadyClosed,
    /// An I/O error.
    Io,
    /// A TLS error.
    Tls,
    /// Any other error.
    Other,
}

/// What the client actor does after handing a user's message to the socket.
#[derive(Debug, Clone, Copy, PartialEq, Eq, Structural)]
pub enum OutgoingOutcome {
    /// Keep the socket: a closed connection is left for the stream to
    /// report.
    KeepSocket,
    /// The message closed the client: drop the socket and stop.
    ClosedSelf,
    /// The sink failed in an unexpected way: stop with an error.
    Abort,
}

/// The outcome for a message that was (`sink_close` is `None`) or was not
/// taken by the socket.
pub open spec fn outgoing_outcome_of(closed_self: bool, sink_close: Option<SinkClose>) -> OutgoingOutcome {
    if !closed_self && sink_close == Some(SinkClose::Other) {
        OutgoingOutcome::Abort
    } else if closed_self {
        OutgoingOutcome::ClosedSelf
    } else {
        OutgoingOutcome::KeepSocket
    }
}

/// Decides what the client actor does after handing a message to the socket:
/// `closed_self` when the message was a close message, `sink_close` how the
/// sink closed when the socket refused the message.
pub fn outgoing_outcome(closed_self: bool, sink_close: Option<SinkClose>) -> (outcome: OutgoingOutcome)
    ensures
        outcome == outgoing_outcome_of(closed_self, sink_close),
{
    let unexpected = match sink_close {
        Some(SinkClose::Other) => true,
        _ => false,
    };
    if !closed_self && unexpected {
        OutgoingOutcome::Abort
    } else if closed_self {
        OutgoingOutcome::ClosedSelf
    } else {
        OutgoingOutcome::KeepSocket
    }
}

/// A message that is not the client's own close aborts the client only when
/// the sink failed in an unexpected way: a clean close, a closed connection,
/// an I/O or a TLS error keep the socket, for the stream to report the lost
/// connection; a message the socket took keeps it too.
pub proof fn lemma_only_unexpected_sink_errors_abort(closed_self: bool, sink_close: Option<SinkClose>)
    ensures
        (outgoing_outcome_of(closed_self, sink_close) == OutgoingOutcome::Abort) <==> (!closed_self
            && sink_close == Some(SinkClose::Other)),
        !closed_self && sink_close != Some(SinkClose::Other) ==> outgoing_outcome_of(
            closed_self,
            sink_close,
        ) == OutgoingOutcome::KeepSocket,
        outgoing_outcome_of(false, None) == OutgoingOutcome::KeepSocket,
        outgoing_outcome_of(false, Some(SinkClose::Clean)) == OutgoingOutcome::KeepSocket,
        outgoing_outcome_of(false, Some(SinkClose::ConnectionClosed)) == OutgoingOutcome::KeepSocket,
        outgoing_outcome_of(false, Some(SinkClose::AlreadyClosed)) == OutgoingOutcome::KeepSocket,
        outgoing_outcome_of(false, Some(SinkClose::Io)) == OutgoingOutcome::KeepSocket,
        outgoing_outcome_of(false, Some(SinkClose::Tls)) == OutgoingOutcome::KeepSocket,
{
}

/// A user's close message always stops the client, and never with an error.
pub proof fn lemma_close_message_stops_client(sink_close: Option<SinkClose>)
    ensures
        outgoing_outcome_of(true, sink_close) == OutgoingOutcome::ClosedSelf,
{
}

/// What the client actor does with what its socket yields.
#[derive(Debug)]
pub enum ClientReaction {
    /// Hand the text to the client's `on_text`.
    OnText(String),
    /// Hand the bytes to the client's `on_binary`.
    OnBinary(Vec<u8>),
    /// The server closed the connection: ask the client's `on_close` whether
    /// to reconnect.
    OnClose(Option<CloseFrame>),
    /// The socket died: ask the client's `on_disconnect` whether to
    /// reconnect.
    OnDisconnect,
    /// Log the connection error and go on.
    LogError,
    /// Nothing to do (pings and pongs are answered by the socket).
    Ignore,
}

/// What the client actor does with what its socket yields.
pub open spec fn client_reaction_of(r: Received) -> ClientReaction {
    match r {
        Received::Message(Message::Text(t)) => ClientReaction::OnText(t),
        Received::Message(Message::Binary(b)) => ClientReaction::OnBinary(b),
        Received::Message(Message::Close(f)) => ClientReaction::OnClose(f),
        Received::Message(Message::Ping(_)) => ClientReaction::Ignore,
        Received::Message(Message::Pong(_)) => ClientReaction::Ignore,
        Received::Error => ClientReaction::LogError,
        Received::Ended => ClientReaction::OnDisconnect,
    }
}

/// Decides what the client actor does with what its socket yields.
pub fn client_reaction(received: Received) -> (reaction: ClientReaction)
    ensures
        reaction == client_reaction_of(received),
{
    match received {
        Received::Message(Message::Text(t)) => ClientReaction::OnText(t),
        Received::Message(Message::Binary(b)) => ClientReaction::OnBinary(b),
        Received::Message(Message::Close(f)) => ClientReaction::OnClose(f),
        Received::Message(Message::Ping(_)) => ClientReaction::Ignore,
        Received::Message(Message::Pong(_)) => ClientReaction::Ignore,
        Received::Error => ClientReaction::LogError,
        Received::Ended => ClientReaction::OnDisconnect,
    }
}

/// Whether the client actor reconnects after `on_close` or `on_disconnect`
/// chose `mode`.
pub fn reconnects(mode: ClientCloseMode) -> (b: bool)
    ensures
        b <==> mode == ClientCloseMode::Reconnect,
{
    match mode {
        ClientCloseMode::Reconnect => true,
        ClientCloseMode::Close => false,
    }
}

/// What the socket yields reaches the client unchanged: text to `on_text`,
/// bytes to `on_binary`, and the server's close frame, exactly as received
/// (code and reason, or none), to `on_close`.
pub proof fn lemma_client_gets_what_was_received(t: String, b: Vec<u8>, f: Option<CloseFrame>)
    ensures
        client_reaction_of(Received::Message(Message::Text(t))) == ClientReaction::OnText(t),
        client_reaction_of(Received::Message(Message::Binary(b))) == ClientReaction::OnBinary(b),
        client_reaction_of(Received::Message(Message::Close(f))) == ClientReaction::OnClose(f),
{
}

/// The client reconnects only after the server closed the connection or the
/// socket died; data and errors never drop the connection.
pub proof fn lemma_only_close_or_death_ends_connection(r: Received)
    ensures
        (client_reaction_of(r) is OnClose || client_reaction_of(r) is OnDisconnect) <==> (r is Ended
            || r matches Received::Message(Message::Close(_))),
{
}

} // verus!
