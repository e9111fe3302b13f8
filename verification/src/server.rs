use vstd::prelude::*;

use crate::close::CloseCode;
use crate::close::CloseFrame;

verus! {

/// Errors returned by a graceful shutdown request.
#[derive(Debug, Clone, Copy, PartialEq, Eq, Structural)]
pub enum GracefulShutdownError {
    /// The server actor has already exited (either because shutdown
    /// completed previously, or because the actor task was aborted).
    ServerStopped,
}

impl GracefulShutdownError {
    /// The text that describes the error.
    pub fn message(&self) -> (text: String)
        ensures
            text@ == "server actor has already stopped"@,
    {
        proof {
            reveal_strlit("server actor has already stopped");
        }
        String::from_str("server actor has already stopped")
    }
}

/// The close frame sent to every live session once a graceful shutdown has
/// begun.
pub fn shutdown_close_frame() -> (frame: CloseFrame)
    ensures
        frame.code == CloseCode::Away,
        frame.reason@ == "server shutting down"@,
{
    proof {
        reveal_strlit("server shutting down");
    }
    CloseFrame { code: CloseCode::Away, reason: String::from_str("server shutting down") }
}

/// What happens to the server actor.
#[derive(Debug, Clone, Copy, PartialEq, Eq, Structural)]
pub enum ServerEvent {
    /// A caller asked for a graceful shutdown.
    ShutdownRequested,
    /// A new connection was handed to the server.
    ConnectionArrived,
    /// The extension accepted the connection and made a session of it.
    SessionAccepted,
    /// The extension refused the connection.
    ConnectionRejected,
    /// A session ended.
    SessionClosed,
    /// A custom call for the extension arrived.
    CallArrived,
}

/// What the server actor does in answer to an event.
#[derive(Debug, Clone, Copy, PartialEq, Eq, Structural)]
pub enum ServerAction {
    /// First shutdown request: tell every live session to close, and keep
    /// the caller's acknowledgement until the sessions are gone.
    BroadcastShutdown,
    /// Shutdown already under way: keep the caller's acknowledgement.
    AwaitDrain,
    /// Hand the connection to the extension's `on_connect`.
    OfferConnection,
    /// Shutdown under way: the connection stays queued and is not handed
    /// to the extension.
    HoldConnection,
    /// Count the session and watch it for shutdown.
    WatchSession,
    /// Send the extension's close frame to the refused connection.
    ForwardRejection,
    /// Tell the extension's `on_disconnect` about the ended session.
    NotifyDisconnect,
    /// Hand the call to the extension's `on_call`.
    DispatchCall,
    /// Shutdown under way: the call stays queued and is not dispatched.
    HoldCall,
}

/// The abstract state of the server actor.
pub struct ServerView {
    /// Sessions accepted and not yet ended.
    pub active_sessions: nat,
    /// Whether a graceful shutdown has begun.
    pub shutting_down: bool,
}

/// The server actor's state and the action taken for an event.
pub open spec fn server_next(s: ServerView, e: ServerEvent) -> (ServerView, ServerAction) {
    match e {
        ServerEvent::ShutdownRequested => if s.shutting_down {
            (s, ServerAction::AwaitDrain)
        } else {
            (ServerView { shutting_down: true, ..s }, ServerAction::BroadcastShutdown)
        },
        ServerEvent::ConnectionArrived => if s.shutting_down {
            (s, ServerAction::HoldConnection)
        } else {
            (s, ServerAction::OfferConnection)
        },
        ServerEvent::SessionAccepted => (
            ServerView { active_sessions: s.active_sessions + 1, ..s },
            ServerAction::WatchSession,
        ),
        ServerEvent::ConnectionRejected => (s, ServerAction::ForwardRejection),
        ServerEvent::SessionClosed => (
            ServerView {
                active_sessions: if s.active_sessions == 0 {
                    0
                } else {
                    (s.active_sessions - 1) as nat
                },
                ..s
            },
            ServerAction::NotifyDisconnect,
        ),
        ServerEvent::CallArrived => if s.shutting_down {
            (s, ServerAction::HoldCall)
        } else {
            (s, ServerAction::DispatchCall)
        },
    }
}

/// The actor stops, acknowledging every shutdown request, once shutdown has
/// begun and no session is left.
pub open spec fn server_done(s: ServerView) -> bool {
    s.shutting_down && s.active_sessions == 0
}

/// The state of the server actor: how many sessions live, and whether a
/// graceful shutdown has begun.
pub struct ServerState {
    active_sessions: usize,
    shutting_down: bool,
}

impl View for ServerState {
    type V = ServerView;

    closed spec fn view(&self) -> ServerView {
        ServerView {
            active_sessions: self.active_sessions as nat,
            shutting_down: self.shutting_down,
        }
    }
}

impl ServerState {
    /// A server with no session and no shutdown requested.
    pub fn new() -> (s: ServerState)
        ensures
            s@.active_sessions == 0,
            !s@.shutting_down,
    {
        ServerState { active_sessions: 0, shutting_down: false }
    }

    /// Sessions accepted and not yet ended.
    pub fn active_sessions(&self) -> (n: usize)
        ensures
            n == self@.active_sessions,
    {
        self.active_sessions
    }

    /// Whether a graceful shutdown has begun.
    pub fn is_shutting_down(&self) -> (b: bool)
        ensures
            b == self@.shutting_down,
    {
        self.shutting_down
    }

    /// Whether the actor is done: shutdown has begun and no session is left.
    pub fn is_done(&self) -> (b: bool)
        ensures
            b == server_done(self@),
    {
        self.shutting_down && self.active_sessions == 0
    }

    /// Whether custom calls are taken from the queue and dispatched.
    pub fn accepts_calls(&self) -> (b: bool)
        ensures
            b == !self@.shutting_down,
    {
        !self.shutting_down
    }

    /// Whether new connections are taken from the queue and offered to the
    /// extension; during shutdown they stay queued.
    pub fn accepts_connections(&self) -> (b: bool)
        ensures
            b == !self@.shutting_down,
    {
        !self.shutting_down
    }

    /// Applies an event and says what to do about it.
    pub fn step(&mut self, event: ServerEvent) -> (action: ServerAction)
        requires
            event == ServerEvent::SessionAccepted ==> old(self)@.active_sessions < usize::MAX,
        ensures
            (final(self)@, action) == server_next(old(self)@, event),
    {
        match event {
            ServerEvent::ShutdownRequested => {
                if self.shutting_down {
                    ServerAction::AwaitDrain
                } else {
                    self.shutting_down = true;
                    ServerAction::BroadcastShutdown
                }
            },
            ServerEvent::ConnectionArrived => {
                if self.shutting_down {
                    ServerAction::HoldConnection
                } else {
                    ServerAction::OfferConnection
                }
            },
            ServerEvent::SessionAccepted => {
                self.active_sessions = self.active_sessions + 1;
                ServerAction::WatchSession
            },
            ServerEvent::ConnectionRejected => ServerAction::ForwardRejection,
            ServerEvent::SessionClosed => {
                self.active_sessions = self.active_sessions.saturating_sub(1);
                ServerAction::NotifyDisconnect
            },
            ServerEvent::CallArrived => {
                if self.shutting_down {
                    ServerAction::HoldCall
                } else {
                    ServerAction::DispatchCall
                }
            },
        }
    }
}

/// Once a graceful shutdown has begun it never ends: no event takes the
/// server back to accepting connections or calls.
pub proof fn lemma_shutdown_is_permanent(s: ServerView, e: ServerEvent)
    requires
        s.shutting_down,
    ensures
        server_next(s, e).0.shutting_down,
        server_next(s, e).1 != ServerAction::OfferConnection,
        server_next(s, e).1 != ServerAction::DispatchCall,
{
}

/// During shutdown no new connection is offered to the extension (it stays
/// queued), and no call reaches the extension.
pub proof fn lemma_shutdown_refuses_work(s: ServerView)
    requires
        s.shutting_down,
    ensures
        server_next(s, ServerEvent::ConnectionArrived).1 == ServerAction::HoldConnection,
        server_next(s, ServerEvent::CallArrived).1 == ServerAction::HoldCall,
{
}

/// Asking for shutdown twice is the same as asking once: the second request
/// changes nothing and broadcasts nothing; it only waits for the same drain.
pub proof fn lemma_shutdown_idempotent(s: ServerView)
    ensures
        server_next(server_next(s, ServerEvent::ShutdownRequested).0, ServerEvent::ShutdownRequested)
            == (server_next(s, ServerEvent::ShutdownRequested).0, ServerAction::AwaitDrain),
{
}

/// A server with no live session that is asked to shut down is done at once.
pub proof fn lemma_shutdown_without_sessions_completes(s: ServerView)
    requires
        s.active_sessions == 0,
    ensures
        server_done(server_next(s, ServerEvent::ShutdownRequested).0),
{
}

/// The actor is never done before a shutdown was requested.
pub proof fn lemma_done_only_after_shutdown(s: ServerView)
    requires
        server_done(s),
    ensures
        s.shutting_down,
{
}

/// The state after `k` sessions end.
pub open spec fn after_closes(s: ServerView, k: nat) -> ServerView
    decreases k,
{
    if k == 0 {
        s
    } else {
        server_next(after_closes(s, (k - 1) as nat), ServerEvent::SessionClosed).0
    }
}

/// Graceful drain: once shutdown has begun with `n` live sessions, the
/// server is done after those `n` sessions end, and not before.
pub proof fn lemma_drain_completes(s: ServerView, k: nat)
    requires
        s.shutting_down,
        k <= s.active_sessions,
    ensures
        after_closes(s, k).shutting_down,
        after_closes(s, k).active_sessions == s.active_sessions - k,
        server_done(after_closes(s, k)) <==> k == s.active_sessions,
    decreases k,
{
    if k > 0 {
        lemma_drain_completes(s, (k - 1) as nat);
    }
}

/// Every accepted session is counted until it ends: accepting then closing
/// a session gives back the same count.
pub proof fn lemma_accept_then_close(s: ServerView)
    ensures
        server_next(server_next(s, ServerEvent::SessionAccepted).0, ServerEvent::SessionClosed).0
            == s,
{
}

/// The state after a sequence of events, applied in order.
pub open spec fn run_events(s: ServerView, events: Seq<ServerEvent>) -> ServerView
    decreases events.len(),
{
    if events.len() == 0 {
        s
    } else {
        server_next(run_events(s, events.drop_last()), events.last()).0
    }
}

/// How many times an event occurs in a sequence.
pub open spec fn occurrences(events: Seq<ServerEvent>, e: ServerEvent) -> nat
    decreases events.len(),
{
    if events.len() == 0 {
        0
    } else {
        occurrences(events.drop_last(), e) + if events.last() == e {
            1nat
        } else {
            0nat
        }
    }
}

/// No prefix of the sequence closes more sessions than were live or
/// accepted before it.
pub open spec fn closes_covered(active: nat, events: Seq<ServerEvent>) -> bool
    decreases events.len(),
{
    if events.len() == 0 {
        true
    } else {
        closes_covered(active, events.drop_last()) && occurrences(
            events,
            ServerEvent::SessionClosed,
        ) <= active + occurrences(events, ServerEvent::SessionAccepted)
    }
}

/// Whatever happens, a server is shutting down exactly when it already was
/// or a shutdown was requested on the way: shutdown cannot be undone, and
/// nothing but a request starts it.
pub proof fn lemma_shutdown_iff_requested(s: ServerView, events: Seq<ServerEvent>)
    ensures
        run_events(s, events).shutting_down <==> (s.shutting_down || occurrences(
            events,
            ServerEvent::ShutdownRequested,
        ) > 0),
    decreases events.len(),
{
    if events.len() > 0 {
        lemma_shutdown_iff_requested(s, events.drop_last());
    }
}

/// The count of live sessions is exact: it is the sessions live at the
/// start, plus those accepted, minus those closed, as long as no more
/// sessions close than were live or accepted.
pub proof fn lemma_session_count(s: ServerView, events: Seq<ServerEvent>)
    requires
        closes_covered(s.active_sessions, events),
    ensures
        run_events(s, events).active_sessions + occurrences(events, ServerEvent::SessionClosed)
            == s.active_sessions + occurrences(events, ServerEvent::SessionAccepted),
    decreases events.len(),
{
    if events.len() > 0 {
        lemma_session_count(s, events.drop_last());
    }
}

/// Every ended session is reported to the extension, in any state, shutdown
/// or not.
pub proof fn lemma_every_close_notified(s: ServerView)
    ensures
        server_next(s, ServerEvent::SessionClosed).1 == ServerAction::NotifyDisconnect,
{
}

} // verus!
