//! The accept loop of one endpoint, as a state machine.
//!
//! The caller binds the socket, sleeps between polls and accepts; the
//! [`Listener`] decides what each outcome means.

use vstd::prelude::*;
use vstd::string::*;
use crate::control::ShutdownFlag;
use crate::websocket::Notice;
use crate::websocket::Ws2GuiMessage;

verus! {

/// Milliseconds the accept loop waits before each poll, so that it sees the
/// shutdown flag without blocking in accept.
pub const POLL_INTERVAL_MS: u64 = 10;

/// Where a listener stands.
#[derive(Clone, Copy, Debug, PartialEq, Eq, Structural)]
pub enum ListenerState {
    /// Created, socket not bound yet.
    Binding,
    /// Bound and polling for connections.
    Listening,
    /// Terminal: the bind failed or shutdown was observed.
    Stopped,
}

/// What the accept loop does at the start of a poll.
#[derive(Debug, PartialEq, Eq)]
pub enum PollAction {
    /// Try to accept one connection, without blocking.
    Accept,
    /// Leave the loop, after sending the notification if there is one.
    Stop(Option<Ws2GuiMessage>),
}

/// What the accept loop does after an accept attempt.
#[derive(Clone, Copy, Debug, PartialEq, Eq, Structural)]
pub enum AcceptAction {
    /// Start a session for the accepted connection, then poll again.
    Spawn,
    /// Nothing was accepted: poll again.
    Continue,
    /// Leave the loop.
    Stop,
}

/// A listener as a mathematical value.
pub struct ListenerView {
    pub endpoint: Seq<char>,
    pub state: ListenerState,
}

/// The notification of a bind that failed with `reason`.
pub open spec fn bind_failure_notice(reason: Seq<char>) -> Notice {
    Notice::Error("Failed binding to socket: "@ + reason)
}

/// The notification of a socket that could not be made non-blocking.
pub open spec fn blocking_notice(reason: Seq<char>) -> Notice {
    Notice::Warning(
        "Could not set websocket to non-blocking, graceful shutdown may be impossible now: "@
            + reason,
    )
}

/// The notification of a listener that stops on shutdown.
pub open spec fn stopping_notice(endpoint: Seq<char>) -> Notice {
    Notice::Info("Shutting down websocket: "@ + endpoint)
}

/// The state after a bind attempt: only a listener that is binding moves.
pub open spec fn state_after_bind(state: ListenerState, bound: bool) -> ListenerState {
    if state == ListenerState::Binding {
        if bound {
            ListenerState::Listening
        } else {
            ListenerState::Stopped
        }
    } else {
        state
    }
}

/// The state after the shutdown flag was read at the start of a poll.
pub open spec fn state_after_poll(state: ListenerState, shutdown: bool) -> ListenerState {
    if state == ListenerState::Listening && !shutdown {
        ListenerState::Listening
    } else {
        ListenerState::Stopped
    }
}

/// The state after an accept attempt. A failed accept ends the loop only if
/// the shutdown flag is up by then.
pub open spec fn state_after_accept(
    state: ListenerState,
    accepted: bool,
    shutdown: bool,
) -> ListenerState {
    if state == ListenerState::Listening && (accepted || !shutdown) {
        ListenerState::Listening
    } else {
        ListenerState::Stopped
    }
}

/// What follows an accept attempt.
pub open spec fn accept_action(
    state: ListenerState,
    accepted: bool,
    shutdown: bool,
) -> AcceptAction {
    if state != ListenerState::Listening {
        AcceptAction::Stop
    } else if accepted {
        AcceptAction::Spawn
    } else if shutdown {
        AcceptAction::Stop
    } else {
        AcceptAction::Continue
    }
}

/// The view of an optional notification.
pub open spec fn notice_view(notice: Option<Ws2GuiMessage>) -> Option<Notice> {
    match notice {
        Some(message) => Some(message@),
        None => None,
    }
}

/// The accept loop of one endpoint.
#[derive(Debug)]
pub struct Listener {
    endpoint: String,
    state: ListenerState,
}

impl View for Listener {
    type V = ListenerView;

    closed spec fn view(&self) -> ListenerView {
        ListenerView { endpoint: self.endpoint@, state: self.state }
    }
}

impl Listener {
    /// A listener for the endpoint written as `endpoint`, not yet bound.
    pub fn new(endpoint: String) -> (listener: Listener)
        ensures
            listener@ == (ListenerView { endpoint: endpoint@, state: ListenerState::Binding }),
    {
        Listener { endpoint, state: ListenerState::Binding }
    }

    /// Where the listener stands.
    pub fn state(&self) -> (state: ListenerState)
        ensures
            state == self@.state,
    {
        self.state
    }

    /// The bind attempt has ended. A failure stops this listener, and only
    /// this one, and is reported.
    pub fn on_bind(&mut self, outcome: Result<(), String>) -> (report: Option<Ws2GuiMessage>)
        ensures
            final(self)@.endpoint == old(self)@.endpoint,
            final(self)@.state == state_after_bind(old(self)@.state, outcome is Ok),
            notice_view(report) == (match outcome {
                Err(reason) if old(self)@.state == ListenerState::Binding => Some(
                    bind_failure_notice(reason@),
                ),
                _ => None,
            }),
    {
        if self.state != ListenerState::Binding {
            return None;
        }
        match outcome {
            Ok(_) => {
                self.state = ListenerState::Listening;
                None
            },
            Err(reason) => {
                self.state = ListenerState::Stopped;
                let mut text = String::from_str("Failed binding to socket: ");
                text.append(reason.as_str());
                Some(Ws2GuiMessage::Error(text))
            },
        }
    }

    /// The socket could not be made non-blocking. The listener goes on, but
    /// it may not see a shutdown while it waits in accept.
    pub fn on_blocking_socket(&self, reason: &str) -> (report: Ws2GuiMessage)
        ensures
            report@ == blocking_notice(reason@),
    {
        let mut text = String::from_str(
            "Could not set websocket to non-blocking, graceful shutdown may be impossible now: ",
        );
        text.append(reason);
        Ws2GuiMessage::Warning(text)
    }

    /// A poll begins. A listener that sees the flag up stops at once and says
    /// so; one that is not listening stops in silence.
    pub fn poll(&mut self, shutdown: &ShutdownFlag) -> (action: PollAction)
        ensures
            final(self)@.endpoint == old(self)@.endpoint,
            final(self)@.state == state_after_poll(old(self)@.state, shutdown.raised()),
            match action {
                PollAction::Accept => final(self)@.state == ListenerState::Listening,
                PollAction::Stop(report) => final(self)@.state == ListenerState::Stopped
                    && notice_view(report) == (if old(self)@.state == ListenerState::Listening {
                    Some(stopping_notice(old(self)@.endpoint))
                } else {
                    None
                }),
            },
    {
        if self.state != ListenerState::Listening {
            self.state = ListenerState::Stopped;
            return PollAction::Stop(None);
        }
        if shutdown.is_raised() {
            self.state = ListenerState::Stopped;
            let mut text = String::from_str("Shutting down websocket: ");
            text.append(self.endpoint.as_str());
            PollAction::Stop(Some(Ws2GuiMessage::Info(text)))
        } else {
            PollAction::Accept
        }
    }

    /// An accept attempt has ended. `accepted` says whether it brought a
    /// connection; `shutdown` is the flag as read after the attempt.
    pub fn on_accept(&mut self, accepted: bool, shutdown: &ShutdownFlag) -> (action: AcceptAction)
        ensures
            final(self)@.endpoint == old(self)@.endpoint,
            final(self)@.state == state_after_accept(
                old(self)@.state,
                accepted,
                shutdown.raised(),
            ),
            action == accept_action(old(self)@.state, accepted, shutdown.raised()),
    {
        if self.state != ListenerState::Listening {
            self.state = ListenerState::Stopped;
            AcceptAction::Stop
        } else if accepted {
            AcceptAction::Spawn
        } else if shutdown.is_raised() {
            self.state = ListenerState::Stopped;
            AcceptAction::Stop
        } else {
            AcceptAction::Continue
        }
    }
}

/// Once the flag is up, the next poll stops the listener, and a stopped
/// listener never accepts again, whatever the flag and the accept attempts
/// that follow.
pub proof fn lemma_shutdown_stops_listener(
    state: ListenerState,
    accepted: bool,
    shutdown: bool,
)
    ensures
        state_after_poll(state, true) == ListenerState::Stopped,
        state_after_poll(ListenerState::Stopped, shutdown) == ListenerState::Stopped,
        state_after_accept(ListenerState::Stopped, accepted, shutdown) == ListenerState::Stopped,
        accept_action(ListenerState::Stopped, accepted, shutdown) == AcceptAction::Stop,
        state_after_bind(ListenerState::Stopped, accepted) == ListenerState::Stopped,
{
}

/// A failed accept does not end the loop while the flag is down.
pub proof fn lemma_accept_failure_is_transient(state: ListenerState)
    requires
        state == ListenerState::Listening,
    ensures
        state_after_accept(state, false, false) == ListenerState::Listening,
        accept_action(state, false, false) == AcceptAction::Continue,
{
}

} // verus!
