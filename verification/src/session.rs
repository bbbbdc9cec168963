//! The protocol of one connection: the authentication step and the message
//! loop that follows it.
//!
//! A [`Session`] is told what happened on its connection and answers with what
//! is to be done. It owns no socket: the caller reads the frames and carries
//! out the answers.

use vstd::prelude::*;
use vstd::string::*;
use crate::registry::holds_registration;
use crate::registry::inserted;
use crate::registry::next_issue;
use crate::registry::removed;
use crate::registry::stamped;
use crate::registry::unstamped;
use crate::registry::ClientRegistry;
use crate::registry::PeerAddress;
use crate::websocket::Notice;
use crate::websocket::Ws2GuiMessage;

verus! {

/// Where a connection stands.
#[derive(Clone, Copy, Debug, PartialEq, Eq, Structural)]
pub enum ConnectionState {
    /// Accepted, transport not yet set up and registered.
    Connecting,
    /// Registered; a secret is configured and has not been presented yet.
    Authenticating,
    /// Frames go to the stream handler.
    Active,
    /// Terminal.
    Closed,
}

/// Status and reason carried by a close frame.
#[derive(Debug, PartialEq, Eq)]
pub struct CloseData {
    pub status_code: u16,
    pub reason: String,
}

/// A frame received from the client.
#[derive(Debug, PartialEq, Eq)]
pub enum Message {
    Text(String),
    Binary(Vec<u8>),
    Close(Option<CloseData>),
    Ping(Vec<u8>),
    Pong(Vec<u8>),
}

/// A frame as a mathematical value.
pub enum Frame {
    Text(Seq<char>),
    Binary(Seq<u8>),
    Close(Option<(u16, Seq<char>)>),
    Ping(Seq<u8>),
    Pong(Seq<u8>),
}

impl View for Message {
    type V = Frame;

    open spec fn view(&self) -> Frame {
        match self {
            Message::Text(text) => Frame::Text(text@),
            Message::Binary(data) => Frame::Binary(data@),
            Message::Close(None) => Frame::Close(None),
            Message::Close(Some(data)) => Frame::Close(Some((data.status_code, data.reason@))),
            Message::Ping(data) => Frame::Ping(data@),
            Message::Pong(data) => Frame::Pong(data@),
        }
    }
}

/// What the caller does with the frame it has just handed in.
#[derive(Clone, Copy, Debug, PartialEq, Eq, Structural)]
pub enum SessionAction {
    /// Drop the frame and keep reading.
    Discard,
    /// Hand the frame to the stream handler and keep reading.
    Forward,
    /// Hand the frame to the stream handler, then end the connection.
    ForwardAndClose,
    /// End the connection. Nothing is sent to the client.
    Close,
}

impl SessionAction {
    /// Whether the frame goes to the stream handler.
    pub open spec fn forwards(self) -> bool {
        self == SessionAction::Forward || self == SessionAction::ForwardAndClose
    }

    /// Whether the connection ends.
    pub open spec fn closes(self) -> bool {
        self == SessionAction::Close || self == SessionAction::ForwardAndClose
    }

    /// Tells whether the frame goes to the stream handler.
    pub fn is_forward(&self) -> (r: bool)
        ensures
            r == self.forwards(),
    {
        match self {
            SessionAction::Forward => true,
            SessionAction::ForwardAndClose => true,
            _ => false,
        }
    }

    /// Tells whether the connection ends.
    pub fn is_close(&self) -> (r: bool)
        ensures
            r == self.closes(),
    {
        match self {
            SessionAction::Close => true,
            SessionAction::ForwardAndClose => true,
            _ => false,
        }
    }
}

/// A session as a mathematical value.
pub struct SessionView {
    pub state: ConnectionState,
    pub secret: Option<Seq<char>>,
}

/// The state after `frame` has arrived in `session`.
///
/// While authenticating, the first text frame decides: it carries the secret
/// or the connection closes. Frames that are neither text nor close leave the
/// session waiting. Once active, only a close frame ends the session.
pub open spec fn next_state(session: SessionView, frame: Frame) -> ConnectionState {
    match session.state {
        ConnectionState::Connecting => ConnectionState::Connecting,
        ConnectionState::Closed => ConnectionState::Closed,
        ConnectionState::Authenticating => match frame {
            Frame::Text(text) => if session.secret == Some(text) {
                ConnectionState::Active
            } else {
                ConnectionState::Closed
            },
            Frame::Close(_) => ConnectionState::Closed,
            _ => ConnectionState::Authenticating,
        },
        ConnectionState::Active => match frame {
            Frame::Close(_) => ConnectionState::Closed,
            _ => ConnectionState::Active,
        },
    }
}

/// What is done with `frame` when it arrives in `session`.
///
/// The frame that carries the secret is consumed by the authentication and
/// not forwarded. An active session forwards every frame, the close frame too.
pub open spec fn action_for(session: SessionView, frame: Frame) -> SessionAction {
    match session.state {
        ConnectionState::Connecting => SessionAction::Discard,
        ConnectionState::Closed => SessionAction::Close,
        ConnectionState::Authenticating => match frame {
            Frame::Text(text) => if session.secret == Some(text) {
                SessionAction::Discard
            } else {
                SessionAction::Close
            },
            Frame::Close(_) => SessionAction::Close,
            _ => SessionAction::Discard,
        },
        ConnectionState::Active => match frame {
            Frame::Close(_) => SessionAction::ForwardAndClose,
            _ => SessionAction::Forward,
        },
    }
}

/// The session after `frame`: the secret stays, the state moves on.
pub open spec fn step(session: SessionView, frame: Frame) -> SessionView {
    SessionView { state: next_state(session, frame), secret: session.secret }
}

/// The session once its send half is registered: active at once where no
/// secret is configured, waiting for the secret otherwise.
pub open spec fn registered(session: SessionView) -> SessionView {
    if session.state == ConnectionState::Connecting {
        SessionView {
            state: if session.secret is Some {
                ConnectionState::Authenticating
            } else {
                ConnectionState::Active
            },
            secret: session.secret,
        }
    } else {
        session
    }
}

/// The session after all of `frames`, in order.
pub open spec fn after_frames(session: SessionView, frames: Seq<Frame>) -> SessionView
    decreases frames.len(),
{
    if frames.len() == 0 {
        session
    } else {
        after_frames(step(session, frames[0]), frames.skip(1))
    }
}

/// The frames among `frames` that reach the stream handler, in order.
pub open spec fn forwarded(session: SessionView, frames: Seq<Frame>) -> Seq<Frame>
    decreases frames.len(),
{
    if frames.len() == 0 {
        Seq::empty()
    } else {
        let rest = forwarded(step(session, frames[0]), frames.skip(1));
        if action_for(session, frames[0]).forwards() {
            seq![frames[0]] + rest
        } else {
            rest
        }
    }
}

/// Whether `frame` is neither text nor close: a session that waits for its
/// secret takes no notice of it.
pub open spec fn is_idle_frame(frame: Frame) -> bool {
    frame is Binary || frame is Ping || frame is Pong
}

/// The view of an optional secret.
pub open spec fn secret_view(secret: Option<String>) -> Option<Seq<char>> {
    match secret {
        Some(text) => Some(text@),
        None => None,
    }
}

/// A session that waits for `secret` to be presented.
pub open spec fn awaiting(secret: Seq<char>) -> SessionView {
    SessionView { state: ConnectionState::Authenticating, secret: Some(secret) }
}

/// An active session.
pub open spec fn admitted(secret: Option<Seq<char>>) -> SessionView {
    SessionView { state: ConnectionState::Active, secret }
}

/// Only an active session forwards a frame.
pub proof fn lemma_forward_only_when_active(session: SessionView, frame: Frame)
    ensures
        action_for(session, frame).forwards() ==> session.state == ConnectionState::Active,
{
}

/// A closed session stays closed and forwards nothing, whatever arrives.
pub proof fn lemma_closed_is_final(session: SessionView, frames: Seq<Frame>)
    requires
        session.state == ConnectionState::Closed,
    ensures
        after_frames(session, frames).state == ConnectionState::Closed,
        forwarded(session, frames) == Seq::<Frame>::empty(),
    decreases frames.len(),
{
    if frames.len() > 0 {
        lemma_closed_is_final(step(session, frames[0]), frames.skip(1));
    }
}

/// With a secret configured, a first text frame that differs from it closes
/// the connection, and no frame of the connection, before or after, reaches
/// the stream handler. `at` is the place of the first text frame; before it
/// come only frames that are neither text nor close.
pub proof fn lemma_wrong_secret_closes(secret: Seq<char>, frames: Seq<Frame>, at: int)
    requires
        0 <= at < frames.len(),
        forall|i: int| 0 <= i < at ==> is_idle_frame(#[trigger] frames[i]),
        frames[at] is Text,
        frames[at] != Frame::Text(secret),
    ensures
        after_frames(awaiting(secret), frames.take(at + 1)).state == ConnectionState::Closed,
        after_frames(awaiting(secret), frames).state == ConnectionState::Closed,
        forwarded(awaiting(secret), frames) == Seq::<Frame>::empty(),
    decreases at,
{
    reveal_with_fuel(after_frames, 2);
    reveal_with_fuel(forwarded, 2);
    let session = awaiting(secret);
    let rest = frames.skip(1);
    if at == 0 {
        let closed = step(session, frames[0]);
        assert(closed.state == ConnectionState::Closed);
        lemma_closed_is_final(closed, rest);
        assert(frames.take(1).skip(1) =~= Seq::<Frame>::empty());
        assert(frames.take(1)[0] == frames[0]);
    } else {
        assert(is_idle_frame(frames[0]));
        assert(step(session, frames[0]) == session);
        assert forall|i: int| 0 <= i < at - 1 implies is_idle_frame(#[trigger] rest[i]) by {
            assert(rest[i] == frames[i + 1]);
        }
        lemma_wrong_secret_closes(secret, rest, at - 1);
        assert(frames.take(at + 1).skip(1) =~= rest.take(at));
        assert(frames.take(at + 1)[0] == frames[0]);
    }
}

/// With a secret configured, a first text frame equal to it makes the session
/// active. Neither that frame nor any before it reaches the stream handler;
/// what follows is handled as an active session handles it.
pub proof fn lemma_right_secret_activates(secret: Seq<char>, frames: Seq<Frame>, at: int)
    requires
        0 <= at < frames.len(),
        forall|i: int| 0 <= i < at ==> is_idle_frame(#[trigger] frames[i]),
        frames[at] == Frame::Text(secret),
    ensures
        after_frames(awaiting(secret), frames.take(at + 1)) == admitted(Some(secret)),
        forwarded(awaiting(secret), frames.take(at + 1)) == Seq::<Frame>::empty(),
        forwarded(awaiting(secret), frames) == forwarded(
            admitted(Some(secret)),
            frames.skip(at + 1),
        ),
    decreases at,
{
    reveal_with_fuel(after_frames, 2);
    reveal_with_fuel(forwarded, 2);
    let session = awaiting(secret);
    let rest = frames.skip(1);
    if at == 0 {
        assert(step(session, frames[0]) == admitted(Some(secret)));
        assert(frames.take(1).skip(1) =~= Seq::<Frame>::empty());
        assert(frames.take(1)[0] == frames[0]);
    } else {
        assert(is_idle_frame(frames[0]));
        assert(step(session, frames[0]) == session);
        assert forall|i: int| 0 <= i < at - 1 implies is_idle_frame(#[trigger] rest[i]) by {
            assert(rest[i] == frames[i + 1]);
        }
        lemma_right_secret_activates(secret, rest, at - 1);
        assert(frames.take(at + 1).skip(1) =~= rest.take(at));
        assert(frames.take(at + 1)[0] == frames[0]);
        assert(rest.skip(at) =~= frames.skip(at + 1));
    }
}

/// With no secret configured, a session is active as soon as it is
/// registered, and the first frame it receives reaches the stream handler.
pub proof fn lemma_no_secret_is_active(session: SessionView, frames: Seq<Frame>)
    requires
        session.state == ConnectionState::Connecting,
        session.secret is None,
    ensures
        registered(session) == admitted(None),
        frames.len() > 0 ==> forwarded(registered(session), frames).len() > 0 && forwarded(
            registered(session),
            frames,
        )[0] == frames[0],
{
}

/// An active session hands every frame up to and including the first close
/// frame to the stream handler, in the order of arrival.
pub proof fn lemma_active_forwards_in_order(secret: Option<Seq<char>>, frames: Seq<Frame>)
    requires
        forall|i: int| 0 <= i < frames.len() ==> !(#[trigger] frames[i] is Close),
    ensures
        forwarded(admitted(secret), frames) == frames,
        after_frames(admitted(secret), frames) == admitted(secret),
    decreases frames.len(),
{
    if frames.len() > 0 {
        let rest = frames.skip(1);
        assert(!(frames[0] is Close));
        assert(step(admitted(secret), frames[0]) == admitted(secret));
        assert forall|i: int| 0 <= i < rest.len() implies !(#[trigger] rest[i] is Close) by {
            assert(rest[i] == frames[i + 1]);
        }
        lemma_active_forwards_in_order(secret, rest);
        assert(seq![frames[0]] + rest =~= frames);
    } else {
        assert(frames =~= Seq::<Frame>::empty());
    }
}

/// The protocol state of one connection.
#[derive(Debug)]
pub struct Session {
    state: ConnectionState,
    secret: Option<String>,
    registration: Option<(PeerAddress, u64)>,
}

impl View for Session {
    type V = SessionView;

    closed spec fn view(&self) -> SessionView {
        SessionView { state: self.state, secret: secret_view(self.secret) }
    }
}

impl Session {
    /// The address under which the session was put into the registry and the
    /// serial number it got there, until the session leaves.
    pub closed spec fn registration(&self) -> Option<(PeerAddress, u64)> {
        self.registration
    }

    /// The address under which the session stands in the registry, while it
    /// does.
    pub open spec fn address(&self) -> Option<PeerAddress> {
        match self.registration() {
            Some(made) => Some(made.0),
            None => None,
        }
    }

    /// A session for a connection that has just been accepted.
    pub fn new(secret: Option<String>) -> (session: Session)
        ensures
            session@ == (SessionView {
                state: ConnectionState::Connecting,
                secret: secret_view(secret),
            }),
            session.registration() is None,
    {
        Session { state: ConnectionState::Connecting, secret, registration: None }
    }

    /// Where the connection stands.
    pub fn state(&self) -> (state: ConnectionState)
        ensures
            state == self@.state,
    {
        self.state
    }

    /// Tells whether frames go to the stream handler.
    pub fn is_active(&self) -> (r: bool)
        ensures
            r == (self@.state == ConnectionState::Active),
    {
        self.state == ConnectionState::Active
    }

    /// Tells whether the connection has ended.
    pub fn is_closed(&self) -> (r: bool)
        ensures
            r == (self@.state == ConnectionState::Closed),
    {
        self.state == ConnectionState::Closed
    }

    /// The transport is set up: puts the connection's send half into the
    /// registry under the peer's address and lets the protocol begin. The
    /// session keeps the serial number of its registration. A handle that
    /// stood under that address is handed back.
    pub fn register<H>(
        &mut self,
        registry: &mut ClientRegistry<H>,
        address: PeerAddress,
        handle: H,
    ) -> (replaced: Option<H>)
        ensures
            final(self)@ == registered(old(self)@),
            final(self).registration() == Some((address, old(registry).issued())),
            final(registry).wf(),
            final(registry).entries() == inserted(old(registry).entries(), address, handle),
            final(registry).serials() == stamped(
                old(registry).entries(),
                old(registry).serials(),
                address,
                old(registry).issued(),
            ),
            final(registry).issued() == next_issue(old(registry).issued()),
            final(registry)@ == old(registry)@.insert(address, handle),
            replaced == (if old(registry)@.contains_key(address) {
                Some(old(registry)@[address])
            } else {
                None
            }),
    {
        let serial = registry.next_serial();
        let replaced = registry.insert(address, handle);
        self.registration = Some((address, serial));
        if self.state == ConnectionState::Connecting {
            if self.secret.is_some() {
                self.state = ConnectionState::Authenticating;
            } else {
                self.state = ConnectionState::Active;
            }
        }
        replaced
    }

    /// A frame has arrived. Says what to do with it.
    pub fn on_message(&mut self, message: &Message) -> (action: SessionAction)
        ensures
            final(self)@ == step(old(self)@, message@),
            final(self).registration() == old(self).registration(),
            action == action_for(old(self)@, message@),
    {
        match self.state {
            ConnectionState::Connecting => SessionAction::Discard,
            ConnectionState::Closed => SessionAction::Close,
            ConnectionState::Authenticating => match message {
                Message::Text(text) => {
                    let admitted = match &self.secret {
                        Some(secret) => *secret == *text,
                        None => false,
                    };
                    if admitted {
                        self.state = ConnectionState::Active;
                        SessionAction::Discard
                    } else {
                        self.state = ConnectionState::Closed;
                        SessionAction::Close
                    }
                },
                Message::Close(_) => {
                    self.state = ConnectionState::Closed;
                    SessionAction::Close
                },
                _ => SessionAction::Discard,
            },
            ConnectionState::Active => match message {
                Message::Close(_) => {
                    self.state = ConnectionState::Closed;
                    SessionAction::ForwardAndClose
                },
                _ => SessionAction::Forward,
            },
        }
    }

    /// The connection ends for a reason other than a frame: a read error, a
    /// stream handler that could not be built, or the shutdown broadcast.
    pub fn close(&mut self)
        ensures
            final(self)@ == (SessionView {
                state: ConnectionState::Closed,
                secret: old(self)@.secret,
            }),
            final(self).registration() == old(self).registration(),
    {
        self.state = ConnectionState::Closed;
    }

    /// The connection is over, however it ended: closes the session and takes
    /// its entry out of the registry, so that none is left behind. Only the
    /// session's own entry goes: where the address has been registered again
    /// since, the later entry stays. The handle taken out is handed back.
    pub fn leave<H>(&mut self, registry: &mut ClientRegistry<H>) -> (taken: Option<H>)
        ensures
            final(self)@ == (SessionView {
                state: ConnectionState::Closed,
                secret: old(self)@.secret,
            }),
            final(self).registration() is None,
            final(registry).issued() == old(registry).issued(),
            match old(self).registration() {
                Some((address, serial)) if holds_registration(
                    old(registry).entries(),
                    old(registry).serials(),
                    address,
                    serial,
                ) => {
                    &&& final(registry).entries() == removed(old(registry).entries(), address)
                    &&& final(registry).serials() == unstamped(
                        old(registry).entries(),
                        old(registry).serials(),
                        address,
                    )
                    &&& final(registry)@ == old(registry)@.remove(address)
                    &&& taken == Some(old(registry)@[address])
                },
                _ => {
                    &&& final(registry).entries() == old(registry).entries()
                    &&& final(registry).serials() == old(registry).serials()
                    &&& final(registry)@ == old(registry)@
                    &&& taken is None
                },
            },
    {
        self.state = ConnectionState::Closed;
        match self.registration {
            Some((address, serial)) => {
                self.registration = None;
                registry.withdraw(&address, serial)
            },
            None => None,
        }
    }
}

/// The step of connection setup that failed.
#[derive(Clone, Copy, Debug, PartialEq, Eq, Structural)]
pub enum SetupStage {
    /// The transport handshake.
    Handshake,
    /// Asking the transport for the peer's address.
    PeerAddress,
    /// Splitting the transport into its two halves.
    Split,
    /// Building the stream handler, after registration.
    StreamHandler,
}

/// The notification for a setup step that failed with `reason`.
pub open spec fn setup_failure_notice(stage: SetupStage, reason: Seq<char>) -> Notice {
    match stage {
        SetupStage::Handshake => Notice::Warning("Failed to accept client: "@ + reason),
        SetupStage::PeerAddress => Notice::Warning(
            "Failed to retrieve client address: "@ + reason,
        ),
        SetupStage::Split => Notice::Warning("Failed to setup connection: "@ + reason),
        SetupStage::StreamHandler => Notice::Error("Failed to create stream handler: "@ + reason),
    }
}

/// Builds the notification for a setup step that failed with `reason`.
/// The connection is given up after any of them.
pub fn setup_failure(stage: SetupStage, reason: &str) -> (notice: Ws2GuiMessage)
    ensures
        notice@ == setup_failure_notice(stage, reason@),
{
    match stage {
        SetupStage::Handshake => {
            let mut text = String::from_str("Failed to accept client: ");
            text.append(reason);
            Ws2GuiMessage::Warning(text)
        },
        SetupStage::PeerAddress => {
            let mut text = String::from_str("Failed to retrieve client address: ");
            text.append(reason);
            Ws2GuiMessage::Warning(text)
        },
        SetupStage::Split => {
            let mut text = String::from_str("Failed to setup connection: ");
            text.append(reason);
            Ws2GuiMessage::Warning(text)
        },
        SetupStage::StreamHandler => {
            let mut text = String::from_str("Failed to create stream handler: ");
            text.append(reason);
            Ws2GuiMessage::Error(text)
        },
    }
}

} // verus!
