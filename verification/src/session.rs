//! The state machine of one streaming session.
//!
//! A session is driven from outside: whoever owns the socket hands it each
//! event together with the reading of a monotonic clock, carries out the
//! action that comes back, and reports the outcome of the two actions that
//! have one. The machine itself performs no input or output.
//!
//! ```text
//! Handshake --text frame------------------------> Joining   (Join)
//! Joining   --join succeeded--------------------> Joined    (SendText OverwriteState)
//! Joining   --join failed-----------------------> Closed    (Close Error)
//! Joined    --text frame------------------------> Joined    (SubmitOp)
//! Joined    --operation from the cell-----------> Joined    (SendText)
//! Handshake, Joined --ping / pong---------------> same      (Pong / Nothing)
//! Handshake, Joined --tick, peer heard of late--> same      (Ping)
//! Handshake, Joined --tick, peer silent too long> Closed    (Close)
//! Handshake, Joined --binary, continuation------> Closed    (Close Unsupported)
//! Handshake, Joined --close frame, stream error-> Closed    (Close)
//! ```

use crate::errors::AppError;
use crate::model::{OpView, SnapshotView, StateSnapshot, WebsocketOp};
use vstd::prelude::*;

verus! {

/// How often a heartbeat tick is due, in nanoseconds: every five seconds.
pub const HEARTBEAT_INTERVAL_NANOS: u64 = 5_000_000_000;

/// How long a peer may stay silent before the session is closed, in
/// nanoseconds: ten seconds.
pub const CLIENT_TIMEOUT_NANOS: u64 = 10_000_000_000;

/// Where a session stands.
#[derive(Clone, Copy, Debug, PartialEq, Eq, Structural)]
pub enum Phase {
    /// Waiting for the first text frame, which carries the API key.
    Handshake,
    /// The first text frame has been handed out to be resolved.
    Joining,
    /// Bound to the user's cell.
    Joined,
    /// Over. Nothing happens any more.
    Closed,
}

/// The state of one session.
#[derive(Clone, Copy, Debug, PartialEq, Eq, Structural)]
pub struct Session {
    pub phase: Phase,
    /// The clock reading at which the peer last sent a ping or a pong, or at
    /// which the session began.
    pub last_heartbeat: u64,
}

/// The code of a close frame.
#[derive(Clone, Copy, Debug, PartialEq, Eq, Structural)]
pub enum CloseCode {
    Unsupported,
    Error,
}

/// Why a session is closed, as told to the peer.
#[derive(Debug, PartialEq, Eq)]
pub struct CloseReason {
    pub code: CloseCode,
    pub description: Option<String>,
}

/// A frame received from the peer, with the payload that the session reads.
#[derive(Debug, PartialEq, Eq)]
pub enum Message {
    Text(String),
    Binary,
    Continuation,
    Ping(Vec<u8>),
    Pong,
    Close,
    Nop,
}

/// Why a session could not join its user's cell.
#[derive(Debug, PartialEq, Eq)]
pub enum JoinError {
    /// The first text frame did not decode; the text says why.
    BadInit(String),
    /// The key was not accepted, or the user's state could not be loaded.
    App(AppError),
}

/// What can happen to a session.
#[derive(Debug, PartialEq, Eq)]
pub enum SessionEvent {
    /// The heartbeat ticker fired.
    HeartbeatTick,
    /// The peer sent a frame.
    ClientMessage(Message),
    /// The stream of frames from the peer failed.
    ClientError,
    /// The outcome of a `Join`: the user's current snapshot, or the failure.
    JoinDone(Result<StateSnapshot, JoinError>),
    /// The user's cell published an operation.
    ServerUpdate(WebsocketOp),
    /// The session fell behind the cell and missed some operations.
    ServerLagged,
    /// The outcome of a `SubmitOp`.
    OpDone(Result<(), AppError>),
    /// A `SendText` could not be delivered.
    SendFailed,
}

/// What the owner of the socket is to do next.
#[derive(Debug, PartialEq, Eq)]
pub enum Action {
    Nothing,
    /// Send a ping with an empty payload; whether it arrives does not matter.
    Ping,
    /// Send a pong with this payload; whether it arrives does not matter.
    Pong(Vec<u8>),
    /// Decode `text` as the message that carries the API key, resolve the
    /// user, join the user's cell, and report back with `JoinDone`.
    Join { text: String },
    /// Decode `text` as an operation, run it through the user's cell, and
    /// report back with `OpDone`.
    SubmitOp { text: String },
    /// Send this operation as a text frame; report `SendFailed` if it could
    /// not be sent.
    SendText(WebsocketOp),
    /// Try to close the socket with this reason and stop.
    Close(Option<CloseReason>),
}

/// What a close reason stands for.
pub struct CloseReasonView {
    pub code: CloseCode,
    pub description: Option<Seq<char>>,
}

/// What a frame stands for.
pub enum MessageView {
    Text(Seq<char>),
    Binary,
    Continuation,
    Ping(Seq<u8>),
    Pong,
    Close,
    Nop,
}

/// What a failure to join stands for.
pub enum JoinErrorView {
    BadInit(Seq<char>),
    App(AppError),
}

/// What an event stands for.
pub enum SessionEventView {
    HeartbeatTick,
    ClientMessage(MessageView),
    ClientError,
    JoinDone(Result<SnapshotView, JoinErrorView>),
    ServerUpdate(OpView),
    ServerLagged,
    OpDone(Result<(), AppError>),
    SendFailed,
}

/// What an action stands for.
pub enum ActionView {
    Nothing,
    Ping,
    Pong(Seq<u8>),
    Join { text: Seq<char> },
    SubmitOp { text: Seq<char> },
    SendText(OpView),
    Close(Option<CloseReasonView>),
}

impl View for CloseReason {
    type V = CloseReasonView;

    open spec fn view(&self) -> CloseReasonView {
        CloseReasonView {
            code: self.code,
            description: match self.description {
                Some(text) => Some(text@),
                None => None,
            },
        }
    }
}

impl View for Message {
    type V = MessageView;

    open spec fn view(&self) -> MessageView {
        match *self {
            Message::Text(text) => MessageView::Text(text@),
            Message::Binary => MessageView::Binary,
            Message::Continuation => MessageView::Continuation,
            Message::Ping(payload) => MessageView::Ping(payload@),
            Message::Pong => MessageView::Pong,
            Message::Close => MessageView::Close,
            Message::Nop => MessageView::Nop,
        }
    }
}

impl View for JoinError {
    type V = JoinErrorView;

    open spec fn view(&self) -> JoinErrorView {
        match *self {
            JoinError::BadInit(text) => JoinErrorView::BadInit(text@),
            JoinError::App(e) => JoinErrorView::App(e),
        }
    }
}

impl View for SessionEvent {
    type V = SessionEventView;

    open spec fn view(&self) -> SessionEventView {
        match *self {
            SessionEvent::HeartbeatTick => SessionEventView::HeartbeatTick,
            SessionEvent::ClientMessage(m) => SessionEventView::ClientMessage(m@),
            SessionEvent::ClientError => SessionEventView::ClientError,
            SessionEvent::JoinDone(outcome) => SessionEventView::JoinDone(
                match outcome {
                    Ok(snapshot) => Ok(snapshot@),
                    Err(e) => Err(e@),
                },
            ),
            SessionEvent::ServerUpdate(op) => SessionEventView::ServerUpdate(op@),
            SessionEvent::ServerLagged => SessionEventView::ServerLagged,
            SessionEvent::OpDone(outcome) => SessionEventView::OpDone(outcome),
            SessionEvent::SendFailed => SessionEventView::SendFailed,
        }
    }
}

impl View for Action {
    type V = ActionView;

    open spec fn view(&self) -> ActionView {
        match *self {
            Action::Nothing => ActionView::Nothing,
            Action::Ping => ActionView::Ping,
            Action::Pong(payload) => ActionView::Pong(payload@),
            Action::Join { text } => ActionView::Join { text: text@ },
            Action::SubmitOp { text } => ActionView::SubmitOp { text: text@ },
            Action::SendText(op) => ActionView::SendText(op@),
            Action::Close(reason) => ActionView::Close(
                match reason {
                    Some(r) => Some(r@),
                    None => None,
                },
            ),
        }
    }
}

/// How long the peer has been silent at the clock reading `now`. A reading
/// that lies before the last heartbeat counts as no time at all.
pub open spec fn idle_time(s: Session, now: u64) -> int {
    if now >= s.last_heartbeat {
        now - s.last_heartbeat
    } else {
        0
    }
}

/// Whether the peer has been silent for longer than is allowed.
pub open spec fn timed_out(s: Session, now: u64) -> bool {
    idle_time(s, now) > CLIENT_TIMEOUT_NANOS
}

/// The session in another phase.
pub open spec fn in_phase(s: Session, phase: Phase) -> Session {
    Session { phase, last_heartbeat: s.last_heartbeat }
}

/// The close reason for a frame of a kind that the session does not take.
pub open spec fn unsupported(description: Seq<char>) -> Option<CloseReasonView> {
    Some(CloseReasonView { code: CloseCode::Unsupported, description: Some(description) })
}

/// The close reason for a failure, with the text that describes it.
pub open spec fn failed(description: Seq<char>) -> Option<CloseReasonView> {
    Some(CloseReasonView { code: CloseCode::Error, description: Some(description) })
}

/// The text that tells the peer why it could not join.
pub open spec fn join_error_text(e: JoinErrorView) -> Seq<char> {
    match e {
        JoinErrorView::BadInit(text) => text,
        JoinErrorView::App(e) => e.name(),
    }
}

/// What a frame from the peer does to a session that is in its handshake or
/// joined.
pub open spec fn on_message(s: Session, now: u64, m: MessageView) -> (Session, ActionView) {
    match m {
        MessageView::Text(text) => {
            if s.phase == Phase::Handshake {
                (in_phase(s, Phase::Joining), ActionView::Join { text })
            } else {
                (s, ActionView::SubmitOp { text })
            }
        },
        MessageView::Binary => (
            in_phase(s, Phase::Closed),
            ActionView::Close(unsupported("Only text supported"@)),
        ),
        MessageView::Continuation => (
            in_phase(s, Phase::Closed),
            ActionView::Close(unsupported("No support for continuation frame."@)),
        ),
        MessageView::Ping(payload) => (
            Session { phase: s.phase, last_heartbeat: now },
            ActionView::Pong(payload),
        ),
        MessageView::Pong => (Session { phase: s.phase, last_heartbeat: now }, ActionView::Nothing),
        MessageView::Close => (in_phase(s, Phase::Closed), ActionView::Close(None)),
        MessageView::Nop => (s, ActionView::Nothing),
    }
}

/// What a heartbeat tick does to a session that is in its handshake or joined.
pub open spec fn on_tick(s: Session, now: u64) -> (Session, ActionView) {
    if timed_out(s, now) {
        (in_phase(s, Phase::Closed), ActionView::Close(None))
    } else {
        (s, ActionView::Ping)
    }
}

/// The transition function: the state that follows `s` when `event` happens
/// at the clock reading `now`, and the action to take.
pub open spec fn step_spec(s: Session, now: u64, event: SessionEventView) -> (Session, ActionView) {
    match s.phase {
        Phase::Closed => (s, ActionView::Nothing),
        Phase::Joining => match event {
            SessionEventView::JoinDone(Ok(snapshot)) => (
                in_phase(s, Phase::Joined),
                ActionView::SendText(OpView::OverwriteState(snapshot)),
            ),
            SessionEventView::JoinDone(Err(e)) => (
                in_phase(s, Phase::Closed),
                ActionView::Close(failed(join_error_text(e))),
            ),
            _ => (s, ActionView::Nothing),
        },
        Phase::Handshake => match event {
            SessionEventView::HeartbeatTick => on_tick(s, now),
            SessionEventView::ClientMessage(m) => on_message(s, now, m),
            SessionEventView::ClientError => (in_phase(s, Phase::Closed), ActionView::Close(None)),
            _ => (s, ActionView::Nothing),
        },
        Phase::Joined => match event {
            SessionEventView::HeartbeatTick => on_tick(s, now),
            SessionEventView::ClientMessage(m) => on_message(s, now, m),
            SessionEventView::ClientError => (in_phase(s, Phase::Closed), ActionView::Close(None)),
            SessionEventView::JoinDone(_) => (s, ActionView::Nothing),
            SessionEventView::ServerUpdate(op) => (s, ActionView::SendText(op)),
            SessionEventView::ServerLagged => (s, ActionView::Nothing),
            SessionEventView::OpDone(Ok(_)) => (s, ActionView::Nothing),
            SessionEventView::OpDone(Err(e)) => (
                in_phase(s, Phase::Closed),
                ActionView::Close(failed(e.name())),
            ),
            SessionEventView::SendFailed => (in_phase(s, Phase::Closed), ActionView::Close(None)),
        },
    }
}

/// An event together with the clock reading at which it happens.
pub struct Timed {
    pub now: u64,
    pub event: SessionEventView,
}

/// The state that a session reaches from `s` through `events`, taken in
/// order, and the actions that it asks for on the way, one for each event.
pub open spec fn run(s: Session, events: Seq<Timed>) -> (Session, Seq<ActionView>)
    decreases events.len(),
{
    if events.len() == 0 {
        (s, Seq::empty())
    } else {
        let (before, actions) = run(s, events.drop_last());
        let (after, action) = step_spec(before, events.last().now, events.last().event);
        (after, actions.push(action))
    }
}

/// The operations that `actions` send to the peer, in order.
pub open spec fn sent_ops(actions: Seq<ActionView>) -> Seq<OpView>
    decreases actions.len(),
{
    if actions.len() == 0 {
        Seq::empty()
    } else {
        match actions.last() {
            ActionView::SendText(op) => sent_ops(actions.drop_last()).push(op),
            _ => sent_ops(actions.drop_last()),
        }
    }
}

/// The operations that the cell publishes among `events`, in order.
pub open spec fn published_ops(events: Seq<Timed>) -> Seq<OpView>
    decreases events.len(),
{
    if events.len() == 0 {
        Seq::empty()
    } else {
        match events.last().event {
            SessionEventView::ServerUpdate(op) => published_ops(events.drop_last()).push(op),
            _ => published_ops(events.drop_last()),
        }
    }
}

/// The action that closes a session over a frame that it does not take.
fn close_unsupported(description: &str) -> (action: Action)
    ensures
        action@ == ActionView::Close(unsupported(description@)),
{
    Action::Close(
        Some(CloseReason { code: CloseCode::Unsupported, description: Some(description.to_owned()) }),
    )
}

/// The action that closes a session over a failure.
fn close_failed(description: String) -> (action: Action)
    ensures
        action@ == ActionView::Close(failed(description@)),
{
    Action::Close(Some(CloseReason { code: CloseCode::Error, description: Some(description) }))
}

impl Session {
    /// A session that begins its handshake at the clock reading `now`.
    pub fn new(now: u64) -> (s: Session)
        ensures
            s == (Session { phase: Phase::Handshake, last_heartbeat: now }),
    {
        Session { phase: Phase::Handshake, last_heartbeat: now }
    }

    /// Whether the session is over.
    pub fn is_closed(&self) -> (closed: bool)
        ensures
            closed == (self.phase == Phase::Closed),
    {
        self.phase == Phase::Closed
    }

    /// Whether the peer has been silent for longer than is allowed.
    pub fn has_timed_out(&self, now: u64) -> (late: bool)
        ensures
            late == timed_out(*self, now),
    {
        now >= self.last_heartbeat && now - self.last_heartbeat > CLIENT_TIMEOUT_NANOS
    }

    /// Takes a heartbeat tick in the handshake or when joined.
    fn tick(&mut self, now: u64) -> (action: Action)
        ensures
            (*final(self), action@) == on_tick(*old(self), now),
    {
        if self.has_timed_out(now) {
            self.phase = Phase::Closed;
            Action::Close(None)
        } else {
            Action::Ping
        }
    }

    /// Takes a frame from the peer in the handshake or when joined.
    fn message(&mut self, now: u64, m: Message) -> (action: Action)
        ensures
            (*final(self), action@) == on_message(*old(self), now, m@),
    {
        match m {
            Message::Text(text) => {
                if self.phase == Phase::Handshake {
                    self.phase = Phase::Joining;
                    Action::Join { text }
                } else {
                    Action::SubmitOp { text }
                }
            },
            Message::Binary => {
                self.phase = Phase::Closed;
                close_unsupported("Only text supported")
            },
            Message::Continuation => {
                self.phase = Phase::Closed;
                close_unsupported("No support for continuation frame.")
            },
            Message::Ping(payload) => {
                self.last_heartbeat = now;
                Action::Pong(payload)
            },
            Message::Pong => {
                self.last_heartbeat = now;
                Action::Nothing
            },
            Message::Close => {
                self.phase = Phase::Closed;
                Action::Close(None)
            },
            Message::Nop => Action::Nothing,
        }
    }
}

/// Manages one session of task updates over a WebSocket, one event at a
/// time: takes the event that happened at the clock reading `now`, moves the
/// session on and says what is to be done.
pub fn manage_updates_ws(session: &mut Session, now: u64, event: SessionEvent) -> (action: Action)
    ensures
        (*final(session), action@) == step_spec(*old(session), now, event@),
{
    match session.phase {
        Phase::Closed => Action::Nothing,
        Phase::Joining => match event {
            SessionEvent::JoinDone(Ok(snapshot)) => {
                session.phase = Phase::Joined;
                Action::SendText(WebsocketOp::OverwriteState(snapshot))
            },
            SessionEvent::JoinDone(Err(JoinError::BadInit(text))) => {
                session.phase = Phase::Closed;
                close_failed(text)
            },
            SessionEvent::JoinDone(Err(JoinError::App(e))) => {
                session.phase = Phase::Closed;
                close_failed(e.to_string())
            },
            _ => Action::Nothing,
        },
        Phase::Handshake => match event {
            SessionEvent::HeartbeatTick => session.tick(now),
            SessionEvent::ClientMessage(m) => session.message(now, m),
            SessionEvent::ClientError => {
                session.phase = Phase::Closed;
                Action::Close(None)
            },
            _ => Action::Nothing,
        },
        Phase::Joined => match event {
            SessionEvent::HeartbeatTick => session.tick(now),
            SessionEvent::ClientMessage(m) => session.message(now, m),
            SessionEvent::ClientError => {
                session.phase = Phase::Closed;
                Action::Close(None)
            },
            SessionEvent::JoinDone(_) => Action::Nothing,
            SessionEvent::ServerUpdate(op) => Action::SendText(op),
            SessionEvent::ServerLagged => Action::Nothing,
            SessionEvent::OpDone(Ok(_)) => Action::Nothing,
            SessionEvent::OpDone(Err(e)) => {
                session.phase = Phase::Closed;
                close_failed(e.to_string())
            },
            SessionEvent::SendFailed => {
                session.phase = Phase::Closed;
                Action::Close(None)
            },
        },
    }
}

} // verus!
