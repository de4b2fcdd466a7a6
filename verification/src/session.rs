use vstd::prelude::*;
use crate::defaults::{LEGIBLE, PLAYER_EXIT, PLAYER_INTERACT, PLAYER_TRANSFORM, RENDER};
use crate::errors::PCSError;
use crate::package::Package;

verus! {

/// Routing key of a change of colour.
pub const CHANGE_COLOR: &'static str = "change.color";

/// Routing key of a change of range.
pub const CHANGE_RANGE: &'static str = "change.range";

/// Routing key of a change of background.
pub const CHANGE_BG: &'static str = "change.bg";

/// The kinds of message that the dispatch knows, one per routing key.
#[derive(Debug, Clone, Copy, PartialEq, Eq, Structural)]
pub enum MessageKind {
    Render,
    PlayerTransform,
    PlayerExit,
    PlayerInteract,
    Legible,
    ChangeColor,
    ChangeRange,
    ChangeBg,
}

/// `==` of std on two string slices: they hold the same characters.
#[verifier::external_body]
fn str_eq(a: &str, b: &str) -> (res: bool)
    ensures
        res == (a@ == b@),
{
    a == b
}

impl MessageKind {
    /// The routing key of a kind.
    pub open spec fn key(self) -> Seq<char> {
        match self {
            MessageKind::Render => RENDER@,
            MessageKind::PlayerTransform => PLAYER_TRANSFORM@,
            MessageKind::PlayerExit => PLAYER_EXIT@,
            MessageKind::PlayerInteract => PLAYER_INTERACT@,
            MessageKind::Legible => LEGIBLE@,
            MessageKind::ChangeColor => CHANGE_COLOR@,
            MessageKind::ChangeRange => CHANGE_RANGE@,
            MessageKind::ChangeBg => CHANGE_BG@,
        }
    }

    /// The kind that a routing key stands for, if it stands for one.
    pub open spec fn of(name: Seq<char>) -> Option<MessageKind> {
        if name == RENDER@ {
            Some(MessageKind::Render)
        } else if name == PLAYER_TRANSFORM@ {
            Some(MessageKind::PlayerTransform)
        } else if name == PLAYER_EXIT@ {
            Some(MessageKind::PlayerExit)
        } else if name == PLAYER_INTERACT@ {
            Some(MessageKind::PlayerInteract)
        } else if name == LEGIBLE@ {
            Some(MessageKind::Legible)
        } else if name == CHANGE_COLOR@ {
            Some(MessageKind::ChangeColor)
        } else if name == CHANGE_RANGE@ {
            Some(MessageKind::ChangeRange)
        } else if name == CHANGE_BG@ {
            Some(MessageKind::ChangeBg)
        } else {
            None
        }
    }

    /// The routing key of this kind.
    pub fn name(self) -> (res: &'static str)
        ensures
            res@ == self.key(),
    {
        match self {
            MessageKind::Render => RENDER,
            MessageKind::PlayerTransform => PLAYER_TRANSFORM,
            MessageKind::PlayerExit => PLAYER_EXIT,
            MessageKind::PlayerInteract => PLAYER_INTERACT,
            MessageKind::Legible => LEGIBLE,
            MessageKind::ChangeColor => CHANGE_COLOR,
            MessageKind::ChangeRange => CHANGE_RANGE,
            MessageKind::ChangeBg => CHANGE_BG,
        }
    }

    /// Finds the kind of a message by its routing key.
    pub fn from_name(name: &str) -> (res: Option<MessageKind>)
        ensures
            res == MessageKind::of(name@),
    {
        if str_eq(name, RENDER) {
            Some(MessageKind::Render)
        } else if str_eq(name, PLAYER_TRANSFORM) {
            Some(MessageKind::PlayerTransform)
        } else if str_eq(name, PLAYER_EXIT) {
            Some(MessageKind::PlayerExit)
        } else if str_eq(name, PLAYER_INTERACT) {
            Some(MessageKind::PlayerInteract)
        } else if str_eq(name, LEGIBLE) {
            Some(MessageKind::Legible)
        } else if str_eq(name, CHANGE_COLOR) {
            Some(MessageKind::ChangeColor)
        } else if str_eq(name, CHANGE_RANGE) {
            Some(MessageKind::ChangeRange)
        } else if str_eq(name, CHANGE_BG) {
            Some(MessageKind::ChangeBg)
        } else {
            None
        }
    }
}

/// Every kind is found again by its own routing key: no two kinds share one.
pub proof fn lemma_kind_of_key(kind: MessageKind)
    ensures
        MessageKind::of(kind.key()) == Some(kind),
{
    reveal_strlit("view.render");
    reveal_strlit("update.player.transform");
    reveal_strlit("update.player.exit");
    reveal_strlit("update.player.interact");
    reveal_strlit("test.legible");
    reveal_strlit("change.color");
    reveal_strlit("change.range");
    reveal_strlit("change.bg");
    assert(RENDER@.len() == 11);
    assert(PLAYER_TRANSFORM@.len() == 23);
    assert(PLAYER_EXIT@.len() == 18);
    assert(PLAYER_INTERACT@.len() == 22);
    assert(LEGIBLE@.len() == 12 && LEGIBLE@[0] == 't');
    assert(CHANGE_COLOR@.len() == 12 && CHANGE_COLOR@[0] == 'c' && CHANGE_COLOR@[7] == 'c');
    assert(CHANGE_RANGE@.len() == 12 && CHANGE_RANGE@[0] == 'c' && CHANGE_RANGE@[7] == 'r');
    assert(CHANGE_BG@.len() == 9);
}

/// Whether the peer of a connection still answers.
#[derive(Debug, Clone, Copy, PartialEq, Eq, Structural)]
pub enum ConnectionStatus {
    Connected,
    Disconnected,
}

/// A writer that can probe whether its peer is still there.
pub trait ConnectionTest {
    fn ping(&mut self) -> ConnectionStatus;
}

/// A byte buffer has no peer to lose: it is always connected, and a probe
/// writes nothing into it.
impl ConnectionTest for Vec<u8> {
    fn ping(&mut self) -> (res: ConnectionStatus)
        ensures
            res == ConnectionStatus::Connected,
            final(self)@ == old(self)@,
    {
        ConnectionStatus::Connected
    }
}

/// Where a session stands in its life.
#[derive(Debug, Clone, Copy, PartialEq, Eq, Structural)]
pub enum SessionState {
    /// The connection is there; the session has not subscribed yet.
    Accepted,
    /// The session relays packages in both directions.
    Running,
    /// The session has ended. Nothing brings it back.
    Terminated,
}

/// What one attempt to read a package from the peer, without waiting, found.
#[derive(Debug)]
pub enum InboundPoll {
    /// A whole, well-formed package.
    Received(Package),
    /// Nothing has arrived.
    Nothing,
    /// Bytes arrived that are no well-formed envelope.
    Malformed,
    /// The transport failed for good.
    Failed,
}

/// What one attempt to receive from the broadcast subscription, without
/// waiting, found.
#[derive(Debug)]
pub enum BroadcastPoll {
    /// The next package that was broadcast.
    Received(Package),
    /// Nothing is waiting.
    Nothing,
    /// The session was too slow: this many packages were dropped for it.
    Lagged(u64),
    /// The producer is gone.
    Closed,
}

/// What the session's loop has to do after a decision.
#[derive(Debug)]
pub enum SessionAction {
    /// Nothing.
    Idle,
    /// Hand an inbound package to the handler of its kind.
    Dispatch(MessageKind, Package),
    /// Drop what arrived and note it: it is malformed or of no known kind.
    Ignore,
    /// Write a broadcast package to the peer.
    Forward(Package),
    /// Close the connection and leave the loop.
    Close,
}

/// The decision on an inbound poll. Only a running session acts. A package of
/// a known kind is dispatched, and the exit message ends the session after
/// its dispatch. Malformed bytes and unknown kinds are ignored and the
/// session goes on. A failed transport ends the session.
pub open spec fn inbound_step(state: SessionState, poll: InboundPoll) -> (
    SessionState,
    SessionAction,
) {
    if state != SessionState::Running {
        (state, SessionAction::Idle)
    } else {
        match poll {
            InboundPoll::Received(package) => match MessageKind::of(package@.name) {
                Some(MessageKind::PlayerExit) => (
                    SessionState::Terminated,
                    SessionAction::Dispatch(MessageKind::PlayerExit, package),
                ),
                Some(kind) => (SessionState::Running, SessionAction::Dispatch(kind, package)),
                None => (SessionState::Running, SessionAction::Ignore),
            },
            InboundPoll::Nothing => (SessionState::Running, SessionAction::Idle),
            InboundPoll::Malformed => (SessionState::Running, SessionAction::Ignore),
            InboundPoll::Failed => (SessionState::Terminated, SessionAction::Close),
        }
    }
}

/// The decision on a broadcast poll. Only a running session acts. A package
/// is forwarded to the peer. Lag is no error: the session goes on with what
/// comes next. A closed channel ends the session.
pub open spec fn broadcast_step(state: SessionState, poll: BroadcastPoll) -> (
    SessionState,
    SessionAction,
) {
    if state != SessionState::Running {
        (state, SessionAction::Idle)
    } else {
        match poll {
            BroadcastPoll::Received(package) => (
                SessionState::Running,
                SessionAction::Forward(package),
            ),
            BroadcastPoll::Nothing => (SessionState::Running, SessionAction::Idle),
            BroadcastPoll::Lagged(_) => (SessionState::Running, SessionAction::Idle),
            BroadcastPoll::Closed => (SessionState::Terminated, SessionAction::Close),
        }
    }
}

/// What the result of a read from the peer is to the session: a package, an
/// idle turn where the read would block, malformed bytes where they do not
/// decode, and a failed transport for every other error.
pub open spec fn inbound_poll_of(read: Result<Package, PCSError>) -> InboundPoll {
    match read {
        Ok(package) => InboundPoll::Received(package),
        Err(PCSError::WouldBlock) => InboundPoll::Nothing,
        Err(PCSError::DecodingError) => InboundPoll::Malformed,
        Err(_) => InboundPoll::Failed,
    }
}

/// The state after a write to the peer: a running session whose transport
/// failed or was closed has ended; a package that could not be encoded, or
/// for which a queue had no room, is dropped and the session goes on.
pub open spec fn write_step(state: SessionState, written: Result<(), PCSError>) -> SessionState {
    if state == SessionState::Running && (written == Err::<(), PCSError>(PCSError::IOError)
        || written == Err::<(), PCSError>(PCSError::Closed)) {
        SessionState::Terminated
    } else {
        state
    }
}

/// The state after a probe of the peer: a running session whose peer is gone
/// has ended.
pub open spec fn probe_step(state: SessionState, status: ConnectionStatus) -> SessionState {
    if state == SessionState::Running && status == ConnectionStatus::Disconnected {
        SessionState::Terminated
    } else {
        state
    }
}

/// Turns the result of a read from the peer into what the session decides on.
pub fn inbound_poll(read: Result<Package, PCSError>) -> (res: InboundPoll)
    ensures
        res == inbound_poll_of(read),
{
    match read {
        Ok(package) => InboundPoll::Received(package),
        Err(PCSError::WouldBlock) => InboundPoll::Nothing,
        Err(PCSError::DecodingError) => InboundPoll::Malformed,
        Err(_) => InboundPoll::Failed,
    }
}

impl SessionState {
    /// A session for a connection that was just accepted.
    pub fn new() -> (res: SessionState)
        ensures
            res == SessionState::Accepted,
    {
        SessionState::Accepted
    }

    /// The session has subscribed to the broadcast channel: from now on it
    /// runs. It sees only what is broadcast after this point.
    pub fn subscribed(self) -> (res: SessionState)
        ensures
            res == if self == SessionState::Accepted {
                SessionState::Running
            } else {
                self
            },
    {
        match self {
            SessionState::Accepted => SessionState::Running,
            SessionState::Running => SessionState::Running,
            SessionState::Terminated => SessionState::Terminated,
        }
    }

    /// Decides what to do with the outcome of an inbound poll.
    pub fn on_inbound(self, poll: InboundPoll) -> (res: (SessionState, SessionAction))
        ensures
            res == inbound_step(self, poll),
    {
        match self {
            SessionState::Running => match poll {
                InboundPoll::Received(package) => match MessageKind::from_name(package.name()) {
                    Some(MessageKind::PlayerExit) => (
                        SessionState::Terminated,
                        SessionAction::Dispatch(MessageKind::PlayerExit, package),
                    ),
                    Some(kind) => (SessionState::Running, SessionAction::Dispatch(kind, package)),
                    None => (SessionState::Running, SessionAction::Ignore),
                },
                InboundPoll::Nothing => (SessionState::Running, SessionAction::Idle),
                InboundPoll::Malformed => (SessionState::Running, SessionAction::Ignore),
                InboundPoll::Failed => (SessionState::Terminated, SessionAction::Close),
            },
            SessionState::Accepted => (SessionState::Accepted, SessionAction::Idle),
            SessionState::Terminated => (SessionState::Terminated, SessionAction::Idle),
        }
    }

    /// Decides what to do with the outcome of a broadcast poll.
    pub fn on_broadcast(self, poll: BroadcastPoll) -> (res: (SessionState, SessionAction))
        ensures
            res == broadcast_step(self, poll),
    {
        match self {
            SessionState::Running => match poll {
                BroadcastPoll::Received(package) => (
                    SessionState::Running,
                    SessionAction::Forward(package),
                ),
                BroadcastPoll::Nothing => (SessionState::Running, SessionAction::Idle),
                BroadcastPoll::Lagged(_) => (SessionState::Running, SessionAction::Idle),
                BroadcastPoll::Closed => (SessionState::Terminated, SessionAction::Close),
            },
            SessionState::Accepted => (SessionState::Accepted, SessionAction::Idle),
            SessionState::Terminated => (SessionState::Terminated, SessionAction::Idle),
        }
    }

    /// Takes note of the result of a write to the peer.
    pub fn on_write(self, written: Result<(), PCSError>) -> (res: SessionState)
        ensures
            res == write_step(self, written),
    {
        match (self, written) {
            (SessionState::Running, Err(PCSError::IOError)) => SessionState::Terminated,
            (SessionState::Running, Err(PCSError::Closed)) => SessionState::Terminated,
            (state, _) => state,
        }
    }

    /// Takes note of a probe of the peer.
    pub fn on_probe(self, status: ConnectionStatus) -> (res: SessionState)
        ensures
            res == probe_step(self, status),
    {
        match (self, status) {
            (SessionState::Running, ConnectionStatus::Disconnected) => SessionState::Terminated,
            (state, _) => state,
        }
    }
}

/// A session that has ended stays ended and asks for nothing more.
pub proof fn lemma_terminated_is_final(
    inbound: InboundPoll,
    broadcast: BroadcastPoll,
    status: ConnectionStatus,
    written: Result<(), PCSError>,
)
    ensures
        write_step(SessionState::Terminated, written) == SessionState::Terminated,
        inbound_step(SessionState::Terminated, inbound) == (
            SessionState::Terminated,
            SessionAction::Idle,
        ),
        broadcast_step(SessionState::Terminated, broadcast) == (
            SessionState::Terminated,
            SessionAction::Idle,
        ),
        probe_step(SessionState::Terminated, status) == SessionState::Terminated,
{
}

/// Malformed bytes from a peer do not stop its session: it keeps running, and
/// the next broadcast package is still forwarded. Lag does not stop it
/// either.
pub proof fn lemma_malformed_input_is_survived(next: Package, dropped: u64)
    ensures
        inbound_step(SessionState::Running, InboundPoll::Malformed).0 == SessionState::Running,
        broadcast_step(
            inbound_step(SessionState::Running, InboundPoll::Malformed).0,
            BroadcastPoll::Received(next),
        ) == (SessionState::Running, SessionAction::Forward(next)),
        broadcast_step(SessionState::Running, BroadcastPoll::Lagged(dropped)).0
            == SessionState::Running,
{
}

/// The sessions of a server after one of them, `who`, met an inbound poll.
pub open spec fn sessions_after_inbound(
    sessions: Seq<SessionState>,
    who: int,
    poll: InboundPoll,
) -> Seq<SessionState> {
    sessions.update(who, inbound_step(sessions[who], poll).0)
}

/// What one session reads, be it malformed or a failure of its transport,
/// changes no other session: each goes on from the state it had.
pub proof fn lemma_sessions_are_isolated(
    sessions: Seq<SessionState>,
    who: int,
    other: int,
    poll: InboundPoll,
    next: BroadcastPoll,
)
    requires
        0 <= who < sessions.len(),
        0 <= other < sessions.len(),
        who != other,
    ensures
        sessions_after_inbound(sessions, who, poll)[other] == sessions[other],
        broadcast_step(sessions_after_inbound(sessions, who, poll)[other], next) == broadcast_step(
            sessions[other],
            next,
        ),
{
}

} // verus!
