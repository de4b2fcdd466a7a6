use steamengine_communication::codec::{read, to_wire_bytes};
use steamengine_communication::defaults::{ExitPlayerPackage, LegiblePackage};
use steamengine_communication::errors::PCSError;
use steamengine_communication::framing::{dequeue_outcome, Dequeued, ToPackage};
use steamengine_communication::package::Package;
use steamengine_communication::server::{
    on_accept, AcceptOutcome, ServerError, BROADCAST_BUFFER_SIZE,
};
use steamengine_communication::session::{
    inbound_poll, BroadcastPoll, ConnectionStatus, ConnectionTest, InboundPoll, MessageKind,
    SessionAction, SessionState,
};

fn all_kinds() -> Vec<MessageKind> {
    vec![
        MessageKind::Render,
        MessageKind::PlayerTransform,
        MessageKind::PlayerExit,
        MessageKind::PlayerInteract,
        MessageKind::Legible,
        MessageKind::ChangeColor,
        MessageKind::ChangeRange,
        MessageKind::ChangeBg,
    ]
}

#[test]
fn kinds_and_their_keys() {
    assert_eq!(MessageKind::Render.name(), "view.render");
    assert_eq!(MessageKind::PlayerTransform.name(), "update.player.transform");
    assert_eq!(MessageKind::PlayerExit.name(), "update.player.exit");
    assert_eq!(MessageKind::PlayerInteract.name(), "update.player.interact");
    assert_eq!(MessageKind::Legible.name(), "test.legible");
    assert_eq!(MessageKind::ChangeColor.name(), "change.color");
    assert_eq!(MessageKind::ChangeRange.name(), "change.range");
    assert_eq!(MessageKind::ChangeBg.name(), "change.bg");
}

#[test]
fn every_kind_is_found_by_its_key() {
    for kind in all_kinds() {
        assert_eq!(MessageKind::from_name(kind.name()), Some(kind));
    }
}

#[test]
fn unknown_keys_have_no_kind() {
    assert_eq!(MessageKind::from_name(""), None);
    assert_eq!(MessageKind::from_name("view.rende"), None);
    assert_eq!(MessageKind::from_name("View.Render"), None);
    assert_eq!(MessageKind::from_name("change.bg "), None);
}

#[test]
fn a_session_runs_once_it_has_subscribed() {
    assert_eq!(SessionState::new(), SessionState::Accepted);
    assert_eq!(SessionState::new().subscribed(), SessionState::Running);
    assert_eq!(SessionState::Running.subscribed(), SessionState::Running);
    assert_eq!(SessionState::Terminated.subscribed(), SessionState::Terminated);
}

#[test]
fn a_known_package_is_dispatched() {
    let package = LegiblePackage::from_str("hello").to_package();
    let (state, action) = SessionState::Running.on_inbound(InboundPoll::Received(package));
    assert_eq!(state, SessionState::Running);
    match action {
        SessionAction::Dispatch(kind, package) => {
            assert_eq!(kind, MessageKind::Legible);
            assert_eq!(package.value, b"hello".to_vec());
        }
        _ => panic!("a legible package must be dispatched"),
    }
}

#[test]
fn the_exit_message_ends_the_session() {
    let package = ExitPlayerPackage.to_package();
    let (state, action) = SessionState::Running.on_inbound(InboundPoll::Received(package));
    assert_eq!(state, SessionState::Terminated);
    assert!(matches!(action, SessionAction::Dispatch(MessageKind::PlayerExit, _)));
}

#[test]
fn an_unknown_package_is_ignored() {
    let package = Package::new("no.such.kind", vec![1]);
    let (state, action) = SessionState::Running.on_inbound(InboundPoll::Received(package));
    assert_eq!(state, SessionState::Running);
    assert!(matches!(action, SessionAction::Ignore));
}

#[test]
fn inbound_decisions_without_a_package() {
    let (state, action) = SessionState::Running.on_inbound(InboundPoll::Nothing);
    assert_eq!(state, SessionState::Running);
    assert!(matches!(action, SessionAction::Idle));
    let (state, action) = SessionState::Running.on_inbound(InboundPoll::Malformed);
    assert_eq!(state, SessionState::Running);
    assert!(matches!(action, SessionAction::Ignore));
    let (state, action) = SessionState::Running.on_inbound(InboundPoll::Failed);
    assert_eq!(state, SessionState::Terminated);
    assert!(matches!(action, SessionAction::Close));
}

#[test]
fn broadcast_decisions() {
    let package = LegiblePackage::from_str("broadcast").to_package();
    let (state, action) = SessionState::Running.on_broadcast(BroadcastPoll::Received(package));
    assert_eq!(state, SessionState::Running);
    match action {
        SessionAction::Forward(package) => assert_eq!(package.value, b"broadcast".to_vec()),
        _ => panic!("a broadcast package must be forwarded"),
    }
    let (state, action) = SessionState::Running.on_broadcast(BroadcastPoll::Nothing);
    assert_eq!(state, SessionState::Running);
    assert!(matches!(action, SessionAction::Idle));
    let (state, action) = SessionState::Running.on_broadcast(BroadcastPoll::Lagged(5));
    assert_eq!(state, SessionState::Running);
    assert!(matches!(action, SessionAction::Idle));
    let (state, action) = SessionState::Running.on_broadcast(BroadcastPoll::Closed);
    assert_eq!(state, SessionState::Terminated);
    assert!(matches!(action, SessionAction::Close));
}

#[test]
fn only_a_running_session_acts() {
    for state in [SessionState::Accepted, SessionState::Terminated] {
        let package = LegiblePackage::from_str("x").to_package();
        let (next, action) = state.on_inbound(InboundPoll::Received(package));
        assert_eq!(next, state);
        assert!(matches!(action, SessionAction::Idle));
        let (next, action) = state.on_inbound(InboundPoll::Failed);
        assert_eq!(next, state);
        assert!(matches!(action, SessionAction::Idle));
        let (next, action) = state.on_broadcast(BroadcastPoll::Closed);
        assert_eq!(next, state);
        assert!(matches!(action, SessionAction::Idle));
        assert_eq!(state.on_probe(ConnectionStatus::Disconnected), state);
    }
}

#[test]
fn a_lost_peer_ends_a_running_session() {
    assert_eq!(
        SessionState::Running.on_probe(ConnectionStatus::Disconnected),
        SessionState::Terminated
    );
    assert_eq!(SessionState::Running.on_probe(ConnectionStatus::Connected), SessionState::Running);
}

#[test]
fn a_buffer_is_always_connected() {
    let mut buffer: Vec<u8> = vec![1, 2];
    assert_eq!(buffer.ping(), ConnectionStatus::Connected);
    assert_eq!(buffer, vec![1, 2]);
}

#[test]
fn a_malformed_packet_of_one_session_leaves_the_other_alone() {
    let mut first = SessionState::new().subscribed();
    let mut second = SessionState::new().subscribed();
    let garbage: Vec<u8> = vec![0xAB; 40];
    let poll = match read(&garbage) {
        Ok(package) => InboundPoll::Received(package),
        Err(_) => InboundPoll::Malformed,
    };
    let (next, action) = first.on_inbound(poll);
    first = next;
    assert!(matches!(action, SessionAction::Ignore));
    assert_eq!(first, SessionState::Running);
    assert_eq!(second, SessionState::Running);
    let direct = to_wire_bytes(&LegiblePackage::from_str("direct").to_package()).unwrap();
    let (next, action) = second.on_inbound(InboundPoll::Received(read(&direct).unwrap()));
    second = next;
    assert!(matches!(action, SessionAction::Dispatch(MessageKind::Legible, _)));
    let broadcast = LegiblePackage::from_str("broadcast").to_package();
    let (next, action) = second.on_broadcast(BroadcastPoll::Received(broadcast.clone()));
    assert_eq!(next, SessionState::Running);
    assert!(matches!(action, SessionAction::Forward(_)));
    let (next, action) = first.on_broadcast(BroadcastPoll::Received(broadcast));
    assert_eq!(next, SessionState::Running);
    assert!(matches!(action, SessionAction::Forward(_)));
}

#[test]
fn reading_from_an_in_process_queue() {
    let package = Package::new("test.legible", vec![1]);
    assert_eq!(dequeue_outcome(Dequeued::Ready(package)).unwrap().value, vec![1]);
    assert_eq!(dequeue_outcome(Dequeued::Empty).unwrap_err(), PCSError::WouldBlock);
    assert_eq!(dequeue_outcome(Dequeued::Disconnected).unwrap_err(), PCSError::Closed);
}

#[test]
fn accepting_connections() {
    assert_eq!(BROADCAST_BUFFER_SIZE, 32);
    assert_eq!(on_accept(AcceptOutcome::Connected), Ok(SessionState::Running));
    assert_eq!(on_accept(AcceptOutcome::ListenerFailed), Err(ServerError::IOError));
    assert_eq!(on_accept(AcceptOutcome::StoreFailed), Err(ServerError::RedisError));
    assert_eq!(ServerError::IOError.message(), "IOError");
    assert_eq!(ServerError::JoinError.message(), "Join error");
    assert_eq!(ServerError::RedisError.message(), "Error on redis");
}

#[test]
fn what_a_read_is_to_the_session() {
    let package = Package::new("test.legible", vec![1]);
    match inbound_poll(Ok(package)) {
        InboundPoll::Received(package) => assert_eq!(package.value, vec![1]),
        _ => panic!("a package that was read must be received"),
    }
    assert!(matches!(inbound_poll(Err(PCSError::WouldBlock)), InboundPoll::Nothing));
    assert!(matches!(inbound_poll(Err(PCSError::DecodingError)), InboundPoll::Malformed));
    assert!(matches!(inbound_poll(Err(PCSError::IOError)), InboundPoll::Failed));
    assert!(matches!(inbound_poll(Err(PCSError::Closed)), InboundPoll::Failed));
    assert!(matches!(inbound_poll(Err(PCSError::OutOfBounds)), InboundPoll::Failed));
    assert!(matches!(inbound_poll(Err(PCSError::InvalidCodepoint)), InboundPoll::Failed));
    assert!(matches!(inbound_poll(Err(PCSError::EncodingError)), InboundPoll::Failed));
}

#[test]
fn a_failed_write_ends_a_running_session() {
    assert_eq!(SessionState::Running.on_write(Ok(())), SessionState::Running);
    assert_eq!(SessionState::Running.on_write(Err(PCSError::IOError)), SessionState::Terminated);
    assert_eq!(SessionState::Running.on_write(Err(PCSError::Closed)), SessionState::Terminated);
    assert_eq!(SessionState::Running.on_write(Err(PCSError::WouldBlock)), SessionState::Running);
    assert_eq!(
        SessionState::Running.on_write(Err(PCSError::EncodingError)),
        SessionState::Running
    );
    assert_eq!(SessionState::Accepted.on_write(Err(PCSError::IOError)), SessionState::Accepted);
    assert_eq!(
        SessionState::Terminated.on_write(Err(PCSError::IOError)),
        SessionState::Terminated
    );
}
