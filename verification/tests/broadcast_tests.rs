use steamengine_communication::channel::{
    enqueue_outcome, open_broadcast, publish, publish_outcome, Enqueued,
};
use steamengine_communication::errors::PCSError;
use steamengine_communication::framing::{ReadPackageImpl, WritePackageImpl};
use steamengine_communication::defaults::LegiblePackage;
use steamengine_communication::package::Package;
use steamengine_communication::server::BROADCAST_BUFFER_SIZE;
use steamengine_communication::session::{
    ConnectionStatus, ConnectionTest, SessionAction, SessionState,
};
use tokio::sync::broadcast;
use tokio::sync::mpsc;

fn numbered(i: u8) -> Package {
    Package::new("test.legible", vec![i])
}

#[test]
fn every_subscriber_gets_every_package_in_order() {
    let (sender, _) = broadcast::channel::<Package>(BROADCAST_BUFFER_SIZE);
    let mut first = sender.subscribe();
    let mut second = sender.subscribe();
    for i in 1..=3u8 {
        assert_eq!(publish(&sender, numbered(i)), Ok(2));
    }
    for receiver in [&mut first, &mut second] {
        let mut state = SessionState::new().subscribed();
        for i in 1..=3u8 {
            let (next, action) = state.poll_broadcast(receiver);
            state = next;
            match action {
                SessionAction::Forward(package) => {
                    assert_eq!(package.name, "test.legible");
                    assert_eq!(package.value, vec![i]);
                }
                _ => panic!("package {} must be forwarded", i),
            }
        }
        let (next, action) = state.poll_broadcast(receiver);
        assert_eq!(next, SessionState::Running);
        assert!(matches!(action, SessionAction::Idle));
    }
}

#[test]
fn the_servers_channel_holds_its_buffer_size() {
    let (sender, mut slow) = open_broadcast();
    for i in 0..(BROADCAST_BUFFER_SIZE as u8 + 1) {
        publish(&sender, numbered(i)).unwrap();
    }
    assert!(matches!(
        slow.try_recv(),
        Err(broadcast::error::TryRecvError::Lagged(1))
    ));
    match SessionState::Running.poll_broadcast(&mut slow) {
        (SessionState::Running, SessionAction::Forward(package)) => {
            assert_eq!(package.value, vec![1])
        }
        _ => panic!("the oldest package that was kept must arrive"),
    }
}

#[test]
fn a_late_subscriber_sees_no_history() {
    let (sender, _keep) = open_broadcast();
    publish(&sender, numbered(1)).unwrap();
    let mut late = sender.subscribe();
    let state = SessionState::new().subscribed();
    let (state, action) = state.poll_broadcast(&mut late);
    assert!(matches!(action, SessionAction::Idle));
    publish(&sender, numbered(2)).unwrap();
    match state.poll_broadcast(&mut late) {
        (SessionState::Running, SessionAction::Forward(package)) => {
            assert_eq!(package.value, vec![2])
        }
        _ => panic!("the package sent after subscribing must arrive"),
    }
}

#[test]
fn a_slow_subscriber_learns_of_the_drop_and_goes_on() {
    let capacity: usize = 4;
    let (sender, mut slow) = broadcast::channel::<Package>(capacity);
    let mut watcher = sender.subscribe();
    for i in 1..=9u8 {
        publish(&sender, numbered(i)).unwrap();
    }
    assert!(matches!(
        watcher.try_recv(),
        Err(broadcast::error::TryRecvError::Lagged(5))
    ));
    let mut state = SessionState::new().subscribed();
    let (next, action) = state.poll_broadcast(&mut slow);
    state = next;
    assert_eq!(state, SessionState::Running);
    assert!(matches!(action, SessionAction::Idle));
    for i in 6..=9u8 {
        let (next, action) = state.poll_broadcast(&mut slow);
        state = next;
        match action {
            SessionAction::Forward(package) => assert_eq!(package.value, vec![i]),
            _ => panic!("package {} was sent after the drop and must be forwarded", i),
        }
    }
    let (next, action) = state.poll_broadcast(&mut slow);
    assert_eq!(next, SessionState::Running);
    assert!(matches!(action, SessionAction::Idle));
}

#[test]
fn a_closed_channel_ends_the_session() {
    let (sender, mut receiver) = broadcast::channel::<Package>(BROADCAST_BUFFER_SIZE);
    publish(&sender, numbered(1)).unwrap();
    drop(sender);
    let mut state = SessionState::new().subscribed();
    let (next, action) = state.poll_broadcast(&mut receiver);
    state = next;
    assert!(matches!(action, SessionAction::Forward(_)));
    let (next, action) = state.poll_broadcast(&mut receiver);
    assert_eq!(next, SessionState::Terminated);
    assert!(matches!(action, SessionAction::Close));
}

#[test]
fn a_session_that_does_not_run_leaves_the_subscription_alone() {
    let (sender, mut receiver) = broadcast::channel::<Package>(BROADCAST_BUFFER_SIZE);
    publish(&sender, numbered(1)).unwrap();
    for state in [SessionState::Accepted, SessionState::Terminated] {
        let (next, action) = state.poll_broadcast(&mut receiver);
        assert_eq!(next, state);
        assert!(matches!(action, SessionAction::Idle));
    }
    let (_, action) = SessionState::Running.poll_broadcast(&mut receiver);
    match action {
        SessionAction::Forward(package) => assert_eq!(package.value, vec![1]),
        _ => panic!("the package must still be there"),
    }
}

#[test]
fn a_broadcast_counts_its_subscribers() {
    let (sender, first) = open_broadcast();
    assert_eq!(publish(&sender, numbered(1)), Ok(1));
    let second = sender.subscribe();
    let third = sender.subscribe();
    assert_eq!(publish(&sender, numbered(2)), Ok(3));
    drop(second);
    assert_eq!(publish(&sender, numbered(3)), Ok(2));
    drop(first);
    drop(third);
    assert_eq!(publish(&sender, numbered(4)), Err(PCSError::Closed));
}

#[test]
fn broadcasting_to_nobody_fails() {
    let (sender, receiver) = broadcast::channel::<Package>(BROADCAST_BUFFER_SIZE);
    drop(receiver);
    assert_eq!(publish(&sender, numbered(1)), Err(PCSError::Closed));
    assert_eq!(publish_outcome(Ok(3)), Ok(3));
    assert_eq!(publish_outcome(Err(numbered(1))), Err(PCSError::Closed));
}

#[test]
fn an_in_process_queue_as_transport() {
    let (mut sender, mut receiver) = mpsc::channel::<Package>(2);
    assert_eq!(receiver.read_package().unwrap_err(), PCSError::WouldBlock);
    sender.write_raw_package(numbered(7)).unwrap();
    sender.write_package(LegiblePackage::from_str("hi")).unwrap();
    assert_eq!(sender.write_raw_package(numbered(9)), Err(PCSError::WouldBlock));
    let first = receiver.read_package().unwrap();
    assert_eq!(first.name, "test.legible");
    assert_eq!(first.value, vec![7]);
    assert_eq!(receiver.read_package().unwrap().value, b"hi".to_vec());
    assert_eq!(sender.ping(), ConnectionStatus::Connected);
    drop(sender);
    assert_eq!(receiver.read_package().unwrap_err(), PCSError::Closed);
}

#[test]
fn writing_to_a_queue_without_a_receiver_fails() {
    let (mut sender, receiver) = mpsc::channel::<Package>(2);
    drop(receiver);
    assert_eq!(sender.write_raw_package(numbered(1)), Err(PCSError::Closed));
    assert_eq!(sender.write_package(LegiblePackage::from_str("x")), Err(PCSError::Closed));
}

#[test]
fn outcomes_of_an_enqueue() {
    assert_eq!(enqueue_outcome(Enqueued::Accepted), Ok(()));
    assert_eq!(enqueue_outcome(Enqueued::Full(numbered(1))), Err(PCSError::WouldBlock));
    assert_eq!(enqueue_outcome(Enqueued::Closed(numbered(1))), Err(PCSError::Closed));
}
