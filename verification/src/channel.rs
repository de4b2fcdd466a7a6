use vstd::prelude::*;
use crate::errors::PCSError;
use crate::framing::{dequeue_outcome, Dequeued, ReadPackageImpl, ToPackage, WritePackageImpl};
use crate::package::Package;
use crate::server::BROADCAST_BUFFER_SIZE;
use crate::session::{
    broadcast_step, BroadcastPoll, ConnectionStatus, ConnectionTest, SessionAction, SessionState,
};

verus! {

/// The sending half of tokio's broadcast channel.
#[verifier::external_type_specification]
#[verifier::external_body]
#[verifier::reject_recursive_types(T)]
pub struct ExBroadcastSender<T>(tokio::sync::broadcast::Sender<T>);

/// A subscription to tokio's broadcast channel.
#[verifier::external_type_specification]
#[verifier::external_body]
#[verifier::reject_recursive_types(T)]
pub struct ExBroadcastReceiver<T>(tokio::sync::broadcast::Receiver<T>);

/// The sending half of tokio's bounded queue.
#[verifier::external_type_specification]
#[verifier::external_body]
#[verifier::reject_recursive_types(T)]
pub struct ExQueueSender<T>(tokio::sync::mpsc::Sender<T>);

/// The receiving half of tokio's bounded queue.
#[verifier::external_type_specification]
#[verifier::external_body]
#[verifier::reject_recursive_types(T)]
pub struct ExQueueReceiver<T>(tokio::sync::mpsc::Receiver<T>);

/// The smallest power of two that is not below `n`.
pub open spec fn next_power_of_two(n: nat) -> nat
    decreases n,
{
    if n <= 1 {
        1
    } else {
        2 * next_power_of_two((n + 1) / 2)
    }
}

/// Whether `n` is a power of two.
pub open spec fn is_power_of_two(n: nat) -> bool
    decreases n,
{
    n == 1 || (n > 1 && n % 2 == 0 && is_power_of_two(n / 2))
}

/// Rounding up gives a power of two that is not below the number and less
/// than twice the number.
pub proof fn lemma_next_power_of_two(n: nat)
    requires
        n >= 1,
    ensures
        is_power_of_two(next_power_of_two(n)),
        n <= next_power_of_two(n) < 2 * n,
    decreases n,
{
    if n > 1 {
        lemma_next_power_of_two((n + 1) / 2);
    }
}

/// The number of packages that a broadcast channel keeps for a slow
/// subscription before it drops the oldest: the slots of its ring.
pub uninterp spec fn broadcast_limit(sender: tokio::sync::broadcast::Sender<Package>) -> nat;

/// `channel` of tokio's broadcast module: a new channel with its sender and
/// a first subscription. Claimed of it: the channel keeps as many packages
/// as the capacity asked for, rounded up to the next power of two. The
/// bounds are those outside which it panics.
#[verifier::external_body]
fn new_broadcast(capacity: usize) -> (res: (
    tokio::sync::broadcast::Sender<Package>,
    tokio::sync::broadcast::Receiver<Package>,
))
    requires
        0 < capacity <= usize::MAX / 2,
    ensures
        broadcast_limit(res.0) == next_power_of_two(capacity as nat),
{
    tokio::sync::broadcast::channel(capacity)
}

/// `Receiver::try_recv` of tokio's broadcast channel: one attempt to take the
/// next package without waiting. Nothing is claimed of what it finds: that
/// depends on what the producer sent and how far this subscription has read.
#[verifier::external_body]
fn try_receive(receiver: &mut tokio::sync::broadcast::Receiver<Package>) -> (res: BroadcastPoll) {
    match receiver.try_recv() {
        Ok(package) => BroadcastPoll::Received(package),
        Err(tokio::sync::broadcast::error::TryRecvError::Empty) => BroadcastPoll::Nothing,
        Err(tokio::sync::broadcast::error::TryRecvError::Lagged(n)) => BroadcastPoll::Lagged(n),
        Err(tokio::sync::broadcast::error::TryRecvError::Closed) => BroadcastPoll::Closed,
    }
}

/// `Sender::send` of tokio's broadcast channel: hands a package to every
/// subscription there is, or gives it back where there is none. Claimed of
/// it: on success it gives the number of subscriptions, which is one or more.
/// Nothing is claimed of when it succeeds.
#[verifier::external_body]
fn broadcast_send(sender: &tokio::sync::broadcast::Sender<Package>, package: Package) -> (res:
    Result<usize, Package>)
    ensures
        res matches Ok(subscribers) ==> subscribers >= 1,
{
    match sender.send(package) {
        Ok(subscribers) => Ok(subscribers),
        Err(refused) => Err(refused.0),
    }
}

/// `Receiver::try_recv` of tokio's bounded queue: one attempt to take the
/// next package without waiting. Nothing is claimed of what it finds.
#[verifier::external_body]
fn try_dequeue(receiver: &mut tokio::sync::mpsc::Receiver<Package>) -> (res: Dequeued) {
    match receiver.try_recv() {
        Ok(package) => Dequeued::Ready(package),
        Err(tokio::sync::mpsc::error::TryRecvError::Empty) => Dequeued::Empty,
        Err(tokio::sync::mpsc::error::TryRecvError::Disconnected) => Dequeued::Disconnected,
    }
}

/// What one attempt to put a package into an in-process queue, without
/// waiting, came to.
#[derive(Debug)]
pub enum Enqueued {
    /// The queue took the package.
    Accepted,
    /// The queue is full: here is the package back.
    Full(Package),
    /// The receiver is gone: here is the package back.
    Closed(Package),
}

/// `Sender::try_send` of tokio's bounded queue: one attempt to put a package
/// into the queue without waiting. Nothing is claimed of how it ends: that
/// depends on what the queue holds and on whether its receiver still lives.
#[verifier::external_body]
fn try_enqueue(sender: &tokio::sync::mpsc::Sender<Package>, package: Package) -> (res: Enqueued) {
    match sender.try_send(package) {
        Ok(()) => Enqueued::Accepted,
        Err(tokio::sync::mpsc::error::TrySendError::Full(back)) => Enqueued::Full(back),
        Err(tokio::sync::mpsc::error::TrySendError::Closed(back)) => Enqueued::Closed(back),
    }
}

/// The result of writing to an in-process queue: done, `WouldBlock` where
/// the queue is full, `Closed` where its receiver is gone.
pub fn enqueue_outcome(put: Enqueued) -> (res: Result<(), PCSError>)
    ensures
        match put {
            Enqueued::Accepted => res == Ok::<(), PCSError>(()),
            Enqueued::Full(_) => res == Err::<(), PCSError>(PCSError::WouldBlock),
            Enqueued::Closed(_) => res == Err::<(), PCSError>(PCSError::Closed),
        },
{
    match put {
        Enqueued::Accepted => Ok(()),
        Enqueued::Full(_) => Err(PCSError::WouldBlock),
        Enqueued::Closed(_) => Err(PCSError::Closed),
    }
}

/// The result of a broadcast: the number of sessions that will get the
/// package, or `Closed` where no session is subscribed.
pub fn publish_outcome(sent: Result<usize, Package>) -> (res: Result<usize, PCSError>)
    ensures
        match sent {
            Ok(subscribers) => res == Ok::<usize, PCSError>(subscribers),
            Err(_) => res == Err::<usize, PCSError>(PCSError::Closed),
        },
{
    match sent {
        Ok(subscribers) => Ok(subscribers),
        Err(_) => Err(PCSError::Closed),
    }
}

/// Broadcasts a package to every session that is subscribed at this moment,
/// and says how many there are. With no session subscribed the channel counts
/// as closed. The producer never waits for a slow session.
pub fn publish(sender: &tokio::sync::broadcast::Sender<Package>, package: Package) -> (res: Result<
    usize,
    PCSError,
>)
    ensures
        match res {
            Ok(subscribers) => subscribers >= 1,
            Err(e) => e == PCSError::Closed,
        },
{
    publish_outcome(broadcast_send(sender, package))
}

/// Opens the broadcast channel of a server: its sender for the global
/// producer, and a first subscription. The channel keeps
/// `BROADCAST_BUFFER_SIZE` packages for a slow session before it drops the
/// oldest.
pub fn open_broadcast() -> (res: (
    tokio::sync::broadcast::Sender<Package>,
    tokio::sync::broadcast::Receiver<Package>,
))
    ensures
        broadcast_limit(res.0) == BROADCAST_BUFFER_SIZE,
{
    proof {
        reveal_with_fuel(next_power_of_two, 7);
    }
    new_broadcast(BROADCAST_BUFFER_SIZE)
}

impl SessionState {
    /// Takes the next package from the broadcast subscription, if the session
    /// runs and one is there, and decides what to do with it. A session that
    /// does not run leaves the subscription alone.
    pub fn poll_broadcast(
        self,
        receiver: &mut tokio::sync::broadcast::Receiver<Package>,
    ) -> (res: (SessionState, SessionAction))
        ensures
            self != SessionState::Running ==> res == (self, SessionAction::Idle),
            self == SessionState::Running ==> exists|poll: BroadcastPoll| res == #[trigger]
                broadcast_step(self, poll),
    {
        match self {
            SessionState::Running => {
                let poll: BroadcastPoll = try_receive(receiver);
                let res = self.on_broadcast(poll);
                assert(res == broadcast_step(self, poll));
                res
            },
            SessionState::Accepted => (SessionState::Accepted, SessionAction::Idle),
            SessionState::Terminated => (SessionState::Terminated, SessionAction::Idle),
        }
    }
}

/// An in-process queue yields the package that waits in it, without waiting
/// for one.
impl ReadPackageImpl for tokio::sync::mpsc::Receiver<Package> {
    fn read_package(&mut self) -> (res: Result<Package, PCSError>)
        ensures
            res is Err ==> res.unwrap_err() == PCSError::WouldBlock || res.unwrap_err()
                == PCSError::Closed,
    {
        dequeue_outcome(try_dequeue(self))
    }
}

/// An in-process queue takes a package as it is, without waiting for room.
impl WritePackageImpl for tokio::sync::mpsc::Sender<Package> {
    fn write_package<T: ToPackage>(&mut self, package: T) -> (res: Result<(), PCSError>)
        ensures
            res is Err ==> res.unwrap_err() == PCSError::WouldBlock || res.unwrap_err()
                == PCSError::Closed,
    {
        let raw: Package = package.to_package();
        enqueue_outcome(try_enqueue(self, raw))
    }

    fn write_raw_package(&mut self, package: Package) -> (res: Result<(), PCSError>)
        ensures
            res is Err ==> res.unwrap_err() == PCSError::WouldBlock || res.unwrap_err()
                == PCSError::Closed,
    {
        enqueue_outcome(try_enqueue(self, package))
    }
}

/// An in-process queue is taken to be connected: a probe sends nothing.
impl ConnectionTest for tokio::sync::mpsc::Sender<Package> {
    fn ping(&mut self) -> (res: ConnectionStatus)
        ensures
            res == ConnectionStatus::Connected,
    {
        ConnectionStatus::Connected
    }
}

} // verus!
