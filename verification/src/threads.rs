use std::collections::HashMap;
use vstd::prelude::*;
use vstd::std_specs::hash::group_hash_axioms;

verus! {

broadcast use group_hash_axioms;

/// The sending half of a crossbeam channel.
#[verifier::external_type_specification]
#[verifier::external_body]
#[verifier::reject_recursive_types(T)]
pub struct ExThreadSender<T>(crossbeam_channel::Sender<T>);

/// The receiving half of a crossbeam channel.
#[verifier::external_type_specification]
#[verifier::external_body]
#[verifier::reject_recursive_types(T)]
pub struct ExThreadReceiver<T>(crossbeam_channel::Receiver<T>);

/// What a thread is told to do with its work.
#[derive(Debug, Clone, Copy, PartialEq, Eq, Structural)]
pub enum Event {
    Start,
    Stop,
    Pause,
    Resume,
    Exit,
}

/// What threads can send one another.
#[derive(Debug, Clone, PartialEq)]
pub enum Message {
    Test,
    String(String),
    Int(i32),
    /// A 32-bit float, as its bits.
    Float(u32),
    Bool(bool),
    Char(char),
    Event(Event),
}

/// What one attempt to take a message, without waiting, found.
#[derive(Debug, Clone, PartialEq)]
pub enum Polled {
    /// A message was waiting.
    Ready(Message),
    /// Nothing is waiting, but a sender is still there.
    Empty,
    /// Nothing is waiting, and no sender is left.
    Disconnected,
}

impl Message {
    /// A copy of the message.
    pub fn duplicate(&self) -> (res: Message)
        ensures
            res == *self,
    {
        match self {
            Message::Test => Message::Test,
            Message::String(text) => Message::String(text.clone()),
            Message::Int(n) => Message::Int(*n),
            Message::Float(bits) => Message::Float(*bits),
            Message::Bool(b) => Message::Bool(*b),
            Message::Char(c) => Message::Char(*c),
            Message::Event(event) => Message::Event(*event),
        }
    }
}

/// `unbounded` of crossbeam: a new channel without a limit, with its two
/// halves.
#[verifier::external_body]
fn new_channel() -> (res: (crossbeam_channel::Sender<Message>, crossbeam_channel::Receiver<Message>)) {
    crossbeam_channel::unbounded()
}

/// `Sender::send` of crossbeam: puts a message into the channel, or gives it
/// back where no receiver is left. Claimed of it: the message that comes back
/// is the one that was given. Nothing is claimed of when it comes back.
#[verifier::external_body]
fn channel_send(sender: &crossbeam_channel::Sender<Message>, message: Message) -> (res: Result<
    (),
    Message,
>)
    ensures
        res matches Err(back) ==> back == message,
{
    match sender.send(message) {
        Ok(()) => Ok(()),
        Err(refused) => Err(refused.0),
    }
}

/// `Receiver::try_recv` of crossbeam: one attempt to take a message without
/// waiting. Nothing is claimed of what it finds.
#[verifier::external_body]
fn channel_try_recv(receiver: &crossbeam_channel::Receiver<Message>) -> (res: Polled) {
    match receiver.try_recv() {
        Ok(message) => Polled::Ready(message),
        Err(crossbeam_channel::TryRecvError::Empty) => Polled::Empty,
        Err(crossbeam_channel::TryRecvError::Disconnected) => Polled::Disconnected,
    }
}

/// `Clone` of crossbeam's `Receiver`: another handle to the same channel.
#[verifier::external_body]
fn another_receiver(receiver: &crossbeam_channel::Receiver<Message>) -> (res:
    crossbeam_channel::Receiver<Message>) {
    receiver.clone()
}

/// The main thread and the threads from `start` up to `end`.
pub open spec fn main_and(start: usize, end: usize) -> Set<usize> {
    Set::new(|id: usize| id == 0 || start <= id < end)
}

/// The channels of all threads that have registered, by the threads' ids.
/// Thread 0 is the main thread.
pub struct CommManager {
    receivers: HashMap<usize, crossbeam_channel::Receiver<Message>>,
    senders: HashMap<usize, crossbeam_channel::Sender<Message>>,
}

/// What one thread holds of the channels: a sender to every thread, and its
/// own receiver.
pub struct Channel {
    senders: HashMap<usize, crossbeam_channel::Sender<Message>>,
    pub receiver: crossbeam_channel::Receiver<Message>,
}

impl Channel {
    /// The threads that this channel can send to.
    pub closed spec fn registered(&self) -> Set<usize> {
        self.senders@.dom()
    }

    /// Sends a message to thread `id`. A message for a thread that is not
    /// registered is dropped, which is no error.
    pub fn send(&self, id: usize, message: Message) -> (res: Result<(), Message>)
        ensures
            !self.registered().contains(id) ==> res is Ok,
            res matches Err(back) ==> back == message,
    {
        match self.senders.get(&id) {
            Some(sender) => channel_send(sender, message),
            None => Ok(()),
        }
    }

    /// Takes the next message for this thread, if one is waiting.
    pub fn try_recv(&self) -> (res: Polled) {
        channel_try_recv(&self.receiver)
    }

    /// Sends a copy of the message to every thread, and stops at the first
    /// thread that is gone: its copy comes back. With no thread to send to
    /// there is nothing that can fail.
    pub fn broadcast(&self, message: Message) -> (res: Result<(), Message>)
        ensures
            self.registered().is_empty() ==> res is Ok,
            res matches Err(back) ==> back == message,
    {
        send_to_all(&self.senders, message)
    }
}

/// Sends a copy of the message through every sender, and stops at the first
/// whose receiver is gone: its copy comes back. With no sender there is
/// nothing that can fail.
fn send_to_all(
    senders: &HashMap<usize, crossbeam_channel::Sender<Message>>,
    message: Message,
) -> (res: Result<(), Message>)
    ensures
        senders@.dom().is_empty() ==> res is Ok,
        res matches Err(back) ==> back == message,
{
    for sender in iter: senders.values()
        invariant
            iter.seq().len() == senders@.dom().len(),
    {
        match channel_send(sender, message.duplicate()) {
            Ok(_) => (),
            Err(back) => {
                return Err(back);
            },
        }
    }
    Ok(())
}

impl CommManager {
    /// The threads that have registered.
    pub closed spec fn registered(&self) -> Set<usize> {
        self.senders@.dom()
    }

    /// Every registered thread has both halves of its channel.
    pub closed spec fn wf(&self) -> bool {
        self.senders@.dom() == self.receivers@.dom()
    }

    /// A manager with the main thread registered.
    pub fn new() -> (res: CommManager)
        ensures
            res.wf(),
            res.registered() == set![0usize],
    {
        let mut communicator = CommManager { senders: HashMap::new(), receivers: HashMap::new() };
        communicator.register(0);
        proof {
            assert(communicator.registered() =~= set![0usize]);
        }
        communicator
    }

    /// Whether thread `id` has registered.
    pub fn is_registered(&self, id: usize) -> (res: bool)
        ensures
            res == self.registered().contains(id),
    {
        self.senders.contains_key(&id)
    }

    /// Registers thread `id` with a channel of its own. A thread that
    /// registers again gets a new channel.
    pub fn register(&mut self, id: usize)
        requires
            old(self).wf(),
        ensures
            final(self).wf(),
            final(self).registered() == old(self).registered().insert(id),
    {
        let (sender, receiver) = new_channel();
        self.receivers.insert(id, receiver);
        self.senders.insert(id, sender);
        proof {
            assert(self.senders@.dom() =~= self.receivers@.dom());
            assert(self.senders@.dom() =~= old(self).senders@.dom().insert(id));
        }
    }

    /// Sends a message to thread `id`. A message for a thread that is not
    /// registered is dropped, which is no error.
    pub fn send_to(&self, id: usize, message: Message) -> (res: Result<(), Message>)
        ensures
            !self.registered().contains(id) ==> res is Ok,
            res matches Err(back) ==> back == message,
    {
        match self.senders.get(&id) {
            Some(sender) => channel_send(sender, message),
            None => Ok(()),
        }
    }

    /// A manager with the main thread and the threads `threads` registered.
    pub fn from_threads(threads: core::ops::Range<usize>) -> (res: CommManager)
        ensures
            res.wf(),
            res.registered() == main_and(threads.start, threads.end),
    {
        let mut communicator = CommManager::new();
        let mut index: usize = threads.start;
        proof {
            assert(communicator.registered() =~= main_and(threads.start, index));
        }
        while index < threads.end
            invariant
                communicator.wf(),
                threads.start <= index,
                index == threads.start || index <= threads.end,
                communicator.registered() == main_and(threads.start, index),
            decreases threads.end - index,
        {
            communicator.register(index);
            proof {
                assert(communicator.registered() =~= main_and(threads.start, (index + 1) as usize));
            }
            index = index + 1;
        }
        proof {
            assert(communicator.registered() =~= main_and(threads.start, threads.end));
        }
        communicator
    }

    /// Sends a copy of the message to every registered thread, and stops at
    /// the first thread that is gone: its copy comes back. With no thread
    /// registered there is nothing that can fail.
    pub fn broadcast(&self, message: Message) -> (res: Result<(), Message>)
        ensures
            self.registered().is_empty() ==> res is Ok,
            res matches Err(back) ==> back == message,
    {
        send_to_all(&self.senders, message)
    }

    /// What thread `id` needs to talk to the others: a sender to every
    /// registered thread, and its own receiver.
    pub fn channel(&self, id: usize) -> (res: Channel)
        requires
            self.wf(),
            self.registered().contains(id),
        ensures
            res.registered() == self.registered(),
    {
        let senders = self.senders.clone();
        let found = self.receivers.get(&id);
        assert(found is Some);
        let receiver = another_receiver(found.unwrap());
        Channel { senders, receiver }
    }

    /// Forgets thread `id` and its channel.
    pub fn drop(&mut self, id: usize)
        requires
            old(self).wf(),
        ensures
            final(self).wf(),
            final(self).registered() == old(self).registered().remove(id),
    {
        self.senders.remove(&id);
        self.receivers.remove(&id);
        proof {
            assert(self.senders@.dom() =~= self.receivers@.dom());
            assert(self.senders@.dom() =~= old(self).senders@.dom().remove(id));
        }
    }

    /// Takes the next message for the main thread, if one is waiting.
    pub fn try_recv(&self) -> (res: Polled)
        requires
            self.wf(),
            self.registered().contains(0),
    {
        let found = self.receivers.get(&0);
        match found {
            Some(receiver) => channel_try_recv(receiver),
            None => Polled::Disconnected,
        }
    }
}

} // verus!
