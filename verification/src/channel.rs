//! The channel pair: one bounded queue in first-in-first-out order, with one
//! consumer end and any number of producer ends.
//!
//! The queue is tokio's bounded `mpsc` channel. The two ends offer the attempts
//! that complete at once: a task that must wait for room or for a message is told
//! so ([`SendOutcome::Full`], [`RecvOutcome::Empty`]) and waits outside this crate.

use crate::error::RelayError;
use crate::message::Payload;
use tokio::sync::mpsc::error::{TryRecvError, TrySendError};
use tokio::sync::mpsc::{Receiver, Sender};
use vstd::prelude::*;

verus! {

/// `tokio::sync::mpsc::Sender`: a producer handle of a bounded queue. The verifier
/// sees nothing inside it; equal handles write to the same queue.
#[verifier::external_type_specification]
#[verifier::external_body]
#[verifier::reject_recursive_types(T)]
pub struct ExSender<T>(Sender<T>);

/// `tokio::sync::mpsc::Receiver`: the consumer handle of a bounded queue.
#[verifier::external_type_specification]
#[verifier::external_body]
#[verifier::reject_recursive_types(T)]
pub struct ExReceiver<T>(Receiver<T>);

/// The largest capacity that a queue can be created with: tokio's
/// `Semaphore::MAX_PERMITS`, which is `usize::MAX >> 3`.
pub const MAX_BUFFER_SIZE: usize = usize::MAX / 8;

/// The capacity that the queue of `handle` was created with, where `handle` is
/// a producer or consumer handle of a queue: what tokio's `max_capacity` gives
/// for it. It never changes while the queue lives.
pub uninterp spec fn queue_capacity(handle: &dyn Payload) -> usize;

/// A queue handle with its message type forgotten, to ask [`queue_capacity`] of.
pub open spec fn handle_of<T>(handle: &T) -> &dyn Payload {
    handle
}

/// `tokio::sync::mpsc::channel`. It panics for a capacity of zero and for one
/// above `Semaphore::MAX_PERMITS`; both are excluded. Claimed: both handles are
/// of a queue whose capacity is `buffer`.
pub assume_specification<T>[ tokio::sync::mpsc::channel::<T> ](buffer: usize) -> (ends: (
    Sender<T>,
    Receiver<T>,
))
    requires
        0 < buffer <= MAX_BUFFER_SIZE,
    ensures
        queue_capacity(handle_of(&ends.0)) == buffer,
        queue_capacity(handle_of(&ends.1)) == buffer,
;

/// `tokio::sync::mpsc::Sender::max_capacity`. Claimed: it gives the capacity
/// that the queue was created with.
pub assume_specification<T>[ tokio::sync::mpsc::Sender::<T>::max_capacity ](
    handle: &tokio::sync::mpsc::Sender<T>,
) -> (capacity: usize)
    ensures
        capacity == queue_capacity(handle_of(handle)),
;

/// `tokio::sync::mpsc::Receiver::max_capacity`. Claimed: it gives the capacity
/// that the queue was created with.
pub assume_specification<T>[ tokio::sync::mpsc::Receiver::<T>::max_capacity ](
    handle: &tokio::sync::mpsc::Receiver<T>,
) -> (capacity: usize)
    ensures
        capacity == queue_capacity(handle_of(handle)),
;

/// `Clone` of `tokio::sync::mpsc::Sender`. Claimed: the duplicate is a handle of
/// the same queue as the handle that it was made from.
pub assume_specification<T>[ <Sender<T> as Clone>::clone ](sender: &Sender<T>) -> (duplicate:
    Sender<T>)
    ensures
        duplicate == *sender,
;

/// What became of a message that was offered to the queue while its consumer
/// end was alive.
pub enum SendOutcome<M> {
    /// The message is in the queue.
    Sent,
    /// The queue is at capacity: the message comes back, and the caller waits
    /// for room before offering it again.
    Full(M),
}

/// What the consumer end found in the queue.
pub enum RecvOutcome<M> {
    /// The oldest message of the queue, which has left it.
    Message(M),
    /// The queue is empty and a producer end is alive: the caller waits.
    Empty,
    /// The queue is empty and every producer end is gone: end of stream.
    Closed,
}

/// `tokio::sync::mpsc::Sender::try_send`. The three results of tokio are told
/// apart and nothing else is done: `Ok` of tokio is `Ok(Sent)`, `Full` is
/// `Ok(Full)`, `Closed` is `Err`. Claimed: a message that was not enqueued comes
/// back as it was given.
#[verifier::external_body]
fn try_send<M>(sender: &Sender<M>, message: M) -> (attempt: Result<SendOutcome<M>, M>)
    ensures
        attempt matches Ok(SendOutcome::Full(back)) ==> back == message,
        attempt matches Err(back) ==> back == message,
{
    match sender.try_send(message) {
        Ok(()) => Ok(SendOutcome::Sent),
        Err(TrySendError::Full(back)) => Ok(SendOutcome::Full(back)),
        Err(TrySendError::Closed(back)) => Err(back),
    }
}

/// `tokio::sync::mpsc::Receiver::try_recv`. The three results of tokio are told
/// apart and nothing else is done. What comes out depends on what the producers
/// did, so nothing is claimed of it. Claimed of the handle: it is not replaced,
/// so it reads the queue that it read before.
#[verifier::external_body]
fn try_recv<M>(receiver: &mut Receiver<M>) -> (attempt: RecvOutcome<M>)
    ensures
        *final(receiver) == *old(receiver),
{
    match receiver.try_recv() {
        Ok(message) => RecvOutcome::Message(message),
        Err(TryRecvError::Empty) => RecvOutcome::Empty,
        Err(TryRecvError::Disconnected) => RecvOutcome::Closed,
    }
}

/// The consumer end of a channel pair. It cannot be duplicated: one task reads.
#[verifier::reject_recursive_types(M)]
pub struct InboundRelay<M> {
    receiver: Receiver<M>,
}

/// A producer end of a channel pair. Its duplicates write to the same queue.
#[verifier::reject_recursive_types(M)]
pub struct OutboundRelay<M> {
    sender: Sender<M>,
}

/// Creates a queue that holds up to `buffer_size` messages, and returns its
/// consumer end and its first producer end.
pub fn relay<M>(buffer_size: usize) -> (ends: (InboundRelay<M>, OutboundRelay<M>))
    requires
        1 <= buffer_size <= MAX_BUFFER_SIZE,
    ensures
        ends.0.capacity() == buffer_size,
        ends.1.capacity() == buffer_size,
{
    let (sender, receiver) = tokio::sync::mpsc::channel(buffer_size);
    (InboundRelay { receiver }, OutboundRelay { sender })
}

impl<M> InboundRelay<M> {
    /// The tokio handle that this end reads through.
    pub closed spec fn receiver(&self) -> Receiver<M> {
        self.receiver
    }

    /// The capacity that the queue of this end was created with.
    pub closed spec fn spec_capacity(&self) -> usize {
        queue_capacity(handle_of(&self.receiver))
    }

    /// The capacity that the queue of this end was created with.
    #[verifier::when_used_as_spec(spec_capacity)]
    pub fn capacity(&self) -> (capacity: usize)
        ensures
            capacity == self.spec_capacity(),
    {
        self.receiver.max_capacity()
    }

    /// Takes the oldest message out of the queue, if there is one, without
    /// waiting. Which of the three outcomes it is depends on the producers alone.
    /// The end itself stays the consumer end of the same queue.
    pub fn recv(&mut self) -> (outcome: RecvOutcome<M>)
        ensures
            *final(self) == *old(self),
    {
        try_recv(&mut self.receiver)
    }

    /// The tokio handle, for a caller that waits on it.
    pub fn as_receiver(&mut self) -> (receiver: &mut Receiver<M>)
        ensures
            *receiver == old(self).receiver(),
            final(self).receiver() == *final(receiver),
    {
        &mut self.receiver
    }
}

impl<M> OutboundRelay<M> {
    /// The tokio handle that this end writes through.
    pub closed spec fn sender(&self) -> Sender<M> {
        self.sender
    }

    /// The capacity that the queue of this end was created with.
    pub closed spec fn spec_capacity(&self) -> usize {
        queue_capacity(handle_of(&self.sender))
    }

    /// The capacity that the queue of this end was created with.
    #[verifier::when_used_as_spec(spec_capacity)]
    pub fn capacity(&self) -> (capacity: usize)
        ensures
            capacity == self.spec_capacity(),
    {
        self.sender.max_capacity()
    }

    /// What [`OutboundRelay::send`] returns for each result of the attempt:
    /// a consumer end that is gone is the error `Send`, with the message.
    pub open spec fn spec_send_result(attempt: Result<SendOutcome<M>, M>) -> Result<
        SendOutcome<M>,
        (RelayError, M),
    > {
        match attempt {
            Ok(outcome) => Ok(outcome),
            Err(message) => Err((RelayError::Send, message)),
        }
    }

    /// Offers `message` to the queue, without waiting.
    ///
    /// Whatever the queue does, the result is one of three: the message was
    /// enqueued; the queue is full and the message comes back; or the consumer
    /// end was dropped, which is the error `Send` together with the message.
    /// The producer end itself is as before.
    pub fn send(&mut self, message: M) -> (result: Result<SendOutcome<M>, (RelayError, M)>)
        ensures
            *final(self) == *old(self),
            result == Ok::<SendOutcome<M>, (RelayError, M)>(SendOutcome::Sent)
                || result == Ok::<SendOutcome<M>, (RelayError, M)>(SendOutcome::Full(message))
                || result == Err::<SendOutcome<M>, (RelayError, M)>((RelayError::Send, message)),
    {
        Self::send_result(try_send(&self.sender, message))
    }

    /// Turns the result of an attempt into what [`OutboundRelay::send`] returns.
    pub fn send_result(attempt: Result<SendOutcome<M>, M>) -> (result: Result<
        SendOutcome<M>,
        (RelayError, M),
    >)
        ensures
            result == Self::spec_send_result(attempt),
    {
        match attempt {
            Ok(outcome) => Ok(outcome),
            Err(message) => Err((RelayError::Send, message)),
        }
    }

    /// The tokio handle, for a caller that waits on it.
    pub fn as_sender(&self) -> (sender: &Sender<M>)
        ensures
            *sender == self.sender(),
    {
        &self.sender
    }
}

impl<M> Clone for OutboundRelay<M> {
    /// Another producer end of the same queue.
    fn clone(&self) -> (duplicate: Self)
        ensures
            duplicate == *self,
    {
        OutboundRelay { sender: self.sender.clone() }
    }
}

} // verus!
