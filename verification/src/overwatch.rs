//! What a relay consumes from the coordinator: the command that asks for a
//! relay, the one-shot channel that the answer comes back on, and the shared
//! handle through which commands reach the coordinator.
//!
//! The coordinator itself (its registry of services, its dispatch loop) is not
//! part of this crate. It owes every relay request exactly one answer on the
//! reply channel: the erased producer end of the target's inbound queue, or the
//! reason why there is none. Dropping the reply channel unanswered breaks that
//! promise, and the requester reports it as `RelayError::Receiver`.

use crate::message::RelayResult;
use crate::service::ServiceId;
use tokio::sync::mpsc::Sender;
use tokio::sync::oneshot;
use vstd::prelude::*;

verus! {

/// `tokio::sync::oneshot::Sender`: the half of a one-shot channel that answers.
#[verifier::external_type_specification]
#[verifier::external_body]
#[verifier::reject_recursive_types(T)]
pub struct ExReplySender<T>(oneshot::Sender<T>);

/// `tokio::sync::oneshot::Receiver`: the half of a one-shot channel that waits.
#[verifier::external_type_specification]
#[verifier::external_body]
#[verifier::reject_recursive_types(T)]
pub struct ExReplyReceiver<T>(oneshot::Receiver<T>);

/// `tokio::sync::oneshot::channel`. It takes nothing and does not panic.
/// Nothing is claimed of the two halves.
pub assume_specification<T>[ tokio::sync::oneshot::channel::<T> ]() -> (halves: (
    oneshot::Sender<T>,
    oneshot::Receiver<T>,
));

/// The sender half of a one-shot channel, on which one answer can be given.
#[verifier::reject_recursive_types(Message)]
pub struct ReplyChannel<Message>(pub oneshot::Sender<Message>);

/// Asks the coordinator for a relay to the service `service_id`.
pub struct RelayCommand {
    pub service_id: ServiceId,
    pub reply_channel: ReplyChannel<RelayResult>,
}

/// A command to the coordinator.
pub enum OverwatchCommand {
    Relay(RelayCommand),
}

/// The shared reference to the coordinator: a producer handle of its command
/// queue. Duplicates reach the same coordinator.
pub struct OverwatchHandle {
    sender: Sender<OverwatchCommand>,
}

impl OverwatchHandle {
    /// The command queue that this handle writes to.
    pub closed spec fn sender(&self) -> Sender<OverwatchCommand> {
        self.sender
    }

    /// A handle that sends commands through `sender`.
    pub fn new(sender: Sender<OverwatchCommand>) -> (handle: Self)
        ensures
            handle.sender() == sender,
    {
        OverwatchHandle { sender }
    }

    /// The tokio handle of the command queue, for a caller that waits on it.
    pub fn as_sender(&self) -> (sender: &Sender<OverwatchCommand>)
        ensures
            *sender == self.sender(),
    {
        &self.sender
    }
}

impl Clone for OverwatchHandle {
    /// Another handle to the same coordinator.
    fn clone(&self) -> (duplicate: Self)
        ensures
            duplicate == *self,
    {
        OverwatchHandle { sender: self.sender.clone() }
    }
}

} // verus!
