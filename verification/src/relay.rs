//! The connection state machine of a relay.
//!
//! A [`Relay`] is bound to one target service and is either disconnected or
//! holds a producer end of the target's inbound queue. The handshake that
//! connects it has a suspension point in its middle, where the requester waits
//! for the coordinator's answer. It is therefore two functions:
//! [`Relay::connect`] decides whether a request may go out and builds it, and
//! [`Relay::handle_relay_response`] decides what the answer does to the relay.
//! Between the two, the caller hands the command to the coordinator and awaits
//! the one-shot receiver.

use crate::channel::{OutboundRelay, SendOutcome};
use crate::error::{RelayError, RelayErrorView};
use crate::message::{carries, holds, payload_type, AnyMessage, RelayResult};
use crate::overwatch::{OverwatchCommand, OverwatchHandle, RelayCommand, ReplyChannel};
use crate::service::ServiceCore;
use tokio::sync::oneshot;
use tokio::sync::oneshot::error::RecvError;
use vstd::prelude::*;

verus! {

/// What a relay holds: nothing, or a producer end of the target's queue.
#[verifier::reject_recursive_types(M)]
pub enum RelayState<M> {
    Disconnected,
    Connected(OutboundRelay<M>),
}

impl<M> RelayState<M> {
    /// The state after a disconnect, whatever the state before.
    pub open spec fn after_disconnect(self) -> Self {
        RelayState::Disconnected
    }

    /// The state after a handshake whose checked cast gave `cast`: a producer
    /// end connects, a refusal changes nothing.
    pub open spec fn after_handshake(self, cast: Result<OutboundRelay<M>, (RelayError, AnyMessage)>)
        -> Self {
        match cast {
            Ok(outbound) => RelayState::Connected(outbound),
            Err(_) => self,
        }
    }
}

impl<M> Clone for RelayState<M> {
    /// The same state; a producer end in it is duplicated, so that both states
    /// write to one queue.
    fn clone(&self) -> (duplicate: Self)
        ensures
            duplicate == *self,
    {
        match self {
            RelayState::Disconnected => RelayState::Disconnected,
            RelayState::Connected(outbound) => RelayState::Connected(outbound.clone()),
        }
    }
}

/// A handle for sending messages to the service `S`.
pub struct Relay<S: ServiceCore> {
    state: RelayState<S::Message>,
    overwatch_handle: OverwatchHandle,
}

impl<S: ServiceCore> Relay<S> {
    /// The connection state.
    pub closed spec fn state(&self) -> RelayState<S::Message> {
        self.state
    }

    /// The coordinator that this relay asks for connections.
    pub closed spec fn handle(&self) -> OverwatchHandle {
        self.overwatch_handle
    }

    /// Whether the relay holds a producer end.
    pub open spec fn spec_is_connected(&self) -> bool {
        self.state() is Connected
    }

    /// The result of a send that found the relay connected, for each result of
    /// the producer end: the message of a failed send is dropped here.
    pub open spec fn spec_forwarded(
        sent: Result<SendOutcome<S::Message>, (RelayError, S::Message)>,
    ) -> Result<SendOutcome<S::Message>, RelayError> {
        match sent {
            Ok(outcome) => Ok(outcome),
            Err((error, _)) => Err(error),
        }
    }

    /// A disconnected relay that will ask `overwatch_handle` for its connections.
    pub fn new(overwatch_handle: OverwatchHandle) -> (relay: Self)
        ensures
            relay.state() == RelayState::<S::Message>::Disconnected,
            relay.handle() == overwatch_handle,
    {
        Relay { state: RelayState::Disconnected, overwatch_handle }
    }

    /// Whether the relay holds a producer end.
    #[verifier::when_used_as_spec(spec_is_connected)]
    pub fn is_connected(&self) -> (connected: bool)
        ensures
            connected == self.spec_is_connected(),
    {
        match &self.state {
            RelayState::Disconnected => false,
            RelayState::Connected(_) => true,
        }
    }

    /// The coordinator that this relay asks for connections.
    pub fn overwatch_handle(&self) -> (handle: &OverwatchHandle)
        ensures
            *handle == self.handle(),
    {
        &self.overwatch_handle
    }

    /// The producer end that the relay holds, if it is connected.
    pub fn outbound(&self) -> (outbound: Option<&OutboundRelay<S::Message>>)
        ensures
            match self.state() {
                RelayState::Disconnected => outbound is None,
                RelayState::Connected(held) => outbound == Some(&held),
            },
    {
        match &self.state {
            RelayState::Disconnected => None,
            RelayState::Connected(held) => Some(held),
        }
    }

    /// The command that asks the coordinator for a relay to `S` and names
    /// `reply` as the place for the answer.
    pub fn request_relay(reply: oneshot::Sender<RelayResult>) -> (command: OverwatchCommand)
        ensures
            command == OverwatchCommand::Relay(
                RelayCommand { service_id: S::SERVICE_ID, reply_channel: ReplyChannel(reply) },
            ),
    {
        OverwatchCommand::Relay(
            RelayCommand { service_id: S::SERVICE_ID, reply_channel: ReplyChannel(reply) },
        )
    }

    /// Starts a handshake.
    ///
    /// A connected relay refuses with `AlreadyConnected`. A disconnected one
    /// creates a one-shot reply channel and returns the command for the
    /// coordinator, which holds the sender half, together with the receiver half
    /// on which the answer will arrive. Either way the relay itself is untouched:
    /// only [`Relay::handle_relay_response`] connects it.
    pub fn connect(&mut self) -> (result: Result<
        (OverwatchCommand, oneshot::Receiver<RelayResult>),
        RelayError,
    >)
        ensures
            *final(self) == *old(self),
            old(self).is_connected() ==> result matches Err(RelayError::AlreadyConnected),
            !old(self).is_connected() ==> (result matches Ok((command, _))
                && command matches OverwatchCommand::Relay(request)
                && request.service_id == S::SERVICE_ID),
    {
        match &self.state {
            RelayState::Disconnected => {
                let (reply, receiver) = oneshot::channel();
                Ok((Self::request_relay(reply), receiver))
            },
            RelayState::Connected(_) => Err(RelayError::AlreadyConnected),
        }
    }

    /// Finishes a handshake with what awaiting the reply channel gave.
    ///
    /// - The reply channel failed: `Receiver` with the cause, nothing changes.
    /// - The coordinator answered with an error: that error, nothing changes.
    /// - The coordinator answered with a carrier: the payload is cast to a
    ///   producer end of `S`'s message type. If the carrier holds one, the relay
    ///   is connected with it; if not, the error is `InvalidMessage` with the
    ///   type identity of the payload and the id of `S`, and nothing changes.
    pub fn handle_relay_response(&mut self, response: Result<RelayResult, RecvError>) -> (result:
        Result<(), RelayError>)
        ensures
            final(self).handle() == old(self).handle(),
            result is Ok ==> final(self).is_connected(),
            result is Err ==> final(self).state() == old(self).state(),
            result is Ok ==> response matches Ok(Ok(_)),
            match response {
                Err(cause) => {
                    &&& result == Err::<(), RelayError>(RelayError::Receiver(cause))
                    &&& final(self).state() == old(self).state()
                },
                Ok(Err(error)) => {
                    &&& result == Err::<(), RelayError>(error)
                    &&& final(self).state() == old(self).state()
                },
                Ok(Ok(message)) => match result {
                    Ok(_) => {
                        &&& holds::<OutboundRelay<S::Message>>(message)
                        &&& forall|outbound: OutboundRelay<S::Message>| #[trigger]
                            carries(message, outbound) ==> final(self).state()
                                == RelayState::Connected(outbound)
                    },
                    Err(error) => {
                        &&& !holds::<OutboundRelay<S::Message>>(message)
                        &&& error@ == (RelayErrorView::InvalidMessage {
                            type_id: payload_type(message),
                            service_id: S::SERVICE_ID@,
                        })
                        &&& final(self).state() == old(self).state()
                    },
                },
            },
    {
        match response {
            Ok(Ok(message)) => {
                let cast = message.unwrap::<OutboundRelay<S::Message>>(S::SERVICE_ID);
                self.complete_handshake(cast)
            },
            Ok(Err(error)) => Err(error),
            Err(cause) => Err(RelayError::Receiver(cause)),
        }
    }

    /// Finishes a handshake with the result of the checked cast: a producer end
    /// becomes the connection, a refusal is returned with its error and leaves
    /// the relay as it was.
    pub fn complete_handshake(
        &mut self,
        cast: Result<OutboundRelay<S::Message>, (RelayError, AnyMessage)>,
    ) -> (result: Result<(), RelayError>)
        ensures
            final(self).handle() == old(self).handle(),
            final(self).state() == old(self).state().after_handshake(cast),
            match cast {
                Ok(_) => result is Ok,
                Err((error, _)) => result == Err::<(), RelayError>(error),
            },
    {
        match cast {
            Ok(outbound) => {
                self.state = RelayState::Connected(outbound);
                Ok(())
            },
            Err((error, _)) => Err(error),
        }
    }

    /// Drops the connection, if there is one. It always succeeds.
    pub fn disconnect(&mut self) -> (result: Result<(), RelayError>)
        ensures
            result is Ok,
            final(self).state() == old(self).state().after_disconnect(),
            final(self).handle() == old(self).handle(),
            !old(self).is_connected() ==> *final(self) == *old(self),
    {
        self.state = RelayState::Disconnected;
        Ok(())
    }

    /// Offers `message` to the target's queue, without waiting.
    ///
    /// A disconnected relay refuses with `Disconnected`: it has no queue to
    /// touch, and it does not try to connect. A connected relay hands the
    /// message to its producer end: the message is enqueued, or it comes back
    /// because the queue is full, or the consumer end is gone, which is the
    /// error `Send`; the message is then dropped. The relay stays as it was,
    /// whatever the outcome: a failed send does not disconnect it.
    pub fn send(&mut self, message: S::Message) -> (result: Result<
        SendOutcome<S::Message>,
        RelayError,
    >)
        ensures
            *final(self) == *old(self),
            !old(self).is_connected() ==> result matches Err(RelayError::Disconnected),
            old(self).is_connected() ==> {
                ||| result matches Ok(SendOutcome::Sent)
                ||| result matches Ok(SendOutcome::Full(back)) && back == message
                ||| result matches Err(RelayError::Send)
            },
    {
        match &mut self.state {
            RelayState::Connected(outbound) => Self::forwarded(outbound.send(message)),
            RelayState::Disconnected => Err(RelayError::Disconnected),
        }
    }

    /// Turns the result of the producer end into the result of [`Relay::send`]:
    /// the message of a failed send is dropped.
    pub fn forwarded(sent: Result<SendOutcome<S::Message>, (RelayError, S::Message)>) -> (result:
        Result<SendOutcome<S::Message>, RelayError>)
        ensures
            result == Self::spec_forwarded(sent),
    {
        match sent {
            Ok(outcome) => Ok(outcome),
            Err((error, _)) => Err(error),
        }
    }
}

impl<S: ServiceCore> Clone for Relay<S> {
    /// A relay in the same state, with the same coordinator. If this relay is
    /// connected, both write to one queue; what either does to its own state
    /// afterwards does not reach the other.
    fn clone(&self) -> (duplicate: Self)
        ensures
            duplicate == *self,
    {
        Relay { state: self.state.clone(), overwatch_handle: self.overwatch_handle.clone() }
    }
}

/// Disconnecting is idempotent: a second disconnect changes nothing, and the
/// first changes nothing either if the relay was not connected.
pub proof fn lemma_disconnect_idempotent<M>(state: RelayState<M>)
    ensures
        state.after_disconnect().after_disconnect() == state.after_disconnect(),
        state is Disconnected ==> state.after_disconnect() == state,
{
}

} // verus!
