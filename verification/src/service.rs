//! What identifies a service, and what a relay needs to know of one.

use vstd::prelude::*;

verus! {

/// Identifier of a service.
pub type ServiceId = &'static str;

/// Marker for the types that travel over a relay.
pub trait RelayMessage: 'static {

}

/// The message type of a service that takes no messages.
#[derive(Debug)]
pub struct NoMessage;

impl Clone for NoMessage {
    fn clone(&self) -> (duplicate: Self)
        ensures
            duplicate == *self,
    {
        NoMessage
    }
}

impl RelayMessage for NoMessage {

}

/// A service as a relay sees it: its identifier and the type of the messages
/// that its inbound queue holds.
pub trait ServiceCore: 'static {
    /// The identifier under which the coordinator knows the service.
    const SERVICE_ID: ServiceId;

    /// What the service's inbound queue holds.
    type Message: RelayMessage;
}

} // verus!
