//! The failure causes that a relay reports.

use crate::service::ServiceId;
use tokio::sync::oneshot::error::RecvError;
use vstd::prelude::*;

verus! {

/// `tokio::sync::oneshot::error::RecvError`: what awaiting a one-shot receiver
/// yields when the sender was dropped without sending. Nothing is claimed of it.
#[verifier::external_type_specification]
#[verifier::external_body]
pub struct ExRecvError(RecvError);

/// Why a handshake or a send failed. No variant is retried by this crate, and
/// none is fatal: the caller decides how to recover.
#[derive(Debug)]
pub enum RelayError {
    /// The coordinator was asked for a relay to a service id that it does not know.
    InvalidRequest { to: ServiceId },
    /// The queue's consumer end was already dropped when a send was attempted.
    Send,
    /// A connection was requested on a relay that is connected.
    AlreadyConnected,
    /// A send was attempted on a relay that is not connected.
    Disconnected,
    /// The target service is not running.
    Unavailable { service_id: ServiceId },
    /// The erased payload was not of the expected type: `type_id` is the type
    /// identity of what it held, `service_id` the service the cast was made for.
    InvalidMessage { type_id: String, service_id: ServiceId },
    /// The one-shot reply failed: the replying side dropped its sender unanswered.
    Receiver(RecvError),
}

/// The mathematical content of a [`RelayError`]: texts are sequences of characters.
pub enum RelayErrorView {
    InvalidRequest { to: Seq<char> },
    Send,
    AlreadyConnected,
    Disconnected,
    Unavailable { service_id: Seq<char> },
    InvalidMessage { type_id: Seq<char>, service_id: Seq<char> },
    Receiver(RecvError),
}

impl View for RelayError {
    type V = RelayErrorView;

    open spec fn view(&self) -> RelayErrorView {
        match *self {
            RelayError::InvalidRequest { to } => RelayErrorView::InvalidRequest { to: to@ },
            RelayError::Send => RelayErrorView::Send,
            RelayError::AlreadyConnected => RelayErrorView::AlreadyConnected,
            RelayError::Disconnected => RelayErrorView::Disconnected,
            RelayError::Unavailable { service_id } => RelayErrorView::Unavailable {
                service_id: service_id@,
            },
            RelayError::InvalidMessage { type_id, service_id } => RelayErrorView::InvalidMessage {
                type_id: type_id@,
                service_id: service_id@,
            },
            RelayError::Receiver(cause) => RelayErrorView::Receiver(cause),
        }
    }
}

} // verus!
