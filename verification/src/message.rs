//! The erasure wrapper: an opaque carrier for one value whose type only the two
//! ends of a handshake agree on.
//!
//! The coordinator cannot be generic over the message type of every service, so
//! a producer end travels to the requester inside an [`AnyMessage`]. The requester
//! recovers it with a checked cast that succeeds only on an exact type match.

use crate::error::{RelayError, RelayErrorView};
use crate::service::ServiceId;
use std::any::Any;
use vstd::prelude::*;

verus! {

/// A value of a type unknown to the holder, tagged with its runtime type identity.
///
/// The payload is a `Box<dyn Any + Send>`, which the verifier cannot take as a type:
/// the struct is opaque to it, and all that it knows of a carrier is what the
/// trusted functions of this module state.
#[verifier::external_body]
pub struct AnyMessage {
    payload: Box<dyn Any + Send + 'static>,
}

/// What a handshake yields: the erased producer end, or why there is none.
pub type RelayResult = Result<AnyMessage, RelayError>;

/// What a carrier can hold: a value of any type. In contracts, `dyn Payload` is
/// the type of a value whose own type is not known to the holder.
pub trait Payload {

}

impl<T> Payload for T {

}

/// What `message` holds, as a value of unknown type.
pub uninterp spec fn payload(message: AnyMessage) -> Box<dyn Payload>;

/// The type identity of the payload of `message`, as the text that `TypeId`'s
/// `Debug` gives for it. It is a function of the payload's type alone.
pub uninterp spec fn payload_type(message: AnyMessage) -> Seq<char>;

/// `value` with its type forgotten. Values of different types are never known
/// to be the same once erased.
pub open spec fn erased<T: 'static>(value: T) -> Box<dyn Payload> {
    Box::new(value)
}

/// `message` holds `value`, a value of type `T`.
pub open spec fn carries<T: 'static>(message: AnyMessage, value: T) -> bool {
    payload(message) == erased(value)
}

/// `message` holds a value of type `T`.
pub open spec fn holds<T: 'static>(message: AnyMessage) -> bool {
    exists|value: T| #[trigger] carries(message, value)
}

/// `Box::new`, and the coercion of the box to `Box<dyn Any + Send>`.
/// Claimed: the carrier holds the value that was given.
#[verifier::external_body]
fn erase<T: Send + 'static>(value: T) -> (message: AnyMessage)
    ensures
        payload(message) == erased(value),
{
    AnyMessage { payload: Box::new(value) }
}

/// `Box<dyn Any + Send>::downcast`. Claimed: the cast of a carrier that holds a
/// `T` is granted; a granted cast gives the one value that the carrier held;
/// and when the cast is refused, the carrier that comes back is the one that
/// went in, payload included.
#[verifier::external_body]
fn downcast<T: 'static>(message: AnyMessage) -> (cast: Result<T, AnyMessage>)
    ensures
        holds::<T>(message) ==> cast is Ok,
        cast matches Ok(value) ==> (forall|held: T|
            payload(message) == #[trigger] erased(held) <==> held == value),
        cast matches Err(back) ==> back == message,
{
    match message.payload.downcast::<T>() {
        Ok(value) => Ok(*value),
        Err(payload) => Err(AnyMessage { payload }),
    }
}

/// `Any::type_id` on the payload (not on the box), rendered with `Debug`.
/// Claimed: the text is the payload's type identity.
#[verifier::external_body]
fn type_identity(message: &AnyMessage) -> (id: String)
    ensures
        id@ == payload_type(*message),
{
    format!("{:?}", (*message.payload).type_id())
}

impl AnyMessage {
    /// Hides `value` in a carrier that remembers the type of `value`.
    pub fn wrap<T: Send + 'static>(value: T) -> (message: AnyMessage)
        ensures
            carries(message, value),
    {
        erase(value)
    }

    /// Recovers the payload as a `T`, for the service `service_id`.
    ///
    /// The cast is granted exactly when the carrier holds a `T`, and then gives
    /// the value that the carrier holds. When it is refused, the error names the
    /// type identity of what the carrier holds and the service that the cast was
    /// made for, and the carrier comes back untouched.
    pub fn unwrap<T: 'static>(self, service_id: ServiceId) -> (cast: Result<
        T,
        (RelayError, AnyMessage),
    >)
        ensures
            cast is Ok <==> holds::<T>(self),
            forall|value: T| #[trigger]
                carries(self, value) ==> cast == Ok::<T, (RelayError, AnyMessage)>(value),
            match cast {
                Ok(value) => carries(self, value),
                Err((error, back)) => {
                    &&& back == self
                    &&& error@ == (RelayErrorView::InvalidMessage {
                        type_id: payload_type(self),
                        service_id: service_id@,
                    })
                },
            },
    {
        match downcast::<T>(self) {
            Ok(value) => {
                assert(carries(self, value));
                Ok(value)
            },
            Err(back) => {
                let type_id = type_identity(&back);
                Err((RelayError::InvalidMessage { type_id, service_id }, back))
            },
        }
    }
}

} // verus!
