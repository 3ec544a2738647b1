//! Typed point-to-point relays between services that run as tasks of one process.
//!
//! A service asks the shared coordinator for a relay to a target service. The
//! coordinator answers with a type-erased producer end of the target's inbound
//! queue, and the relay recovers the typed producer end by a checked cast.
//!
//! Nothing in this crate waits. Every operation that a task would suspend on is
//! split at the suspension point: the part before it and the part after it are
//! functions of this crate, and the caller does the waiting in between.
//!
//! - [`error`]: the failure causes of handshakes and sends.
//! - [`message`]: the erasure wrapper that carries a value of unknown type.
//! - [`channel`]: the bounded queue with one consumer end and duplicable producer ends.
//! - [`service`]: what identifies a service and its messages.
//! - [`overwatch`]: what a relay consumes from the coordinator.
//! - [`relay`]: the connection state machine.

pub mod channel;
pub mod error;
pub mod message;
pub mod overwatch;
pub mod relay;
pub mod service;
