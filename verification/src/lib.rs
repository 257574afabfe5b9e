//! A library for writing modules: child processes that expose one RPC-style
//! capability to a supervising router over their own stdin/stdout pipes.
//!
//! The library covers the parts with real state: turning the two stdio byte
//! streams into the single connection the RPC engine expects, the dispatch
//! bridge between a decoded invocation and the module author's handler, and
//! the idle-shutdown supervisor that ends the process when no invocation
//! arrives for a configured while.

use vstd::prelude::*;

pub mod channel;
pub mod connection_source;
pub mod invoker_service;
pub mod messages;
pub mod supervisor;

use core::time::Duration;
use crate::channel::sender_channel;
use crate::invoker_service::InvokerService;
use crate::supervisor::IdleSupervisor;

pub use crate::messages::Code;
pub use crate::messages::Invocation;
pub use crate::messages::MessagePack;
pub use crate::messages::Status;

verus! {

/// The total number of whole milliseconds a `Duration` holds, as
/// `Duration::as_millis` reports it: the model of the otherwise opaque type.
pub uninterp spec fn millis_of(d: Duration) -> nat;

/// Relies on core::time::Duration::as_millis: returns the total number of
/// whole milliseconds contained by the duration.
pub assume_specification[ core::time::Duration::as_millis ](d: &Duration) -> (r: u128)
    ensures
        r == millis_of(*d),
;

/// Relies on core::time::Duration::from_secs: builds a duration of exactly
/// `secs` whole seconds, which is `secs * 1000` whole milliseconds.
pub assume_specification[ core::time::Duration::from_secs ](secs: u64) -> (d: Duration)
    ensures
        millis_of(d) == secs * 1000,
;

/// Describes a module that can talk to the router over stdin/stdout.
pub struct Module {
    /// Idle timeout for the module. If no invocation has reached the module
    /// once this much time has passed, the module shuts itself down.
    ///
    /// Default is 5 minutes.
    pub timeout: Duration,
}

impl Module {
    pub fn new() -> (m: Module)
        ensures
            millis_of(m.timeout) == 300_000,
    {
        Module { timeout: Duration::from_secs(60 * 5) }
    }

    /// Replaces the idle timeout, leaving everything else as it was.
    pub fn timeout(self, timeout: Duration) -> (m: Module)
        ensures
            m.timeout == timeout,
    {
        Module { timeout }
    }

    /// The coordinator's wiring, done once at start of serving: builds the
    /// one liveness channel, hands its sending end to a dispatcher around
    /// `service` and its receiving end to the idle supervisor — so the
    /// dispatcher's heartbeats feed exactly the queue the supervisor
    /// drains — and passes the configured timeout back out for the
    /// supervisor's countdown.
    pub fn prepare<T>(self, service: T) -> (r: (InvokerService<T>, IdleSupervisor, Duration))
        ensures
            r.0.spec_service() == service,
            sender_channel(r.0.spec_sender()) == r.1.spec_channel(),
            r.2 == self.timeout,
    {
        let (supervisor, tx) = IdleSupervisor::new();
        (InvokerService::new(service, tx), supervisor, self.timeout)
    }
}

impl Default for Module {
    fn default() -> (m: Module)
        ensures
            millis_of(m.timeout) == 300_000,
    {
        Module::new()
    }
}

} // verus!
