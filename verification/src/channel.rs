//! The liveness channel: an unbounded multi-producer/single-consumer queue
//! of unit heartbeats shared between the dispatcher (many producers) and the
//! idle-shutdown supervisor (the one consumer). Producers never block, and a
//! heartbeat dropped because the consumer is gone is not an error.
//!
//! The channel is shared between concurrently running tasks, so nothing can
//! be promised about what any one call finds queued; each wrapper states
//! only what holds of every outcome, and which queue each end is bound to,
//! through the two identity functions below.

use vstd::prelude::*;

verus! {

#[verifier::external_type_specification]
#[verifier::external_body]
#[verifier::reject_recursive_types(T)]
pub struct ExUnboundedSender<T>(tokio::sync::mpsc::UnboundedSender<T>);

#[verifier::external_type_specification]
#[verifier::external_body]
#[verifier::reject_recursive_types(T)]
pub struct ExUnboundedReceiver<T>(tokio::sync::mpsc::UnboundedReceiver<T>);

/// The identity of the queue a sender feeds: two sending ends with the same
/// identity queue onto the same channel.
pub uninterp spec fn sender_channel(tx: tokio::sync::mpsc::UnboundedSender<()>) -> int;

/// The identity of the queue a receiver drains.
pub uninterp spec fn receiver_channel(rx: tokio::sync::mpsc::UnboundedReceiver<()>) -> int;

/// Relies on tokio::sync::mpsc::unbounded_channel: builds a connected
/// sender/receiver pair — the sender feeds the very queue the receiver
/// drains — and sends on it never block.
#[verifier::external_body]
pub(crate) fn signal_channel() -> (r: (
    tokio::sync::mpsc::UnboundedSender<()>,
    tokio::sync::mpsc::UnboundedReceiver<()>,
))
    ensures
        sender_channel(r.0) == receiver_channel(r.1),
{
    tokio::sync::mpsc::unbounded_channel()
}

/// Relies on tokio::sync::mpsc::UnboundedSender::send: queues the message
/// without ever blocking, and fails only when the receiving end is gone.
/// `true` means the heartbeat was queued.
#[verifier::external_body]
pub(crate) fn send_signal(tx: &tokio::sync::mpsc::UnboundedSender<()>) -> (delivered: bool) {
    tx.send(()).is_ok()
}

/// Relies on tokio::sync::mpsc::UnboundedReceiver::try_recv: returns at
/// once, with a queued message if one is waiting, and leaves the receiver
/// bound to the same queue as before. `true` means a heartbeat was taken
/// off the queue.
#[verifier::external_body]
pub(crate) fn take_signal(rx: &mut tokio::sync::mpsc::UnboundedReceiver<()>) -> (received: bool)
    ensures
        receiver_channel(*final(rx)) == receiver_channel(*old(rx)),
{
    rx.try_recv().is_ok()
}

/// Relies on tokio::sync::mpsc::UnboundedReceiver::len: the number of
/// messages queued at this moment; concurrent senders may add more at any
/// time after it returns.
#[verifier::external_body]
pub(crate) fn queued_count(rx: &tokio::sync::mpsc::UnboundedReceiver<()>) -> (n: usize) {
    rx.len()
}

} // verus!
