//! The invocation dispatcher: the bridge between one decoded invocation and
//! the module author's handler. For each invocation it emits exactly one
//! liveness heartbeat — before the handler runs, fire-and-forget — then
//! hands the handler the function name and the untouched argument payload.
//! The handler's first outcome is routed as is: an immediate failure becomes
//! the terminal status of that one invocation and no stream is produced; a
//! success hands the handler's lazy result stream through to the engine,
//! element by element, unchanged and in order.

use vstd::prelude::*;

use crate::channel::send_signal;
use crate::messages::Invocation;
use crate::messages::MessagePack;
use crate::messages::Status;

verus! {

/// What the dispatcher hands the handler for one invocation: its function
/// name and its payload, exactly as they arrived.
pub open spec fn spec_dispatched(invocation: Invocation) -> (String, Option<MessagePack>) {
    (invocation.function_name, invocation.args)
}

/// Holds the module author's handler and the sending end of the liveness
/// channel. One per process, shared by every in-flight invocation; the
/// handler must carry its own synchronization, for calls on it overlap
/// freely.
pub struct InvokerService<T> {
    service: T,
    tx: tokio::sync::mpsc::UnboundedSender<()>,
}

impl<T> InvokerService<T> {
    /// The handler given at construction.
    pub closed spec fn spec_service(self) -> T {
        self.service
    }

    /// The sending end of the liveness channel, as given at construction:
    /// the end every heartbeat of this dispatcher goes out on.
    pub closed spec fn spec_sender(self) -> tokio::sync::mpsc::UnboundedSender<()> {
        self.tx
    }

    pub fn new(service: T, tx: tokio::sync::mpsc::UnboundedSender<()>) -> (s: InvokerService<T>)
        ensures
            s.spec_service() == service,
            s.spec_sender() == tx,
    {
        InvokerService { service, tx }
    }

    /// Borrows the handler, for the caller that runs it.
    pub fn service(&self) -> (s: &T)
        ensures
            *s == self.spec_service(),
    {
        &self.service
    }

    /// The dispatch prefix of one invocation: emit its one heartbeat —
    /// queued without blocking, and silently dropped when the supervisor is
    /// gone, which is not an error — then hand back the function name and
    /// the payload byte-for-byte as they arrived, for the handler to be
    /// called with. The payload is never inspected nor altered.
    pub fn accept(&self, invocation: Invocation) -> (c: (String, Option<MessagePack>))
        ensures
            c == spec_dispatched(invocation),
    {
        let _ = send_signal(&self.tx);
        (invocation.function_name, invocation.args)
    }
}

/// Routes the handler's first outcome, which is awaited before anything
/// streams: a failure is terminal for this one invocation alone and exactly
/// the handler's status comes back, with no stream ever produced; a success
/// hands the handler's stream object through untouched.
pub fn route_outcome<S>(outcome: Result<S, Status>) -> (r: Result<S, Status>)
    ensures
        r == outcome,
{
    outcome
}

/// Forwards one element of a response stream: the caller observes it exactly
/// as the handler produced it. An error element is carried like any other —
/// it does not end the stream by itself; whether to stop after it is the
/// engine's policy, never the dispatcher's.
pub fn forward_element(element: Result<MessagePack, Status>) -> (r: Result<MessagePack, Status>)
    ensures
        r == element,
{
    element
}

/// Dispatch keeps arrival order: whatever `accept` actually returned for
/// each invocation of an arrival sequence, the handler sees the calls
/// one-for-one in the same order, each with its own name and untouched
/// payload — the dispatched sequence is the arrival sequence itself, mapped
/// to its name/payload pairs.
pub proof fn lemma_dispatch_preserves_order<T>(
    service: &InvokerService<T>,
    arrivals: Seq<Invocation>,
    dispatched: Seq<(String, Option<MessagePack>)>,
)
    requires
        arrivals.len() == dispatched.len(),
        forall|i: int|
            0 <= i < arrivals.len() ==> call_ensures(
                InvokerService::<T>::accept,
                (service, arrivals[i]),
                dispatched[i],
            ),
    ensures
        forall|i: int| 0 <= i < arrivals.len() ==> dispatched[i] == spec_dispatched(arrivals[i]),
        dispatched == arrivals.map_values(|inv: Invocation| spec_dispatched(inv)),
{
    assert(dispatched =~= arrivals.map_values(|inv: Invocation| spec_dispatched(inv)));
}

/// A response stream reaches the caller exactly as the handler produced it:
/// whatever `forward_element` actually returned for each element, the
/// observed stream is the produced stream itself — same elements, same
/// order, nothing dropped, added or reordered; in particular a mid-stream
/// error element leaves the elements after it in place.
pub proof fn lemma_stream_delivered_unchanged(
    produced: Seq<Result<MessagePack, Status>>,
    observed: Seq<Result<MessagePack, Status>>,
)
    requires
        produced.len() == observed.len(),
        forall|i: int|
            0 <= i < produced.len() ==> call_ensures(
                forward_element,
                (produced[i],),
                observed[i],
            ),
    ensures
        observed == produced,
{
    assert(observed =~= produced);
}

} // verus!
