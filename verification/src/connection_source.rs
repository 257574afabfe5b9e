//! The connection source: a lazy sequence of connections that looks
//! unbounded to the RPC engine — it never signals an end and never errors —
//! but in practice yields exactly one item, the stdio-backed connection
//! granted once by the parent process, and after that never resolves again.

use vstd::prelude::*;

verus! {

/// The model of one poll of the source: what it yields and the state it
/// leaves behind.
pub open spec fn polled<C>(pending: Option<C>) -> (Option<C>, Option<C>) {
    (pending, None)
}

/// Once drained, a source stays drained: whatever the first poll yielded,
/// every later poll yields nothing, so at most one connection ever comes
/// out.
pub proof fn lemma_yields_at_most_once<C>(pending: Option<C>)
    ensures
        polled(polled::<C>(pending).1).0 is None,
{
}

/// Hands out its single connection on the first poll and nothing ever
/// after, simulating an ever-listening acceptor over a pipe pair granted
/// exactly once.
pub struct ConnectionSource<C> {
    conn: Option<C>,
}

impl<C> ConnectionSource<C> {
    /// The connection not yet handed out, if any.
    pub closed spec fn pending(self) -> Option<C> {
        self.conn
    }

    /// A fresh source holding the one connection of the process's lifetime.
    pub fn new(conn: C) -> (s: ConnectionSource<C>)
        ensures
            s.pending() == Some(conn),
    {
        ConnectionSource { conn: Some(conn) }
    }

    /// One poll of the source. The caller that adapts this into the engine's
    /// lazy sequence must treat `None` as "not ready yet, forever", never as
    /// the end of the sequence.
    pub fn poll_next(&mut self) -> (r: Option<C>)
        ensures
            (r, final(self).pending()) == polled(old(self).pending()),
    {
        self.conn.take()
    }
}

} // verus!
