//! The idle-shutdown supervisor. A countdown of the configured length runs
//! beside the serve loop; when it elapses, the supervisor checks without
//! blocking whether any heartbeat arrived during the window. A silent window
//! means the module is assumed abandoned and the process must end, with
//! success status. A live window drains the queued heartbeats and re-arms
//! the countdown for the next window.
//!
//! Re-arm policy, pinned deliberately: the check recurs every window for the
//! whole life of the process, so the idle guarantee never lapses after the
//! first window.

use vstd::prelude::*;

use crate::channel::queued_count;
use crate::channel::receiver_channel;
use crate::channel::sender_channel;
use crate::channel::signal_channel;
use crate::channel::take_signal;

verus! {

/// What the supervisor decides at the end of one window.
#[derive(Clone, Copy, PartialEq, Eq, Debug)]
pub enum IdleDecision {
    /// No heartbeat arrived in the window: end the process now, with
    /// success status.
    Exit,
    /// At least one heartbeat arrived: keep serving and re-arm the countdown.
    Continue,
}

/// The idle policy: a silent window exits, a live window continues.
pub open spec fn idle_policy(signal_arrived: bool) -> IdleDecision {
    if signal_arrived {
        IdleDecision::Continue
    } else {
        IdleDecision::Exit
    }
}

/// Decides one window from whether any heartbeat arrived during it.
pub fn decide_window(signal_arrived: bool) -> (d: IdleDecision)
    ensures
        d == idle_policy(signal_arrived),
{
    if signal_arrived {
        IdleDecision::Continue
    } else {
        IdleDecision::Exit
    }
}

/// A window with no heartbeat always decides `Exit`, and a window with at
/// least one never does: the first-window keep-alive guarantee.
pub proof fn lemma_first_window_policy()
    ensures
        idle_policy(false) == IdleDecision::Exit,
        idle_policy(true) == IdleDecision::Continue,
{
}

/// Window `i` is where the recurring policy ends the process: every earlier
/// window saw a heartbeat and window `i` saw none.
pub open spec fn exits_at(windows: Seq<bool>, i: int) -> bool {
    &&& 0 <= i < windows.len()
    &&& !windows[i]
    &&& forall|j: int| 0 <= j < i ==> windows[j]
}

/// The exit window of a run is determined: no run exits in two different
/// windows.
pub proof fn lemma_exit_window_unique(windows: Seq<bool>, i: int, j: int)
    requires
        exits_at(windows, i),
        exits_at(windows, j),
    ensures
        i == j,
{
    if i < j {
        assert(windows[i]);
    }
    if j < i {
        assert(windows[j]);
    }
}

/// Runs the recurring policy over a whole schedule of windows, `windows[i]`
/// telling whether any heartbeat arrived during window `i`. Returns the
/// window in which the process exits: the first silent one, or `None` when
/// every window was live and the process outlasts them all.
pub fn exit_window(windows: &Vec<bool>) -> (r: Option<usize>)
    ensures
        match r {
            Some(i) => exits_at(windows@, i as int),
            None => forall|j: int| 0 <= j < windows@.len() ==> windows@[j],
        },
{
    let mut i: usize = 0;
    while i < windows.len()
        invariant
            0 <= i <= windows@.len(),
            forall|j: int| 0 <= j < i ==> windows@[j],
        decreases windows@.len() - i,
    {
        if !windows[i] {
            return Some(i);
        }
        i = i + 1;
    }
    None
}

/// The consuming end of the liveness channel, checked once per window.
pub struct IdleSupervisor {
    rx: tokio::sync::mpsc::UnboundedReceiver<()>,
}

impl IdleSupervisor {
    /// The identity of the liveness queue this supervisor drains.
    pub closed spec fn spec_channel(self) -> int {
        receiver_channel(self.rx)
    }

    /// Builds the supervisor and the sending end that dispatchers will
    /// signal on: the two ends of the one liveness channel, so the returned
    /// supervisor drains exactly the queue the returned sender feeds.
    pub fn new() -> (r: (IdleSupervisor, tokio::sync::mpsc::UnboundedSender<()>))
        ensures
            r.0.spec_channel() == sender_channel(r.1),
    {
        let (tx, rx) = signal_channel();
        (IdleSupervisor { rx }, tx)
    }

    /// The end-of-window check. Takes one queued heartbeat, if any, to learn
    /// whether the window was live; a live window then has the rest of the
    /// queue drained, so the next window starts empty. Returns what was
    /// observed and the decision, which follows the idle policy exactly:
    /// the caller must end the process on `Exit` and re-arm the countdown
    /// on `Continue`. The supervisor stays on its one channel, check after
    /// check.
    pub fn check(&mut self) -> (r: (bool, IdleDecision))
        ensures
            r.1 == idle_policy(r.0),
            final(self).spec_channel() == old(self).spec_channel(),
    {
        let alive = take_signal(&mut self.rx);
        if alive {
            let queued = queued_count(&self.rx);
            let mut drained: usize = 0;
            while drained < queued
                invariant
                    drained <= queued,
                    receiver_channel(self.rx) == old(self).spec_channel(),
                decreases queued - drained,
            {
                let _ = take_signal(&mut self.rx);
                drained = drained + 1;
            }
        }
        (alive, decide_window(alive))
    }
}

} // verus!
