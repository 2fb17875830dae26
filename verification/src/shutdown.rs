//! The single-shot shutdown signal.
//!
//! Shutting a node down is edge-triggered and idempotent: the signal
//! channel has capacity one, so the first request arms it and every later
//! request is silently dropped. The runtime's supervisor consumes the
//! signal at most once.

use vstd::prelude::*;

verus! {

/// Model of the capacity-one shutdown channel: either a request is
/// pending or the slot is free.
pub struct ShutdownChannel {
    pending: bool,
}

impl View for ShutdownChannel {
    type V = bool;

    closed spec fn view(&self) -> bool {
        self.pending
    }
}

/// The state of the channel after one shutdown request: armed, whatever
/// it held before.
pub open spec fn after_signal(pending: bool) -> bool {
    true
}

/// The state of the channel after the supervisor consumed the signal:
/// free again.
pub open spec fn after_take(pending: bool) -> bool {
    false
}

impl ShutdownChannel {
    /// A fresh channel with nothing pending.
    pub fn new() -> (c: Self)
        ensures
            !c@,
    {
        ShutdownChannel { pending: false }
    }

    /// Requests shutdown. Returns whether this request armed the channel;
    /// a duplicate request finds it armed already and is dropped.
    pub fn signal(&mut self) -> (first: bool)
        ensures
            final(self)@ == after_signal(old(self)@),
            first == !old(self)@,
    {
        let first = !self.pending;
        self.pending = true;
        first
    }

    /// Consumes a pending request, if any.
    pub fn try_take(&mut self) -> (r: Option<()>)
        ensures
            final(self)@ == after_take(old(self)@),
            r == if old(self)@ {
                Option::Some(())
            } else {
                Option::None::<()>
            },
    {
        if self.pending {
            self.pending = false;
            Some(())
        } else {
            None
        }
    }

    /// Whether a request is pending.
    pub fn is_pending(&self) -> (b: bool)
        ensures
            b == self@,
    {
        self.pending
    }
}

/// Requesting shutdown twice is the same as requesting it once: the
/// second request changes nothing, so a duplicate shutdown cannot corrupt
/// the channel's state.
pub proof fn lemma_shutdown_idempotent(pending: bool)
    ensures
        after_signal(after_signal(pending)) == after_signal(pending),
{
}

} // verus!
