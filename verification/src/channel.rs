//! The single-slot coalescing mailbox between the request handler and the
//! LED task.
//!
//! Exactly one producer publishes the latest requested color and exactly
//! one consumer takes it.  A publish overwrites any value that has not
//! been consumed yet: when updates outrun the consumer, only the most
//! recent color matters, so intermediate values are dropped by design.
//! The type is a plain value; the surrounding application decides how the
//! consumer suspends until a value is pending (a mutex and a condition
//! variable, an atomic slot with a wake signal, and so on).

use vstd::prelude::*;
use crate::color::RGB;

verus! {

/// A mailbox holding at most one pending, not yet consumed color.
#[derive(Clone, Copy, PartialEq, Eq, Structural, Debug)]
pub struct ColorUpdateChannel {
    /// The most recently published color, if the consumer has not taken
    /// it yet.
    pub pending: Option<RGB>,
}

impl ColorUpdateChannel {
    /// The channel state after a publish: the new color stands in the
    /// slot, whatever stood there before is gone.
    pub open spec fn spec_publish(self, color: RGB) -> ColorUpdateChannel {
        ColorUpdateChannel { pending: Some(color) }
    }

    /// What a take yields and leaves behind: the pending color (if any)
    /// comes out and the slot is empty afterwards.
    pub open spec fn spec_take(self) -> (Option<RGB>, ColorUpdateChannel) {
        (self.pending, ColorUpdateChannel { pending: None })
    }

    /// A fresh channel with nothing pending.
    pub fn new() -> (ch: Self)
        ensures
            ch.pending is None,
    {
        ColorUpdateChannel { pending: None }
    }

    /// Publish a color: non-blocking, always succeeds, overwrites any
    /// previously published but unconsumed value.
    pub fn publish(&mut self, color: RGB)
        ensures
            *final(self) == old(self).spec_publish(color),
    {
        self.pending = Some(color);
    }

    /// Take the pending color, if one has been published since the last
    /// take; the slot is empty afterwards.  The consumer task calls this
    /// after its wake-up signal fires.
    pub fn try_take(&mut self) -> (taken: Option<RGB>)
        ensures
            taken == old(self).spec_take().0,
            *final(self) == old(self).spec_take().1,
    {
        let taken = self.pending;
        self.pending = None;
        taken
    }
}

/// Coalescing law: when two colors are published before the consumer
/// runs, a single take yields exactly the later one, and nothing is left
/// for a second take — the earlier color is dropped.
pub proof fn lemma_publish_coalesces(ch: ColorUpdateChannel, first: RGB, second: RGB)
    ensures
        ch.spec_publish(first).spec_publish(second).spec_take().0 == Some(second),
        ch.spec_publish(first).spec_publish(second).spec_take().1.spec_take().0 is None,
{
}

/// Idempotence law: publishing the same color twice in a row delivers it
/// to the single consumer exactly once — one take yields the color, a
/// second take yields nothing.
pub proof fn lemma_publish_idempotent(ch: ColorUpdateChannel, color: RGB)
    ensures
        ch.spec_publish(color).spec_publish(color) == ch.spec_publish(color),
        ch.spec_publish(color).spec_take().0 == Some(color),
        ch.spec_publish(color).spec_take().1.spec_take().0 is None,
{
}

} // verus!
