//! Monotonic millisecond timestamps for key events.
//!
//! Key events carry a time in milliseconds relative to the start of the
//! virtual-keyboard session.  The elapsed time must fit in 32 bits; when it
//! no longer does (or the clock reading runs backwards past the base), the
//! base is reset to the current reading and the elapsed time restarts at 0
//! (an epoch reset).  Ordering is not guaranteed across a reset boundary.

use vstd::prelude::*;

verus! {

/// Produces millisecond timestamps relative to a base instant, with
/// wraparound recovery.  The caller supplies clock readings in milliseconds;
/// the source only decides what timestamp each reading yields.
#[derive(Debug)]
pub struct TimeSource {
    base_ms: u64,
}

impl TimeSource {
    /// The clock reading that counts as the start of the current epoch.
    pub closed spec fn base(&self) -> u64 {
        self.base_ms
    }

    /// Whether the reading `now_ms` falls inside the current epoch: it is
    /// not before the base, and its distance from the base fits in 32 bits.
    pub open spec fn in_epoch(self, now_ms: u64) -> bool {
        self.base() <= now_ms && now_ms - self.base() <= u32::MAX
    }

    /// The timestamp that the reading `now_ms` yields: the distance from the
    /// base inside the epoch, and 0 at an epoch reset.
    pub open spec fn spec_elapsed(self, now_ms: u64) -> u32 {
        if self.in_epoch(now_ms) {
            (now_ms - self.base()) as u32
        } else {
            0
        }
    }

    /// The base after the reading `now_ms` was handed out: unchanged inside
    /// the epoch, moved to `now_ms` at an epoch reset.
    pub open spec fn spec_base_after(self, now_ms: u64) -> u64 {
        if self.in_epoch(now_ms) {
            self.base()
        } else {
            now_ms
        }
    }

    /// Creates a time source whose epoch starts at the reading `now_ms`.
    pub fn new(now_ms: u64) -> (t: Self)
        ensures
            t.base() == now_ms,
    {
        TimeSource { base_ms: now_ms }
    }

    /// Returns the milliseconds elapsed since the base.  When the true
    /// elapsed duration does not fit in 32 bits, the base is reset to
    /// `now_ms` and 0 is returned for this call (documented precision loss,
    /// not an error).
    pub fn elapsed_ms(&mut self, now_ms: u64) -> (e: u32)
        ensures
            e == old(self).spec_elapsed(now_ms),
            final(self).base() == old(self).spec_base_after(now_ms),
    {
        if now_ms >= self.base_ms && now_ms - self.base_ms <= u32::MAX as u64 {
            (now_ms - self.base_ms) as u32
        } else {
            self.base_ms = now_ms;
            0
        }
    }
}

/// Timestamps are non-decreasing across readings made without an
/// intervening epoch reset: two readings inside one epoch yield timestamps
/// in the readings' own order.
pub proof fn lemma_timestamps_nondecreasing(t: TimeSource, now1: u64, now2: u64)
    requires
        t.in_epoch(now1),
        t.in_epoch(now2),
        now1 <= now2,
    ensures
        t.spec_elapsed(now1) <= t.spec_elapsed(now2),
{
}

/// A reading that forces an epoch reset yields timestamp 0, and the reading
/// itself becomes the new base, so a repeat of the same reading right after
/// the reset also yields 0.
pub proof fn lemma_reset_restarts_at_zero(t: TimeSource, now: u64)
    requires
        !t.in_epoch(now),
    ensures
        t.spec_elapsed(now) == 0,
        forall|t2: TimeSource|
            t2.base() == t.spec_base_after(now) ==> #[trigger] t2.spec_elapsed(now) == 0,
{
}

} // verus!
