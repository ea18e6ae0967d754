//! Serial-number tracking for atomic commits.
//!
//! Every commit request carries a serial, the token the server uses to
//! acknowledge exactly which batch of pending requests became effective.
//! The counter advances by one on each successful commit and wraps on
//! overflow: the protocol defines serial comparison modulo 2^32.

use vstd::prelude::*;

verus! {

/// The serial value that follows `s`, modulo 2^32.
pub open spec fn wrap_inc(s: u32) -> u32 {
    ((s + 1) % 0x1_0000_0000) as u32
}

/// The serial value reached from `s0` after `n` successful commits.
pub open spec fn serial_after(s0: u32, n: nat) -> u32
    decreases n,
{
    if n == 0 {
        s0
    } else {
        wrap_inc(serial_after(s0, (n - 1) as nat))
    }
}

/// An atomically-incrementing counter, one per input-method session, whose
/// current value is attached to every outgoing commit request.
#[derive(Debug)]
pub struct CommitSerialTracker {
    serial: u32,
}

impl CommitSerialTracker {
    /// The serial that the next commit request will carry.
    pub closed spec fn current(&self) -> u32 {
        self.serial
    }

    /// Creates a tracker whose first commit will carry serial 0.
    pub fn new() -> (t: Self)
        ensures
            t.current() == 0,
    {
        CommitSerialTracker { serial: 0 }
    }

    /// Creates a tracker whose first commit will carry the given serial.
    pub fn starting_at(serial: u32) -> (t: Self)
        ensures
            t.current() == serial,
    {
        CommitSerialTracker { serial }
    }

    /// Returns the serial that the next commit request will carry, without
    /// advancing the counter.
    pub fn value(&self) -> (s: u32)
        ensures
            s == self.current(),
    {
        self.serial
    }

    /// Returns the serial to attach to an outgoing commit request, then
    /// advances the counter by one with wrapping (modular) arithmetic.
    pub fn next(&mut self) -> (s: u32)
        ensures
            s == old(self).current(),
            final(self).current() == wrap_inc(old(self).current()),
    {
        let s = self.serial;
        self.serial = if self.serial == u32::MAX {
            0
        } else {
            self.serial + 1
        };
        s
    }
}

/// The tracker value after a run of commit attempts, each recorded as
/// accepted (`true`) or refused (`false`): an accepted attempt advances the
/// serial by exactly one, modulo 2^32, and a refused one leaves it
/// unchanged, exactly as [`crate::IMServiceArc::commit`] promises of each
/// call.
pub open spec fn serial_after_attempts(s0: u32, attempts: Seq<bool>) -> u32
    decreases attempts.len(),
{
    if attempts.len() == 0 {
        s0
    } else {
        let prev = serial_after_attempts(s0, attempts.drop_last());
        if attempts.last() {
            wrap_inc(prev)
        } else {
            prev
        }
    }
}

/// How many attempts of a run were accepted.
pub open spec fn successes(attempts: Seq<bool>) -> nat
    decreases attempts.len(),
{
    if attempts.len() == 0 {
        0
    } else {
        successes(attempts.drop_last()) + if attempts.last() {
            1nat
        } else {
            0nat
        }
    }
}

/// Over any run of commit attempts, only the accepted ones move the serial:
/// the tracker ends at `(s0 + k) mod 2^32` where `k` counts the accepted
/// attempts, however many refused attempts stand between them.
pub proof fn lemma_run_counts_only_successes(s0: u32, attempts: Seq<bool>)
    ensures
        serial_after_attempts(s0, attempts) == serial_after(s0, successes(attempts)),
        serial_after_attempts(s0, attempts) == (s0 + successes(attempts)) % 0x1_0000_0000,
    decreases attempts.len(),
{
    if attempts.len() == 0 {
    } else {
        lemma_run_counts_only_successes(s0, attempts.drop_last());
    }
    lemma_serial_after_mod(s0, successes(attempts));
}

/// The serial attached to the nth successful commit (counting from 1) of a
/// tracker that started at `s0` equals `(s0 + n - 1) mod 2^32`.
pub proof fn lemma_nth_commit_serial(s0: u32, n: nat)
    requires
        n >= 1,
    ensures
        serial_after(s0, (n - 1) as nat) == (s0 + n - 1) % 0x1_0000_0000,
{
    lemma_serial_after_mod(s0, (n - 1) as nat);
}

/// After `n` successful commits from `s0` the tracker holds
/// `(s0 + n) mod 2^32`.
pub proof fn lemma_serial_after_mod(s0: u32, n: nat)
    ensures
        serial_after(s0, n) == (s0 + n) % 0x1_0000_0000,
    decreases n,
{
    let m: int = 0x1_0000_0000;
    if n == 0 {
        assert((s0 as int) % m == s0) by {
            vstd::arithmetic::div_mod::lemma_small_mod(s0 as nat, m as nat);
        }
    } else {
        lemma_serial_after_mod(s0, (n - 1) as nat);
        let prev = (s0 + n - 1) % m;
        assert(0 <= prev < m) by {
            vstd::arithmetic::div_mod::lemma_mod_bound(s0 + n - 1, m);
        }
        assert((prev + 1) % m == (s0 + n) % m) by {
            vstd::arithmetic::div_mod::lemma_add_mod_noop(s0 + n - 1, 1, m);
            vstd::arithmetic::div_mod::lemma_small_mod(1nat, m as nat);
        }
        if prev < m - 1 {
            assert((prev + 1) % m == prev + 1) by {
                vstd::arithmetic::div_mod::lemma_small_mod((prev + 1) as nat, m as nat);
            }
        } else {
            assert((prev + 1) % m == 0) by {
                vstd::arithmetic::div_mod::lemma_mod_self_0(m);
            }
        }
    }
}

} // verus!
