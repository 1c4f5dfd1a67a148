//! The doubling wait schedule of the backed-off acquisition strategy.

use vstd::arithmetic::power2::lemma2_to64;
use vstd::arithmetic::power2::lemma_pow2_pos;
use vstd::arithmetic::power2::lemma_pow2_strictly_increases;
use vstd::arithmetic::power2::lemma_pow2_unfold;
use vstd::arithmetic::power2::pow2;
use vstd::prelude::*;

verus! {

/// The exponential backoff schedule: a wait of 1 ms before the first retry,
/// doubling after every failed attempt (1 ms, 2 ms, 4 ms, ...), with no
/// upper cap.
///
/// The schedule only decides how long to wait; the sleeping itself is a
/// scheduling action and is left to the caller that runs the retry loop.
pub struct Backoff {
    delay_ms: u64,
    taken: Ghost<nat>,
}

impl Backoff {
    /// The wait, in milliseconds, before the next retry.
    pub closed spec fn next_delay(&self) -> u64 {
        self.delay_ms
    }

    /// How many intervals the schedule has handed out so far.
    pub closed spec fn attempts(&self) -> nat {
        self.taken@
    }

    /// The schedule is exponential: the wait before retry `n` is `2^n` ms.
    pub open spec fn wf(&self) -> bool {
        self.next_delay() == pow2(self.attempts())
    }

    /// A fresh schedule: the first wait interval is one millisecond.
    pub fn new() -> (b: Self)
        ensures
            b.wf(),
            b.attempts() == 0,
            b.next_delay() == 1,
    {
        proof {
            lemma2_to64();
        }
        Backoff { delay_ms: 1, taken: Ghost(0) }
    }

    /// Hands out the next wait interval and doubles the one after it.
    ///
    /// The schedule is uncapped, so the doubling must still fit in the
    /// counter; a caller that has failed often enough to exhaust it has no
    /// next interval to ask for.
    pub fn step(&mut self) -> (d: u64)
        requires
            old(self).wf(),
            old(self).next_delay() <= u64::MAX / 2,
        ensures
            final(self).wf(),
            d == old(self).next_delay(),
            d == pow2(old(self).attempts()),
            final(self).next_delay() == 2 * old(self).next_delay(),
            final(self).attempts() == old(self).attempts() + 1,
    {
        let d: u64 = self.delay_ms;
        self.delay_ms = 2 * self.delay_ms;
        proof {
            self.taken@ = self.taken@ + 1;
            lemma_pow2_unfold(self.taken@);
        }
        d
    }

    /// The wait, in milliseconds, before the next retry.
    pub fn current_delay(&self) -> (d: u64)
        ensures
            d == self.next_delay(),
    {
        self.delay_ms
    }
}

/// The backoff schedule's growth: the first wait interval is exactly one
/// millisecond, every interval is at least that long, and each interval is
/// strictly longer than the one before it — so any contended acquisition
/// waits at least the first interval before it can retry.
pub proof fn lemma_backoff_schedule(n: nat)
    ensures
        pow2(0) == 1,
        pow2(n) >= 1,
        n > 0 ==> pow2(n) > pow2((n - 1) as nat),
{
    lemma2_to64();
    lemma_pow2_pos(n);
    if n > 0 {
        lemma_pow2_strictly_increases((n - 1) as nat, n);
    }
}

} // verus!
