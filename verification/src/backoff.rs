//! Capped exponential backoff for acquiring a broker connection.
//!
//! The connector retries forever: infrastructure is expected to recover, so
//! failure to connect is never surfaced to the caller. Between attempts it
//! sleeps for a delay that starts at one time unit, doubles after each failed
//! attempt, and is capped at 300 time units.

use vstd::prelude::*;

verus! {

/// The delay, in time units, slept after the `n`-th failed attempt
/// (counting from 0): 1, 2, 4, ... doubling, capped at 300.
pub open spec fn spec_delay_after(n: nat) -> nat
    decreases n,
{
    if n == 0 {
        1
    } else {
        let doubled = 2 * spec_delay_after((n - 1) as nat);
        if doubled > 300 {
            300
        } else {
            doubled
        }
    }
}

/// Every delay lies between the initial 1 and the cap 300, and the very
/// first delay is exactly 1.
pub proof fn lemma_backoff_bounds(n: nat)
    ensures
        1 <= spec_delay_after(n) <= 300,
        spec_delay_after(0) == 1,
    decreases n,
{
    if n > 0 {
        lemma_backoff_bounds((n - 1) as nat);
    }
}

/// The delay sequence never decreases: waiting only ever gets longer, up to
/// the cap.
pub proof fn lemma_backoff_nondecreasing(m: nat, n: nat)
    requires
        m <= n,
    ensures
        spec_delay_after(m) <= spec_delay_after(n),
    decreases n,
{
    if m < n {
        lemma_backoff_nondecreasing(m, (n - 1) as nat);
        lemma_backoff_bounds((n - 1) as nat);
    }
}

/// Below the cap the growth is strict: every failed attempt waits longer
/// than the one before, until the delay reaches 300 and stays there.
pub proof fn lemma_backoff_strictly_grows_below_cap(n: nat)
    requires
        spec_delay_after(n) < 300,
    ensures
        spec_delay_after(n + 1) > spec_delay_after(n),
{
    lemma_backoff_bounds(n);
}

/// Backoff state of the connector: the delay to sleep before the next retry.
/// The ghost attempt counter ties the live delay to the specified sequence.
pub struct Backoff {
    pub delay: u64,
    pub attempts: Ghost<nat>,
}

impl Backoff {
    /// The held delay is exactly the specified one for the attempts seen.
    pub open spec fn wf(self) -> bool {
        self.delay == spec_delay_after(self.attempts@)
    }

    /// Backoff before any attempt has failed: the first sleep is one unit.
    pub fn new() -> (r: Backoff)
        ensures
            r.wf(),
            r.attempts@ == 0,
            r.delay == 1,
    {
        Backoff { delay: 1, attempts: Ghost(0) }
    }

    /// The delay to sleep before the next attempt.
    pub fn current_delay(&self) -> (d: u64)
        ensures
            d == self.delay,
    {
        self.delay
    }

    /// Record one more failed attempt: returns the delay to sleep now, and
    /// doubles the stored delay, capped at 300 units. There is no failure
    /// path and no attempt limit: the connector never gives up.
    pub fn next_delay(&mut self) -> (d: u64)
        requires
            old(self).wf(),
        ensures
            d == old(self).delay,
            final(self).wf(),
            final(self).attempts@ == old(self).attempts@ + 1,
            final(self).delay == if 2 * old(self).delay > 300 { 300u64 } else { (2 * old(self).delay) as u64 },
    {
        proof {
            lemma_backoff_bounds(self.attempts@);
        }
        let d = self.delay;
        let doubled = d * 2;
        self.delay = if doubled > 300 { 300 } else { doubled };
        self.attempts = Ghost(self.attempts@ + 1);
        d
    }
}

} // verus!
