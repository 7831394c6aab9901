use vstd::prelude::*;

verus! {

/// Delay, in milliseconds, that a backoff made by `with_max` hands out first.
pub const DEFAULT_INITIAL_INTERVAL_MS: u64 = 1000;

/// A source of retry delays that doubles after every use, up to a maximum.
pub struct RetryBackoff {
    initial_ms: u64,
    max_ms: u64,
    current_ms: u64,
}

/// The smaller of two numbers.
pub open spec fn min_nat(a: nat, b: nat) -> nat {
    if a <= b { a } else { b }
}

/// The delay handed out after `n` earlier delays since the last reset: the first delay is
/// `initial` (capped at `max`) and each later one doubles its predecessor, capped at `max`.
pub open spec fn backoff_delay(initial: nat, max: nat, n: nat) -> nat
    decreases n,
{
    if n == 0 {
        min_nat(initial, max)
    } else {
        min_nat(2 * backoff_delay(initial, max, (n - 1) as nat), max)
    }
}

impl RetryBackoff {
    /// The configured first delay.
    pub closed spec fn initial(&self) -> nat {
        self.initial_ms as nat
    }

    /// The configured cap.
    pub closed spec fn max(&self) -> nat {
        self.max_ms as nat
    }

    /// The delay that the next call of `next_backoff` hands out.
    pub closed spec fn upcoming(&self) -> nat {
        self.current_ms as nat
    }

    pub closed spec fn wf(&self) -> bool {
        self.current_ms <= self.max_ms
    }

    /// Creates a backoff that starts at `initial_ms` and never exceeds `max_ms`.
    pub fn new(initial_ms: u64, max_ms: u64) -> (r: Self)
        ensures
            r.wf(),
            r.initial() == initial_ms,
            r.max() == max_ms,
            r.upcoming() == backoff_delay(initial_ms as nat, max_ms as nat, 0),
    {
        let first = if initial_ms <= max_ms { initial_ms } else { max_ms };
        RetryBackoff { initial_ms, max_ms, current_ms: first }
    }

    /// Creates a backoff with the default first delay and the given cap.
    pub fn with_max(max_ms: u64) -> (r: Self)
        ensures
            r.wf(),
            r.initial() == DEFAULT_INITIAL_INTERVAL_MS,
            r.max() == max_ms,
            r.upcoming() == backoff_delay(DEFAULT_INITIAL_INTERVAL_MS as nat, max_ms as nat, 0),
    {
        Self::new(DEFAULT_INITIAL_INTERVAL_MS, max_ms)
    }

    /// Returns the sequence to its start: the next delay is the initial one again.
    pub fn reset(&mut self)
        requires
            old(self).wf(),
        ensures
            final(self).wf(),
            final(self).initial() == old(self).initial(),
            final(self).max() == old(self).max(),
            final(self).upcoming() == backoff_delay(old(self).initial(), old(self).max(), 0),
    {
        self.current_ms = if self.initial_ms <= self.max_ms { self.initial_ms } else { self.max_ms };
    }

    /// Hands out the next delay, in milliseconds, and doubles the one after it up to the cap.
    pub fn next_backoff(&mut self) -> (r: u64)
        requires
            old(self).wf(),
        ensures
            final(self).wf(),
            r == old(self).upcoming(),
            final(self).initial() == old(self).initial(),
            final(self).max() == old(self).max(),
            final(self).upcoming() == min_nat(2 * (r as nat), old(self).max()),
    {
        let r = self.current_ms;
        self.current_ms = if r <= self.max_ms / 2 { 2 * r } else { self.max_ms };
        r
    }
}

/// Each delay of the sequence is at most the cap, and no delay is smaller than the one before.
pub proof fn lemma_backoff_monotonic(initial: nat, max: nat, n: nat)
    ensures
        backoff_delay(initial, max, n) <= max,
        backoff_delay(initial, max, n) <= backoff_delay(initial, max, n + 1),
    decreases n,
{
    if n > 0 {
        lemma_backoff_monotonic(initial, max, (n - 1) as nat);
    }
}

/// Walking a backoff: after `reset` and `n` calls of `next_backoff`, the delays handed out are
/// `backoff_delay(initial, max, 0)`, `backoff_delay(initial, max, 1)`, ... in this order.
pub proof fn lemma_backoff_step(b: RetryBackoff, n: nat)
    requires
        b.wf(),
        b.upcoming() == backoff_delay(b.initial(), b.max(), n),
    ensures
        min_nat(2 * b.upcoming(), b.max()) == backoff_delay(b.initial(), b.max(), n + 1),
        b.upcoming() <= min_nat(2 * b.upcoming(), b.max()),
{
}

} // verus!
