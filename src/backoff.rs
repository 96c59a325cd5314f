use vstd::prelude::*;

verus! {

pub open spec fn pow2(k: nat) -> nat
    decreases k,
{
    if k == 0 { 1 } else { 2 * pow2((k - 1) as nat) }
}

/// Delay before reconnect attempt `k` (counted from zero):
/// `min(base · 2^k, max)`.
pub open spec fn delay_of(base: nat, max: nat, k: nat) -> nat {
    let d = base * pow2(k);
    if d <= max { d } else { max }
}

/// Bounded exponential backoff between reconnect attempts.
#[derive(Clone, Copy, Debug)]
pub struct Backoff {
    /// Delay before the first attempt, in milliseconds.
    pub base_delay_ms: u64,
    /// Cap on any delay, in milliseconds.
    pub max_delay_ms: u64,
    /// Number of attempts before giving up.
    pub max_attempts: u32,
}

impl Backoff {
    /// One second, doubling, capped at thirty seconds, six attempts.
    pub fn recommended() -> (r: Backoff)
        ensures
            r.base_delay_ms == 1000,
            r.max_delay_ms == 30000,
            r.max_attempts == 6,
    {
        Backoff { base_delay_ms: 1000, max_delay_ms: 30000, max_attempts: 6 }
    }

    /// Delay before attempt `k`, in milliseconds.
    pub fn delay_ms(&self, k: u32) -> (r: u64)
        ensures
            r == delay_of(self.base_delay_ms as nat, self.max_delay_ms as nat, k as nat),
    {
        let max = self.max_delay_ms;
        let base = self.base_delay_ms;
        let mut d: u64 = if base <= max { base } else { max };
        let mut i: u32 = 0;
        proof {
            assert(pow2(0) == 1);
            assert(base as nat * pow2(0) == base as nat);
        }
        while i < k
            invariant
                i <= k,
                d == delay_of(base as nat, max as nat, i as nat),
                d <= max,
            decreases k - i,
        {
            proof {
                let x = base as nat * pow2(i as nat);
                assert(base as nat * pow2((i + 1) as nat) == 2 * x) by (nonlinear_arith)
                    requires
                        pow2((i + 1) as nat) == 2 * pow2(i as nat),
                        x == base as nat * pow2(i as nat),
                ;
            }
            if d >= max - d {
                d = max;
            } else {
                d = d * 2;
            }
            i = i + 1;
        }
        d
    }
}

} // verus!
