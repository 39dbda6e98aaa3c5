//! Exponential-backoff retry policy for connection attempts.
//!
//! The policy is a pure function from the attempt number to a delay in
//! milliseconds; the caller owns the loop that sleeps and retries.

use vstd::prelude::*;

verus! {

/// Backoff policy: up to `max_attempts` tries, with delays growing from
/// `initial_delay_ms` by `multiplier` each attempt, capped at
/// `max_delay_ms`.
#[derive(Clone, Copy, Debug)]
pub struct RetryConfig {
    pub max_attempts: u32,
    pub initial_delay_ms: u64,
    pub max_delay_ms: u64,
    pub multiplier: u32,
}

impl Default for RetryConfig {
    /// Four attempts: immediate, then one, two and four seconds of backoff
    /// under an eight-second cap.
    fn default() -> (r: Self)
        ensures
            r.max_attempts == 4,
            r.initial_delay_ms == 1000,
            r.max_delay_ms == 8000,
            r.multiplier == 2,
    {
        RetryConfig { max_attempts: 4, initial_delay_ms: 1000, max_delay_ms: 8000, multiplier: 2 }
    }
}

/// Uncapped backoff before retry `k` counted from the first delayed attempt:
/// the initial delay multiplied `k` times.
pub open spec fn spec_raw_delay(initial: u64, multiplier: u32, k: nat) -> int
    decreases k,
{
    if k == 0 {
        initial as int
    } else {
        spec_raw_delay(initial, multiplier, (k - 1) as nat) * multiplier
    }
}

/// The uncapped backoff is never negative.
pub proof fn lemma_raw_delay_nonneg(initial: u64, multiplier: u32, k: nat)
    ensures
        spec_raw_delay(initial, multiplier, k) >= 0,
    decreases k,
{
    if k > 0 {
        lemma_raw_delay_nonneg(initial, multiplier, (k - 1) as nat);
        assert(spec_raw_delay(initial, multiplier, (k - 1) as nat) * multiplier >= 0) by (nonlinear_arith)
            requires
                spec_raw_delay(initial, multiplier, (k - 1) as nat) >= 0,
                multiplier >= 0,
        ;
    }
}

/// The uncapped backoff as a 64-bit counter would hold it: saturated at the
/// counter's maximum.
pub open spec fn spec_saturated_raw_delay(initial: u64, multiplier: u32, k: nat) -> int {
    if spec_raw_delay(initial, multiplier, k) <= u64::MAX {
        spec_raw_delay(initial, multiplier, k)
    } else {
        u64::MAX as int
    }
}

/// Delay before a given attempt (zero-based): the first attempt is
/// immediate, attempt `k > 0` waits `initial * multiplier^(k-1)`
/// milliseconds, capped at the configured maximum.
pub open spec fn spec_delay_for_attempt(c: RetryConfig, attempt: u32) -> int {
    if attempt == 0 {
        0
    } else if spec_raw_delay(c.initial_delay_ms, c.multiplier, (attempt - 1) as nat)
        <= c.max_delay_ms {
        spec_raw_delay(c.initial_delay_ms, c.multiplier, (attempt - 1) as nat)
    } else {
        c.max_delay_ms as int
    }
}

impl RetryConfig {
    /// Backoff delay in milliseconds for attempt `attempt` (zero-based):
    /// zero for the first attempt, then the exponential schedule under the
    /// configured cap.
    pub fn delay_for_attempt(&self, attempt: u32) -> (r: u64)
        ensures
            r == spec_delay_for_attempt(*self, attempt),
    {
        if attempt == 0 {
            return 0;
        }
        let mut d: u64 = self.initial_delay_ms;
        let mut k: u32 = 0;
        while k < attempt - 1
            invariant
                k <= attempt - 1,
                d == spec_saturated_raw_delay(self.initial_delay_ms, self.multiplier, k as nat),
            decreases attempt - 1 - k,
        {
            let ghost raw = spec_raw_delay(self.initial_delay_ms, self.multiplier, k as nat);
            let ghost raw_next = spec_raw_delay(
                self.initial_delay_ms,
                self.multiplier,
                (k + 1) as nat,
            );
            proof {
                lemma_raw_delay_nonneg(self.initial_delay_ms, self.multiplier, k as nat);
                assert(raw_next == raw * self.multiplier);
            }
            d = match d.checked_mul(self.multiplier as u64) {
                Some(p) => {
                    proof {
                        if raw <= u64::MAX {
                            assert(raw_next == p);
                        } else {
                            // d is the saturated maximum and the product still
                            // fits, so the multiplier must be zero or one.
                            assert(d == u64::MAX);
                            if self.multiplier == 0 {
                                assert(raw_next == 0);
                            } else {
                                assert(p == u64::MAX as int * self.multiplier);
                                assert(self.multiplier == 1) by (nonlinear_arith)
                                    requires
                                        u64::MAX as int * self.multiplier <= u64::MAX,
                                        self.multiplier >= 1,
                                ;
                                assert(raw_next == raw * 1);
                                assert(raw_next > u64::MAX);
                            }
                        }
                    }
                    p
                },
                None => {
                    proof {
                        if raw <= u64::MAX {
                            assert(raw_next == raw * self.multiplier);
                            assert(d * self.multiplier > u64::MAX);
                        } else {
                            assert(d == u64::MAX);
                            assert(d * self.multiplier > u64::MAX);
                            assert(self.multiplier >= 2) by (nonlinear_arith)
                                requires
                                    u64::MAX as int * self.multiplier > u64::MAX,
                            ;
                            assert(raw_next >= raw) by (nonlinear_arith)
                                requires
                                    raw >= 0,
                                    self.multiplier >= 1,
                                    raw_next == raw * self.multiplier,
                            ;
                        }
                    }
                    u64::MAX
                },
            };
            k = k + 1;
        }
        if d < self.max_delay_ms {
            d
        } else {
            self.max_delay_ms
        }
    }
}

/// Outcome of a retried operation: success with its value, or failure with
/// the attempt count and the last error.
#[derive(Debug)]
pub enum RetryResult<T, E> {
    Success(T),
    Failed { attempts: u32, last_error: E },
}

} // verus!
