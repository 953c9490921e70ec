//! Delayed exponential retry, used only to reopen the control connection
//! after the runner reboots.
//!
//! The schedule sleeps before every attempt: the wait before attempt `i`
//! (counting from zero) is `2^i` times the base delay, so `k` attempts wait
//! `d, 2d, 4d, ...` and in total `d * (2^k - 1)`. No other operation is
//! ever retried.

use vstd::arithmetic::mul::lemma_mul_inequality;
use vstd::arithmetic::power2::{lemma_pow2_strictly_increases, lemma_pow2_unfold, pow2};
use vstd::prelude::*;

verus! {

/// The wait, in the schedule's unit, before 0-based attempt `i`.
pub open spec fn spec_retry_delay(base: nat, i: nat) -> nat {
    pow2(i) * base
}

/// The total wait before the first `k` attempts have all been made.
pub open spec fn spec_total_wait(base: nat, k: nat) -> nat
    decreases k,
{
    if k == 0 {
        0
    } else {
        spec_total_wait(base, (k - 1) as nat) + spec_retry_delay(base, (k - 1) as nat)
    }
}

proof fn lemma_pow2_increases(e1: nat, e2: nat)
    requires
        e1 <= e2,
    ensures
        pow2(e1) <= pow2(e2),
{
    if e1 < e2 {
        lemma_pow2_strictly_increases(e1, e2);
    }
}

/// A later attempt never waits less than an earlier one.
pub proof fn lemma_retry_delay_increases(base: nat, i: nat, j: nat)
    requires
        i <= j,
    ensures
        spec_retry_delay(base, i) <= spec_retry_delay(base, j),
{
    lemma_pow2_increases(i, j);
    lemma_mul_inequality(pow2(i) as int, pow2(j) as int, base as int);
}

/// The retry schedule in closed form: `k` attempts with base `d` wait
/// `d, 2d, 4d, ...` and in total exactly `d * (2^k - 1)`.
pub proof fn lemma_total_wait_closed_form(base: nat, k: nat)
    ensures
        spec_total_wait(base, k) == base * (pow2(k) - 1),
    decreases k,
{
    if k == 0 {
        assert(pow2(0) == 1) by {
            vstd::arithmetic::power2::lemma2_to64();
        }
    } else {
        let p = pow2((k - 1) as nat) as int;
        lemma_total_wait_closed_form(base, (k - 1) as nat);
        lemma_pow2_unfold(k);
        assert(pow2(k) == 2 * p);
        assert((base as int) * (p - 1) + p * (base as int) == (base as int) * (2 * p - 1))
            by (nonlinear_arith);
    }
}

/// The reconnect schedule: how many attempts remain and what the next wait
/// is. The caller performs the sleep and the connect; the schedule only
/// hands out the exact waits.
pub struct RetrySchedule {
    /// The base delay, in milliseconds; the wait before the first attempt.
    pub base_ms: u64,
    /// How many attempts are allowed in all.
    pub max_attempts: u32,
    /// How many attempts have been handed out so far.
    pub next_attempt: u32,
}

impl RetrySchedule {
    /// All waits of the schedule fit the machine word.
    pub open spec fn wf(self) -> bool {
        &&& self.next_attempt <= self.max_attempts
        &&& self.max_attempts >= 1
        &&& spec_retry_delay(self.base_ms as nat, (self.max_attempts - 1) as nat) <= u64::MAX
    }

    pub fn new(base_ms: u64, max_attempts: u32) -> (s: Self)
        requires
            max_attempts >= 1,
            spec_retry_delay(base_ms as nat, (max_attempts - 1) as nat) <= u64::MAX,
        ensures
            s.wf(),
            s.base_ms == base_ms,
            s.max_attempts == max_attempts,
            s.next_attempt == 0,
    {
        RetrySchedule { base_ms, max_attempts, next_attempt: 0 }
    }

    /// The recorder's reconnect schedule: a 30 s base delay and four
    /// attempts, waiting 7 m 30 s in all before giving up.
    pub fn recorder_default() -> (s: Self)
        ensures
            s.wf(),
            s.base_ms == 30000,
            s.max_attempts == 4,
            s.next_attempt == 0,
    {
        proof {
            vstd::arithmetic::power2::lemma2_to64();
            assert(spec_retry_delay(30000 as nat, 3 as nat) == 8 * 30000);
        }
        RetrySchedule::new(30000, 4)
    }

    /// Hand out the wait before the next attempt, or `None` once every
    /// attempt has been used up.
    pub fn next_delay_ms(&mut self) -> (d: Option<u64>)
        requires
            old(self).wf(),
        ensures
            final(self).wf(),
            final(self).base_ms == old(self).base_ms,
            final(self).max_attempts == old(self).max_attempts,
            old(self).next_attempt < old(self).max_attempts ==> (d matches Some(ms) && ms as nat
                == spec_retry_delay(old(self).base_ms as nat, old(self).next_attempt as nat)
                && final(self).next_attempt == old(self).next_attempt + 1),
            old(self).next_attempt >= old(self).max_attempts ==> d is None
                && final(self).next_attempt == old(self).next_attempt,
    {
        if self.next_attempt >= self.max_attempts {
            return None;
        }
        let mut delay: u64 = self.base_ms;
        let mut i: u32 = 0;
        proof {
            assert(pow2(0) == 1) by {
                vstd::arithmetic::power2::lemma2_to64();
            }
        }
        while i < self.next_attempt
            invariant
                self.wf(),
                i <= self.next_attempt,
                self.next_attempt < self.max_attempts,
                delay as nat == spec_retry_delay(self.base_ms as nat, i as nat),
            decreases self.next_attempt - i,
        {
            proof {
                lemma_pow2_unfold((i + 1) as nat);
                assert(spec_retry_delay(self.base_ms as nat, (i + 1) as nat) == 2 * (
                delay as nat)) by (nonlinear_arith)
                    requires
                        pow2((i + 1) as nat) == 2 * pow2(i as nat),
                        delay as nat == pow2(i as nat) * (self.base_ms as nat),
                        spec_retry_delay(self.base_ms as nat, (i + 1) as nat) == pow2(
                            (i + 1) as nat,
                        ) * (self.base_ms as nat),
                ;
                lemma_retry_delay_increases(
                    self.base_ms as nat,
                    (i + 1) as nat,
                    (self.max_attempts - 1) as nat,
                );
            }
            delay = delay * 2;
            i = i + 1;
        }
        self.next_attempt = self.next_attempt + 1;
        Some(delay)
    }
}

} // verus!
