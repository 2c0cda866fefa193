//! The adaptive pacing-delay controller.
//!
//! One mutable control variable, the delay in milliseconds, governs both
//! flush cadence and backoff. A successful flush shrinks it by a fixed step,
//! a failed flush doubles it, and it always stays within
//! [`MIN_DELAY_MS`, `MAX_DELAY_MS`].

use vstd::prelude::*;

verus! {

/// Lower bound on the pacing delay, in milliseconds.
pub const MIN_DELAY_MS: u64 = 50;

/// Upper bound on the pacing delay, in milliseconds.
pub const MAX_DELAY_MS: u64 = 2000;

/// The pacing delay a fresh run starts with, in milliseconds.
pub const INITIAL_DELAY_MS: u64 = 100;

/// How much a successful flush shrinks the delay, in milliseconds.
pub const SUCCESS_STEP_MS: u64 = 10;

/// Outcome of one attempted flush, as reported by the transport.
pub enum FlushOutcome {
    Success,
    Failure,
}

/// A delay that the controller may hold: within the clamping bounds.
pub open spec fn delay_in_bounds(d: int) -> bool {
    MIN_DELAY_MS <= d <= MAX_DELAY_MS
}

/// Delay after one successful flush: shrink by the step, clamped below.
pub open spec fn spec_delay_after_success(d: int) -> int {
    if d - SUCCESS_STEP_MS >= MIN_DELAY_MS {
        d - SUCCESS_STEP_MS
    } else {
        MIN_DELAY_MS as int
    }
}

/// Delay after one failed flush: double, clamped above.
pub open spec fn spec_delay_after_failure(d: int) -> int {
    if 2 * d <= MAX_DELAY_MS {
        2 * d
    } else {
        MAX_DELAY_MS as int
    }
}

/// Delay reached from `d` by one flush with the given outcome.
pub open spec fn spec_next_delay(d: int, outcome: FlushOutcome) -> int {
    match outcome {
        FlushOutcome::Success => spec_delay_after_success(d),
        FlushOutcome::Failure => spec_delay_after_failure(d),
    }
}

/// The two-outcome pacing transition: success shrinks the delay slightly,
/// failure doubles it, both clamped to the legal range.
pub fn next_delay(current: u64, outcome: FlushOutcome) -> (r: u64)
    requires
        delay_in_bounds(current as int),
    ensures
        r as int == spec_next_delay(current as int, outcome),
        delay_in_bounds(r as int),
{
    match outcome {
        FlushOutcome::Success => {
            if current - SUCCESS_STEP_MS >= MIN_DELAY_MS {
                current - SUCCESS_STEP_MS
            } else {
                MIN_DELAY_MS
            }
        },
        FlushOutcome::Failure => {
            if 2 * current <= MAX_DELAY_MS {
                2 * current
            } else {
                MAX_DELAY_MS
            }
        },
    }
}

/// Delay reached from `d0` after `n` consecutive successful flushes.
pub open spec fn spec_delay_after_successes(d0: int, n: nat) -> int
    decreases n,
{
    if n == 0 {
        d0
    } else {
        spec_delay_after_success(spec_delay_after_successes(d0, (n - 1) as nat))
    }
}

/// Delay reached from `d0` after `n` consecutive failed flushes.
pub open spec fn spec_delay_after_failures(d0: int, n: nat) -> int
    decreases n,
{
    if n == 0 {
        d0
    } else {
        spec_delay_after_failure(spec_delay_after_failures(d0, (n - 1) as nat))
    }
}

/// Two to the power `n`.
pub open spec fn pow2(n: nat) -> int
    decreases n,
{
    if n == 0 {
        1
    } else {
        2 * pow2((n - 1) as nat)
    }
}

proof fn lemma_pow2_pos(n: nat)
    ensures
        pow2(n) >= 1,
    decreases n,
{
    if n > 0 {
        lemma_pow2_pos((n - 1) as nat);
    }
}

/// After any number of consecutive successful flushes the delay is the
/// starting delay less the step times the number of successes, clamped
/// below at the minimum delay.
pub proof fn lemma_delay_after_successes(d0: int, n: nat)
    requires
        delay_in_bounds(d0),
    ensures
        spec_delay_after_successes(d0, n) == if d0 - SUCCESS_STEP_MS * n >= MIN_DELAY_MS {
            d0 - SUCCESS_STEP_MS * n
        } else {
            MIN_DELAY_MS as int
        },
        delay_in_bounds(spec_delay_after_successes(d0, n)),
    decreases n,
{
    if n > 0 {
        lemma_delay_after_successes(d0, (n - 1) as nat);
    }
}

/// After any number of consecutive failed flushes the delay is the starting
/// delay doubled that many times, clamped above at the maximum delay.
pub proof fn lemma_delay_after_failures(d0: int, n: nat)
    requires
        delay_in_bounds(d0),
    ensures
        spec_delay_after_failures(d0, n) == if d0 * pow2(n) <= MAX_DELAY_MS {
            d0 * pow2(n)
        } else {
            MAX_DELAY_MS as int
        },
        delay_in_bounds(spec_delay_after_failures(d0, n)),
    decreases n,
{
    if n > 0 {
        let m = (n - 1) as nat;
        lemma_delay_after_failures(d0, m);
        lemma_pow2_pos(m);
        assert(pow2(n) == 2 * pow2(m));
        assert(d0 * pow2(n) == 2 * (d0 * pow2(m))) by (nonlinear_arith)
            requires pow2(n) == 2 * pow2(m);
        assert(d0 * pow2(m) >= d0) by (nonlinear_arith)
            requires d0 >= 0 && pow2(m) >= 1;
    }
}

} // verus!
