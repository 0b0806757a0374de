//! Retrying a failing operation with exponential backoff and full jitter: the decision after
//! each failure and the delay before the next attempt.

use vstd::prelude::*;
use vstd::arithmetic::power2::{lemma_pow2_unfold, pow2};
use crate::clock::random_nanos_below;

verus! {

/// The first backoff, 500 ms, in nanoseconds.
pub const BASE_DELAY_NANOS: u64 = 500_000_000;

/// The longest backoff, 30 s, in nanoseconds.
pub const MAX_DELAY_NANOS: u64 = 30_000_000_000;

/// The backoff before the retry that follows failed attempt number `attempt`:
/// `min(30 s, 500 ms * 2^attempt)`, in nanoseconds.
pub open spec fn backoff_nanos(attempt: nat) -> nat {
    let grown = (BASE_DELAY_NANOS as nat) * pow2(attempt);
    if grown < MAX_DELAY_NANOS {
        grown
    } else {
        MAX_DELAY_NANOS as nat
    }
}

/// What to do after an attempt failed.
#[derive(Debug, PartialEq, Eq, Structural)]
pub enum RetryDecision {
    /// Stop and report the failure: `attempts` attempts have failed.
    GiveUp { attempts: u32 },
    /// Wait up to `backoff_nanos` (a random part of it) and try again; `attempts` have failed.
    Retry { attempts: u32, backoff_nanos: u64 },
}

/// The backoff for `attempt` failed attempts.
pub fn backoff_for(attempt: u32) -> (b: u64)
    ensures
        b == backoff_nanos(attempt as nat),
{
    let mut b: u64 = BASE_DELAY_NANOS;
    let mut i: u32 = 0;
    assert(pow2(0) == 1) by {
        vstd::arithmetic::power2::lemma_pow2(0);
        vstd::arithmetic::power::lemma_pow0(2);
    }
    while i < attempt
        invariant
            i <= attempt,
            b == backoff_nanos(i as nat),
        decreases attempt - i,
    {
        proof {
            lemma_pow2_unfold(i as nat + 1);
        }
        if b >= MAX_DELAY_NANOS / 2 {
            b = MAX_DELAY_NANOS;
        } else {
            b = b * 2;
        }
        i = i + 1;
    }
    b
}

/// The decision after a failed attempt, when `attempts_before` attempts had already failed:
/// give up once `max_attempts` attempts have failed, else retry after the backoff.
/// (`2u32.pow` overflows from 32 failed attempts on, which `requires` leaves out.)
pub fn after_failure(attempts_before: u32, max_attempts: u32) -> (d: RetryDecision)
    requires
        attempts_before == 0 || attempts_before < max_attempts,
        attempts_before + 1 < max_attempts ==> attempts_before + 1 < 32,
    ensures
        attempts_before + 1 >= max_attempts ==> d == (RetryDecision::GiveUp {
            attempts: (attempts_before + 1) as u32,
        }),
        attempts_before + 1 < max_attempts ==> d == (RetryDecision::Retry {
            attempts: (attempts_before + 1) as u32,
            backoff_nanos: backoff_nanos((attempts_before + 1) as nat) as u64,
        }),
{
    let attempts = attempts_before + 1;
    if attempts >= max_attempts {
        RetryDecision::GiveUp { attempts }
    } else {
        RetryDecision::Retry { attempts, backoff_nanos: backoff_for(attempts) }
    }
}

/// The jittered delay before a retry: a random duration below the backoff.
pub fn jittered_delay(backoff_nanos: u64) -> (delay: u64)
    requires
        backoff_nanos > 0,
    ensures
        delay < backoff_nanos,
{
    random_nanos_below(backoff_nanos)
}

/// Backoffs never exceed 30 s and are never zero.
pub proof fn lemma_backoff_bounded(attempt: nat)
    ensures
        0 < backoff_nanos(attempt) <= MAX_DELAY_NANOS,
{
    vstd::arithmetic::power2::lemma_pow2_pos(attempt);
}

/// Backoffs do not shrink from one attempt to the next.
pub proof fn lemma_backoff_monotone(attempt: nat)
    ensures
        backoff_nanos(attempt) <= backoff_nanos(attempt + 1),
{
    lemma_pow2_unfold(attempt + 1);
}

} // verus!
