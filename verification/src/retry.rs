//! How long to wait between attempts.

use vstd::arithmetic::power::{lemma_pow1, lemma_pow_adds, lemma_pow_positive, pow};
use vstd::prelude::*;

verus! {

/// The delay before the attempt with number `attempt`, counted from zero: a power of the base,
/// and at most the upper limit.
pub open spec fn backoff(base: nat, max: nat, attempt: nat) -> int {
    if pow(base as int, attempt + 1) <= max {
        pow(base as int, attempt + 1)
    } else {
        max as int
    }
}

/// Takes an item of `tokio_retry::strategy::ExponentialBackoff`, made by `from_millis` with a
/// `max_delay`: the item with number `n` is the base to the power `n + 1`, in milliseconds, or
/// the upper limit where that is less.
#[verifier::external_body]
fn backoff_delay(base: u64, max: u64, attempt: usize) -> (r: u64)
    ensures
        r == backoff(base as nat, max as nat, attempt as nat),
{
    let strategy = tokio_retry::strategy::ExponentialBackoff::from_millis(base);
    let mut limited = strategy.max_delay(std::time::Duration::from_millis(max));
    limited.nth(attempt).unwrap().as_millis() as u64
}

/// The delays, in milliseconds, before each of a number of retries.
pub fn exponential_delays(base: u64, max: u64, retries: usize) -> (r: Vec<u64>)
    ensures
        r@.len() == retries,
        forall|i: int| 0 <= i < retries ==> (#[trigger] r@[i]) == backoff(
            base as nat,
            max as nat,
            i as nat,
        ),
{
    let mut delays: Vec<u64> = Vec::new();
    let mut i: usize = 0;
    while i < retries
        invariant
            i <= retries,
            delays@.len() == i,
            forall|j: int| 0 <= j < i ==> (#[trigger] delays@[j]) == backoff(
                base as nat,
                max as nat,
                j as nat,
            ),
        decreases retries - i,
    {
        delays.push(backoff_delay(base, max, i));
        i = i + 1;
    }
    delays
}

/// No delay is longer than the limit, and no delay is shorter than the one before it.
pub proof fn delays_grow_to_limit(base: nat, max: nat, attempt: nat)
    requires
        base > 0,
    ensures
        backoff(base, max, attempt) <= max,
        backoff(base, max, attempt) <= backoff(base, max, attempt + 1),
{
    lemma_pow_positive(base as int, attempt + 1);
    lemma_pow_adds(base as int, attempt + 1, 1);
    lemma_pow1(base as int);
    let p = pow(base as int, attempt + 1);
    assert(p * base >= p) by (nonlinear_arith)
        requires
            p > 0,
            base > 0,
    ;
}

} // verus!
