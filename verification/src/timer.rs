//! Countdown timers, in microseconds.

use vstd::prelude::*;
use crate::fixed::SCALE;

verus! {

/// What is left of a countdown after `elapsed`: never below zero.
pub open spec fn decayed_spec(timer: u64, elapsed: u64) -> u64 {
    if timer > elapsed {
        (timer - elapsed) as u64
    } else {
        0
    }
}

/// The part `elapsed / total` as a fixed-point scalar, rounded down, for
/// `elapsed <= total`.
pub open spec fn progress_spec(elapsed: u64, total: u64) -> i64 {
    ((elapsed * SCALE) / (total as int)) as i64
}

/// Runs a countdown for `elapsed`, stopping at zero.
#[verifier::when_used_as_spec(decayed_spec)]
pub fn decayed(timer: u64, elapsed: u64) -> (r: u64)
    ensures
        r == decayed_spec(timer, elapsed),
        r as int == if timer as int - elapsed as int > 0 {
            timer as int - elapsed as int
        } else {
            0
        },
        r <= timer,
{
    if timer > elapsed {
        timer - elapsed
    } else {
        0
    }
}

/// How far a span of `total` has run after `elapsed`, from 0 to `SCALE`.
#[verifier::when_used_as_spec(progress_spec)]
pub fn progress(elapsed: u64, total: u64) -> (r: i64)
    requires
        0 < total,
        elapsed <= total,
    ensures
        r == progress_spec(elapsed, total),
        0 <= r <= SCALE,
{
    let wide: u128 = (elapsed as u128) * 1_000_000;
    assert(wide == elapsed * SCALE);
    let q: u128 = wide / (total as u128);
    assert(q <= 1_000_000) by {
        vstd::arithmetic::div_mod::lemma_div_is_ordered(
            wide as int,
            total as int * 1_000_000,
            total as int,
        );
        vstd::arithmetic::div_mod::lemma_div_multiples_vanish(1_000_000, total as int);
        assert(total as int * 1_000_000 == 1_000_000 * total as int);
    }
    q as i64
}

} // verus!
