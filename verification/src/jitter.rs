//! Randomized sleep durations: a base interval stretched by a uniformly
//! drawn jitter factor and rounded to the nearest microsecond.

use vstd::prelude::*;
use vstd::arithmetic::div_mod::lemma_div_is_ordered;
use vstd::arithmetic::div_mod::lemma_div_multiples_vanish_fancy;
use vstd::arithmetic::div_mod::lemma_fundamental_div_mod;
use vstd::arithmetic::mul::lemma_mul_inequality;
use rand::Rng;
use crate::settings::MAX_INTERVAL_MICROS;

verus! {

/// The sleep duration for a base interval of `base` microseconds and a
/// jitter draw of `draw` thousandths: `base * (1 + draw/1000)`, rounded to
/// the nearest microsecond.
pub open spec fn jittered_spec(base: u64, draw: int) -> int {
    (base * (1000 + draw) + 500) / 1000
}

/// Relies on rand's `Rng::gen_range` on `thread_rng`: over a non-empty
/// inclusive range `low..=high` it returns a value in `[low, high]` and
/// does not panic.
#[verifier::external_body]
pub(crate) fn draw_permille(bound: u64) -> (r: i64)
    requires
        bound <= 999,
    ensures
        -(bound as int) <= r <= bound as int,
{
    let b = bound as i64;
    rand::thread_rng().gen_range(-b..=b)
}

/// Stretches `base` microseconds by `draw` thousandths, rounding to the
/// nearest microsecond.
pub fn jittered_micros(base: u64, draw: i64) -> (r: u64)
    requires
        -999 <= draw <= 999,
        base <= MAX_INTERVAL_MICROS,
    ensures
        r == jittered_spec(base, draw as int),
{
    let factor: u128 = (1000i64 + draw) as u128;
    proof {
        assert(1 <= factor <= 1999);
        lemma_mul_inequality(factor as int, 1999, base as int);
        lemma_mul_inequality(base as int, MAX_INTERVAL_MICROS as int, 1999);
        assert((base as int) * (factor as int) <= MAX_INTERVAL_MICROS as int * 1999);
    }
    let sum: u128 = (base as u128) * factor + 500;
    let q: u128 = sum / 1000;
    proof {
        lemma_div_is_ordered(
            sum as int,
            MAX_INTERVAL_MICROS as int * 1999 + 500,
            1000,
        );
        assert(q <= u64::MAX);
    }
    q as u64
}

/// Every jitter draw within the configured bound yields a duration between
/// the durations of the two extreme draws, and within half a microsecond of
/// the ideal interval `base * (1000 +/- jitter) / 1000`; with no jitter the
/// duration is exactly the base interval.
pub proof fn lemma_jitter_within_bounds(base: u64, jitter: u64, draw: int)
    requires
        jitter < 1000,
        -(jitter as int) <= draw <= jitter as int,
    ensures
        jittered_spec(base, -(jitter as int)) <= jittered_spec(base, draw),
        jittered_spec(base, draw) <= jittered_spec(base, jitter as int),
        1000 * jittered_spec(base, draw) <= base * (1000 + jitter) + 500,
        1000 * jittered_spec(base, draw) + 500 >= base * (1000 - jitter),
        jitter == 0 ==> jittered_spec(base, draw) == base,
{
    let b = base as int;
    let j = jitter as int;
    let nlo = b * (1000 - j);
    let n = b * (1000 + draw);
    let nhi = b * (1000 + j);
    lemma_mul_inequality(1000 - j, 1000 + draw, b);
    lemma_mul_inequality(1000 + draw, 1000 + j, b);
    lemma_div_is_ordered(nlo + 500, n + 500, 1000);
    lemma_div_is_ordered(n + 500, nhi + 500, 1000);
    lemma_fundamental_div_mod(n + 500, 1000);
    if jitter == 0 {
        lemma_div_multiples_vanish_fancy(b, 500, 1000);
    }
}

} // verus!
