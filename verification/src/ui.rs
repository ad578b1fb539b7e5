//! The arithmetic behind the seek slider: translating between a playback
//! position and the whole-percent value the slider shows.

use vstd::arithmetic::div_mod::lemma_div_is_ordered;
use vstd::arithmetic::div_mod::lemma_div_multiples_vanish;
use vstd::prelude::*;

verus! {

/// The slider value, in whole percent of the duration, that a playback
/// position corresponds to.
pub fn position_percent(position_ns: u64, duration_ns: u64) -> (r: u64)
    requires
        0 < duration_ns,
        position_ns <= duration_ns,
    ensures
        r == position_ns * 100 / (duration_ns as int),
        r <= 100,
{
    proof {
        lemma_div_is_ordered(
            position_ns as int * 100,
            duration_ns as int * 100,
            duration_ns as int,
        );
        lemma_div_multiples_vanish(100, duration_ns as int);
    }
    let p: u128 = (position_ns as u128) * 100 / (duration_ns as u128);
    p as u64
}

/// The playback position, in nanoseconds, that a slider value in whole
/// percent points at.
pub fn percent_position_ns(percent: u64, duration_ns: u64) -> (r: u64)
    requires
        percent <= 100,
    ensures
        r == percent * duration_ns / 100,
        r <= duration_ns,
{
    proof {
        assert(percent * duration_ns <= 100 * duration_ns) by (nonlinear_arith)
            requires
                percent <= 100,
                duration_ns >= 0,
        ;
        lemma_div_is_ordered(
            percent as int * duration_ns as int,
            100 * duration_ns as int,
            100,
        );
        lemma_div_multiples_vanish(duration_ns as int, 100);
    }
    let p: u128 = (percent as u128) * (duration_ns as u128) / 100;
    p as u64
}

} // verus!
