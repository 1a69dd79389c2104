//! Rounding of raw tick positions to the nearest quarter turn.
//!
//! During calibration the operator only places the arm approximately: each
//! joint is assumed to sit within an eighth of a turn of a quarter-turn
//! multiple, so readings are rounded to the nearest multiple of
//! [`QUARTER_TURN`] ticks.  The half-way point rounds away from zero, the
//! magnitude being rounded and the sign reattached; that boundary decides
//! inversion detection, so it is fixed here once for every caller.

use vstd::prelude::*;

verus! {

/// Ticks in a quarter turn of an actuator (4096 ticks per revolution).
pub const QUARTER_TURN: i32 = 1024;

/// Half of [`QUARTER_TURN`]: readings at least this far into an interval
/// round to its upper end.
pub const HALF_QUARTER_TURN: i32 = 512;

/// Nearest quarter-turn multiple of a non-negative tick count, half-way
/// values rounding up.
pub open spec fn round_magnitude(m: int) -> int
    recommends
        m >= 0,
{
    if m % 1024 >= 512 {
        (m / 1024 + 1) * 1024
    } else {
        (m / 1024) * 1024
    }
}

/// Nearest quarter-turn multiple of a tick count, half-way values rounding
/// away from zero: the magnitude is rounded and the sign reattached.
pub open spec fn nearest_quarter(x: int) -> int {
    if x >= 0 {
        round_magnitude(x)
    } else {
        -round_magnitude(-x)
    }
}

/// Round one raw tick position to the nearest quarter-turn multiple.
pub fn nearest_rounded_position(x: i32) -> (r: i32)
    requires
        -(i32::MAX - 512) <= x <= i32::MAX - 512,
    ensures
        r as int == nearest_quarter(x as int),
{
    if x >= 0 {
        let k = x / QUARTER_TURN;
        if x % QUARTER_TURN >= HALF_QUARTER_TURN {
            (k + 1) * QUARTER_TURN
        } else {
            k * QUARTER_TURN
        }
    } else {
        let m = -x;
        let k = m / QUARTER_TURN;
        if m % QUARTER_TURN >= HALF_QUARTER_TURN {
            -((k + 1) * QUARTER_TURN)
        } else {
            -(k * QUARTER_TURN)
        }
    }
}

/// Round a whole pose sample to the nearest quarter-turn multiples,
/// joint by joint.
pub fn calculate_nearest_rounded_positions(pos: &Vec<i32>) -> (r: Vec<i32>)
    requires
        forall|i: int| 0 <= i < pos.len() ==> -(i32::MAX - 512) <= #[trigger] pos[i] <= i32::MAX
            - 512,
    ensures
        r.len() == pos.len(),
        forall|i: int| 0 <= i < pos.len() ==> #[trigger] r[i] as int == nearest_quarter(
            pos[i] as int,
        ),
{
    let mut r: Vec<i32> = Vec::new();
    let mut j: usize = 0;
    while j < pos.len()
        invariant
            j <= pos.len(),
            r.len() == j,
            forall|i: int| 0 <= i < pos.len() ==> -(i32::MAX - 512) <= #[trigger] pos[i] <= i32::MAX
                - 512,
            forall|i: int| 0 <= i < j ==> #[trigger] r[i] as int == nearest_quarter(pos[i] as int),
        decreases pos.len() - j,
    {
        let v = nearest_rounded_position(pos[j]);
        r.push(v);
        j += 1;
    }
    r
}

/// Round a whole pose sample to the nearest quarter-turn multiples.
///
/// Same rounding as [`calculate_nearest_rounded_positions`]; both names are
/// kept because both wizard front-ends expose it.
pub fn get_nearest_rounded_positions(pos: &Vec<i32>) -> (r: Vec<i32>)
    requires
        forall|i: int| 0 <= i < pos.len() ==> -(i32::MAX - 512) <= #[trigger] pos[i] <= i32::MAX
            - 512,
    ensures
        r.len() == pos.len(),
        forall|i: int| 0 <= i < pos.len() ==> #[trigger] r[i] as int == nearest_quarter(
            pos[i] as int,
        ),
{
    calculate_nearest_rounded_positions(pos)
}

/// The result of rounding is always a quarter-turn multiple.
pub proof fn lemma_round_is_multiple(x: int)
    ensures
        nearest_quarter(x) % 1024 == 0,
{
}

/// A quarter-turn multiple rounds to itself.
pub proof fn lemma_round_multiple_fixed(x: int)
    requires
        x % 1024 == 0,
    ensures
        nearest_quarter(x) == x,
{
}

/// Rounding law, first half: rounding is idempotent — rounding twice yields
/// the same result as rounding once.
pub proof fn lemma_round_idempotent(x: int)
    ensures
        nearest_quarter(nearest_quarter(x)) == nearest_quarter(x),
{
    lemma_round_is_multiple(x);
    lemma_round_multiple_fixed(nearest_quarter(x));
}

/// Rounding law, second half: the rounded value differs from the input by at
/// most half a quarter turn, and a reading exactly half-way (its magnitude
/// `512` past a multiple) rounds away from zero.
pub proof fn lemma_round_within_half(x: int)
    ensures
        -512 <= nearest_quarter(x) - x <= 512,
        x >= 0 && x % 1024 == 512 ==> nearest_quarter(x) == x + 512,
        x < 0 && (-x) % 1024 == 512 ==> nearest_quarter(x) == x - 512,
{
}

} // verus!
