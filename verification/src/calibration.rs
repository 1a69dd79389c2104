//! Calibration arithmetic: the per-joint computations of the homing wizard.
//!
//! The wizard observes the arm in two reference poses.  From the rounded
//! pose-1 reading it computes a homing-offset correction per joint; from the
//! rounded pose-2 reading it decides which joints are mounted inverted.  The
//! functions here are the pure part of those passes: they take tick vectors
//! and produce correction and inversion vectors.

use vstd::prelude::*;

verus! {

/// Tick values every joint must read back in reference pose 1 once
/// calibration is done.
pub open spec fn wanted_pose_1() -> Seq<int> {
    seq![0, 0, 1024, 0, -1024, 0]
}

/// Tick values every non-inverted joint reads in reference pose 2 after the
/// first homing pass; a mismatch marks the joint inverted.
pub open spec fn wanted_pose_2() -> Seq<int> {
    seq![1024, 1024, 0, -1024, 0, 1024]
}

/// A reading as the drive direction sees it: kept for an inverted joint,
/// negated for a regular one.
pub open spec fn inverted_tick(x: int, inv: bool) -> int {
    if inv {
        x
    } else {
        -x
    }
}

/// Homing-offset correction for one joint: the direction-adjusted reading,
/// shifted so that the joint will read `wanted` at pose 1.
pub open spec fn correction_for(x: int, inv: bool, wanted: int) -> int {
    if inv {
        x - wanted
    } else {
        -x + wanted
    }
}

/// Inversion verdict for one joint: its rounded pose-2 reading fails to
/// match the wanted pose-2 value.
pub open spec fn inversion_flag(x: int, wanted: int) -> bool {
    x != wanted
}

/// The signed-tick view of a vector of readings.
pub open spec fn int_view(s: Seq<i32>) -> Seq<int> {
    s.map_values(|x: i32| x as int)
}

/// The wanted pose-1 tick values, one per joint.
pub fn wanted_position_1() -> (v: Vec<i32>)
    ensures
        int_view(v@) == wanted_pose_1(),
{
    let v: Vec<i32> = vec![0, 0, 1024, 0, -1024, 0];
    proof {
        assert(int_view(v@) =~= wanted_pose_1());
    }
    v
}

/// The wanted pose-2 tick values, one per joint.
pub fn wanted_position_2() -> (v: Vec<i32>)
    ensures
        int_view(v@) == wanted_pose_2(),
{
    let v: Vec<i32> = vec![1024, 1024, 0, -1024, 0, 1024];
    proof {
        assert(int_view(v@) =~= wanted_pose_2());
    }
    v
}

/// The wanted pose-1 tick values; same vector as [`wanted_position_1`],
/// under the second wizard front-end's name.
pub fn wanted_pos1() -> (v: Vec<i32>)
    ensures
        int_view(v@) == wanted_pose_1(),
{
    wanted_position_1()
}

/// The wanted pose-2 tick values; same vector as [`wanted_position_2`],
/// under the second wizard front-end's name.
pub fn wanted_pos2() -> (v: Vec<i32>)
    ensures
        int_view(v@) == wanted_pose_2(),
{
    wanted_position_2()
}

/// Apply the drive direction to a vector of readings: entries of regular
/// joints are negated, entries of inverted joints kept.
pub fn invert_appropriate_positions(pos: &Vec<i32>, inverted: &Vec<bool>) -> (r: Vec<i32>)
    requires
        inverted.len() >= pos.len(),
        forall|i: int| 0 <= i < pos.len() ==> i32::MIN < #[trigger] pos[i],
    ensures
        r.len() == pos.len(),
        forall|i: int| 0 <= i < pos.len() ==> #[trigger] r[i] as int == inverted_tick(
            pos[i] as int,
            inverted[i],
        ),
{
    let mut r: Vec<i32> = Vec::new();
    let mut j: usize = 0;
    while j < pos.len()
        invariant
            j <= pos.len(),
            r.len() == j,
            inverted.len() >= pos.len(),
            forall|i: int| 0 <= i < pos.len() ==> i32::MIN < #[trigger] pos[i],
            forall|i: int| 0 <= i < j ==> #[trigger] r[i] as int == inverted_tick(
                pos[i] as int,
                inverted[i],
            ),
        decreases pos.len() - j,
    {
        let x = pos[j];
        let v = if inverted[j] {
            x
        } else {
            -x
        };
        r.push(v);
        j += 1;
    }
    r
}

/// Apply the drive direction to a vector of readings; same operation as
/// [`invert_appropriate_positions`], under the second front-end's name.
pub fn invert(pos: &Vec<i32>, inverted: &Vec<bool>) -> (r: Vec<i32>)
    requires
        inverted.len() >= pos.len(),
        forall|i: int| 0 <= i < pos.len() ==> i32::MIN < #[trigger] pos[i],
    ensures
        r.len() == pos.len(),
        forall|i: int| 0 <= i < pos.len() ==> #[trigger] r[i] as int == inverted_tick(
            pos[i] as int,
            inverted[i],
        ),
{
    invert_appropriate_positions(pos, inverted)
}

/// Homing-offset corrections for all six joints, from their rounded pose-1
/// readings and the known inversion flags.
pub fn calculate_corrections(pos: &Vec<i32>, inverted: &Vec<bool>) -> (r: Vec<i32>)
    requires
        pos.len() == 6,
        inverted.len() == 6,
        forall|i: int| 0 <= i < 6 ==> -(i32::MAX - 1024) <= #[trigger] pos[i] <= i32::MAX - 1024,
    ensures
        r.len() == 6,
        forall|i: int| 0 <= i < 6 ==> #[trigger] r[i] as int == correction_for(
            pos[i] as int,
            inverted[i],
            wanted_pose_1()[i],
        ),
{
    let wanted = wanted_position_1();
    proof {
        assert(wanted@.len() == 6) by {
            assert(int_view(wanted@).len() == 6);
        }
        assert forall|k: int| 0 <= k < 6 implies #[trigger] wanted@[k] as int == wanted_pose_1()[k] by {
            assert(int_view(wanted@)[k] == wanted@[k] as int);
        }
    }
    let mut correction = invert_appropriate_positions(pos, inverted);
    let mut i: usize = 0;
    while i < 6
        invariant
            i <= 6,
            pos.len() == 6,
            inverted.len() == 6,
            correction.len() == 6,
            wanted.len() == 6,
            forall|k: int| 0 <= k < 6 ==> #[trigger] wanted[k] as int == wanted_pose_1()[k],
            forall|k: int| 0 <= k < 6 ==> -(i32::MAX - 1024) <= #[trigger] pos[k] <= i32::MAX - 1024,
            forall|k: int| i <= k < 6 ==> #[trigger] correction[k] as int == inverted_tick(
                pos[k] as int,
                inverted[k],
            ),
            forall|k: int| 0 <= k < i ==> #[trigger] correction[k] as int == correction_for(
                pos[k] as int,
                inverted[k],
                wanted_pose_1()[k],
            ),
        decreases 6 - i,
    {
        if inverted[i] {
            let v = correction[i] - wanted[i];
            correction.set(i, v);
        } else {
            let v = correction[i] + wanted[i];
            correction.set(i, v);
        }
        i += 1;
    }
    correction
}

/// Homing-offset corrections for all six joints; same computation as
/// [`calculate_corrections`], under the second front-end's name.
pub fn get_correction(pos: &Vec<i32>, inverted: &Vec<bool>) -> (r: Vec<i32>)
    requires
        pos.len() == 6,
        inverted.len() == 6,
        forall|i: int| 0 <= i < 6 ==> -(i32::MAX - 1024) <= #[trigger] pos[i] <= i32::MAX - 1024,
    ensures
        r.len() == 6,
        forall|i: int| 0 <= i < 6 ==> #[trigger] r[i] as int == correction_for(
            pos[i] as int,
            inverted[i],
            wanted_pose_1()[i],
        ),
{
    calculate_corrections(pos, inverted)
}

/// Inversion flags for all six joints, from their rounded pose-2 readings:
/// a joint is flagged exactly when its reading misses the wanted pose-2
/// value.
pub fn detect_inversions(rounded: &Vec<i32>) -> (flags: Vec<bool>)
    requires
        rounded.len() == 6,
    ensures
        flags.len() == 6,
        forall|i: int| 0 <= i < 6 ==> #[trigger] flags[i] == inversion_flag(
            rounded[i] as int,
            wanted_pose_2()[i],
        ),
{
    let wanted = wanted_position_2();
    proof {
        assert(wanted@.len() == 6) by {
            assert(int_view(wanted@).len() == 6);
        }
        assert forall|k: int| 0 <= k < 6 implies #[trigger] wanted@[k] as int == wanted_pose_2()[k] by {
            assert(int_view(wanted@)[k] == wanted@[k] as int);
        }
    }
    let mut flags: Vec<bool> = Vec::new();
    let mut j: usize = 0;
    while j < 6
        invariant
            j <= 6,
            rounded.len() == 6,
            flags.len() == j,
            wanted.len() == 6,
            forall|k: int| 0 <= k < 6 ==> #[trigger] wanted[k] as int == wanted_pose_2()[k],
            forall|i: int| 0 <= i < j ==> #[trigger] flags[i] == inversion_flag(
                rounded[i] as int,
                wanted_pose_2()[i],
            ),
        decreases 6 - j,
    {
        flags.push(rounded[j] != wanted[j]);
        j += 1;
    }
    flags
}

/// Drive-mode register values for a vector of inversion flags: `1` for an
/// inverted joint, `0` for a regular one.
pub fn drive_mode_values(inverted: &Vec<bool>) -> (modes: Vec<u8>)
    ensures
        modes.len() == inverted.len(),
        forall|i: int| 0 <= i < inverted.len() ==> #[trigger] modes[i] == (if inverted[i] {
            1u8
        } else {
            0u8
        }),
{
    let mut modes: Vec<u8> = Vec::new();
    let mut j: usize = 0;
    while j < inverted.len()
        invariant
            j <= inverted.len(),
            modes.len() == j,
            forall|i: int| 0 <= i < j ==> #[trigger] modes[i] == (if inverted[i] {
                1u8
            } else {
                0u8
            }),
        decreases inverted.len() - j,
    {
        modes.push(if inverted[j] {
            1
        } else {
            0
        });
        j += 1;
    }
    modes
}

/// Inversion-detection law: after the first homing pass, a joint whose
/// rounded pose-2 reading is the negation of the wanted pose-2 value is
/// flagged inverted, and a joint matching it exactly is not flagged.
///
/// The negation half asks for a non-zero wanted value: where the wanted
/// value is zero, negation and match coincide and the joint is, rightly,
/// not flagged.
pub proof fn lemma_inversion_detection(x: int, i: int)
    requires
        0 <= i < 6,
    ensures
        x == wanted_pose_2()[i] ==> !inversion_flag(x, wanted_pose_2()[i]),
        x == -wanted_pose_2()[i] && wanted_pose_2()[i] != 0 ==> inversion_flag(
            x,
            wanted_pose_2()[i],
        ),
{
}

} // verus!
