//! Angle codec: conversions between the actuator's unsigned 32-bit position
//! register and signed extended-range ticks.
//!
//! The register domain is unsigned, but a joint in extended-position mode
//! rotates symmetrically around zero.  Register values below the signed
//! midpoint stand for the equal non-negative tick count; values at or above
//! it stand for the negative count `-(u32::MAX - v)`.

use vstd::prelude::*;

verus! {

/// Tick count denoted by the unsigned register value `v`
/// (intended domain: `0 <= v <= u32::MAX`).
pub open spec fn ticks_of_raw(v: int) -> int {
    if v < 0x7fff_ffff {
        v
    } else {
        v - 0xffff_ffff
    }
}

/// Register value that denotes the tick count `t`
/// (intended domain: `i32::MIN <= t <= i32::MAX`).
pub open spec fn raw_of_ticks(t: int) -> int {
    if t >= 0 {
        t
    } else {
        t + 0xffff_ffff
    }
}

/// Decode one position register value into signed ticks.
pub fn convert_i32_angle(angle: u32) -> (ticks: i32)
    ensures
        ticks as int == ticks_of_raw(angle as int),
{
    if angle < 0x7fff_ffffu32 {
        angle as i32
    } else {
        let diff: u32 = u32::MAX - angle;
        if diff == 0x8000_0000u32 {
            i32::MIN
        } else {
            -(diff as i32)
        }
    }
}

/// Decode one position register value into signed ticks.
///
/// Same codec as [`convert_i32_angle`]; both names are kept because both
/// wizard front-ends expose the conversion.
pub fn read_i32_angle(angle: u32) -> (ticks: i32)
    ensures
        ticks as int == ticks_of_raw(angle as int),
{
    convert_i32_angle(angle)
}

/// Encode signed ticks back into the unsigned register representation:
/// the mirror of [`convert_i32_angle`].
pub fn ticks_to_raw(ticks: i32) -> (raw: u32)
    ensures
        raw as int == raw_of_ticks(ticks as int),
{
    if ticks >= 0 {
        ticks as u32
    } else {
        let magnitude: u32 = if ticks == i32::MIN {
            0x8000_0000u32
        } else {
            (-ticks) as u32
        };
        u32::MAX - magnitude
    }
}

/// Round trip through the codec: decoding a register value and re-encoding
/// the ticks yields the value back.
///
/// The one register value this cannot hold of is `u32::MAX`, which decodes
/// to zero ticks, the same as register value `0`; re-encoding yields `0`.
pub proof fn lemma_raw_ticks_roundtrip(v: u32)
    requires
        v != u32::MAX,
    ensures
        i32::MIN <= ticks_of_raw(v as int) <= i32::MAX,
        raw_of_ticks(ticks_of_raw(v as int)) == v as int,
{
}

/// Round trip in the other direction: every tick count the decoder can
/// produce (all of `i32` except `i32::MAX`) re-encodes to a register value
/// that decodes to it again.
pub proof fn lemma_ticks_raw_roundtrip(t: i32)
    requires
        t != i32::MAX,
    ensures
        0 <= raw_of_ticks(t as int) <= u32::MAX,
        ticks_of_raw(raw_of_ticks(t as int)) == t as int,
{
}

/// Decode a whole position read: one register value per joint, in order.
pub fn convert_positions(raw: &Vec<u32>) -> (ticks: Vec<i32>)
    ensures
        ticks.len() == raw.len(),
        forall|i: int| 0 <= i < raw.len() ==> #[trigger] ticks[i] as int == ticks_of_raw(
            raw[i] as int,
        ),
{
    let mut ticks: Vec<i32> = Vec::new();
    let mut j: usize = 0;
    while j < raw.len()
        invariant
            j <= raw.len(),
            ticks.len() == j,
            forall|i: int| 0 <= i < j ==> #[trigger] ticks[i] as int == ticks_of_raw(raw[i] as int),
        decreases raw.len() - j,
    {
        let t = convert_i32_angle(raw[j]);
        ticks.push(t);
        j += 1;
    }
    ticks
}

} // verus!
