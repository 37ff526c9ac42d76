//! The device's discrete brightness scale and its quantizer.
//!
//! The display firmware accepts exactly 100 distinct brightness levels,
//! one per percentage point: `540 * (i + 1)` for `i` in `0..100`.  A raw
//! reading from the device may fall between levels (transport noise,
//! firmware rounding); `find_nearest` snaps it onto the scale, and
//! `brightness_percent` turns an exact level into its 1-based percentage.

use vstd::arithmetic::div_mod::{lemma_fundamental_div_mod, lemma_fundamental_div_mod_converse};
use vstd::prelude::*;

verus! {

/// Lowest raw brightness value the device accepts.
pub const MIN_BRIGHTNESS: u16 = 0x0190;

/// Highest raw brightness value the device accepts; equals the top step.
pub const MAX_BRIGHTNESS: u16 = 0xd2f0;

/// Spacing between two adjacent steps of the scale.
pub const STEP: u16 = 540;

/// Number of steps on the scale, one per percentage point.
pub const STEP_COUNT: u16 = 100;

/// The `i`-th entry of the step scale (0-based): `540 * (i + 1)`.
pub open spec fn step_value(i: int) -> int {
    540 * (i + 1)
}

/// Whether `v` is one of the 100 firmware-valid brightness levels.
pub open spec fn is_step(v: int) -> bool {
    exists|i: int| 0 <= i < 100 && v == #[trigger] step_value(i)
}

/// Distance between two values on the raw scale.
pub open spec fn dist(a: int, b: int) -> int {
    if a >= b {
        a - b
    } else {
        b - a
    }
}

/// The value `find_nearest` returns for a raw reading: the member of the
/// step scale closest to `raw`, ties broken toward the lower member.
/// Readings below the first step — including the all-zero buffer left by
/// a failed transport read — quantize up to the first step, 540; readings
/// beyond the last step quantize down to it.
pub open spec fn nearest_spec(raw: int) -> int {
    if raw <= 270 {
        540
    } else if raw > 54270 {
        54000
    } else {
        540 * ((raw + 269) / 540)
    }
}

/// The 1-based percentage of an exact step value.
pub open spec fn percent_spec(v: int) -> int {
    v / 540
}

/// Quantize a raw brightness reading onto the step scale.
///
/// For every reading the result is a member of the scale, no member lies
/// closer to the reading, and of two equally close members the lower one
/// is returned.
pub fn find_nearest(x: u16) -> (r: u16)
    ensures
        r == nearest_spec(x as int),
        is_step(r as int),
        forall|i: int|
            0 <= i < 100 ==> dist(x as int, r as int) <= dist(x as int, #[trigger] step_value(i)),
        forall|i: int|
            0 <= i < 100 && dist(x as int, #[trigger] step_value(i)) == dist(x as int, r as int)
                ==> r <= step_value(i),
{
    proof {
        lemma_nearest_is_closest(x as int);
    }
    if x <= 270 {
        540
    } else if x > 54270 {
        54000
    } else {
        let q: u16 = (x + 269) / 540;
        proof {
            lemma_fundamental_div_mod(x as int + 269, 540);
        }
        540 * q
    }
}

/// Failure of the quantizer layer.
#[derive(Clone, Copy, Debug, PartialEq, Eq, Structural)]
pub enum BrightnessError {
    /// The value handed in is not a member of the step scale.  Percentages
    /// are defined for exact steps only, so this can only arise from a
    /// value that did not come out of `find_nearest`.
    InvalidStep,
}

/// The 1-based percentage of a step-scale member, `1..=100`.
///
/// Defined exactly for the members of the scale; any other value is
/// refused with [`BrightnessError::InvalidStep`].
pub fn brightness_percent(brightness: u16) -> (r: Result<usize, BrightnessError>)
    ensures
        r is Ok <==> is_step(brightness as int),
        r matches Ok(p) ==> p == percent_spec(brightness as int) && 1 <= p <= 100,
        r is Err ==> r == Result::<usize, BrightnessError>::Err(BrightnessError::InvalidStep),
{
    if is_step_value(brightness) {
        proof {
            let i = choose|i: int| 0 <= i < 100 && brightness == #[trigger] step_value(i);
            lemma_fundamental_div_mod_converse(brightness as int, 540, i + 1, 0);
        }
        Ok((brightness / 540) as usize)
    } else {
        Err(BrightnessError::InvalidStep)
    }
}

/// Whether `v` is a member of the step scale.
pub fn is_step_value(v: u16) -> (r: bool)
    ensures
        r == is_step(v as int),
{
    let r = v % 540 == 0 && 540 <= v && v <= 54000;
    proof {
        if r {
            lemma_fundamental_div_mod(v as int, 540);
            let i = v as int / 540 - 1;
            assert(0 <= i < 100 && v == step_value(i));
        } else {
            if exists|i: int| 0 <= i < 100 && v == #[trigger] step_value(i) {
                let i = choose|i: int| 0 <= i < 100 && v == #[trigger] step_value(i);
                lemma_fundamental_div_mod_converse(v as int, 540, i + 1, 0);
            }
        }
    }
    r
}

/// Quantization law: for every raw value, the quantized value is a member
/// of the step scale, no member of the scale lies closer to the raw
/// value, and when two members are equally close the lower one is chosen.
pub proof fn lemma_nearest_is_closest(raw: int)
    ensures
        is_step(nearest_spec(raw)),
        forall|i: int|
            0 <= i < 100 ==> dist(raw, nearest_spec(raw)) <= dist(raw, #[trigger] step_value(i)),
        forall|i: int|
            0 <= i < 100 && dist(raw, #[trigger] step_value(i)) == dist(raw, nearest_spec(raw))
                ==> nearest_spec(raw) <= step_value(i),
{
    if raw <= 270 {
        assert(nearest_spec(raw) == step_value(0));
        assert forall|i: int| 0 <= i < 100 implies dist(raw, nearest_spec(raw)) <= dist(
            raw,
            #[trigger] step_value(i),
        ) by {
            assert(step_value(i) == 540 * (i + 1));
        }
    } else if raw > 54270 {
        assert(nearest_spec(raw) == step_value(99));
        assert forall|i: int| 0 <= i < 100 implies dist(raw, nearest_spec(raw)) <= dist(
            raw,
            #[trigger] step_value(i),
        ) by {
            assert(step_value(i) == 540 * (i + 1));
        }
        assert forall|i: int|
            0 <= i < 100 && dist(raw, #[trigger] step_value(i)) == dist(
                raw,
                nearest_spec(raw),
            ) implies nearest_spec(raw) <= step_value(i) by {
            assert(step_value(i) == 540 * (i + 1));
        }
    } else {
        let q = (raw + 269) / 540;
        let s = (raw + 269) % 540;
        lemma_fundamental_div_mod(raw + 269, 540);
        vstd::arithmetic::div_mod::lemma_mod_bound(raw + 269, 540);
        assert(raw + 269 == 540 * q + s);
        assert(1 <= q <= 100);
        assert(nearest_spec(raw) == 540 * q);
        assert(nearest_spec(raw) == step_value(q - 1));
        assert(dist(raw, 540 * q) <= 270);
        assert forall|i: int| 0 <= i < 100 implies dist(raw, nearest_spec(raw)) <= dist(
            raw,
            #[trigger] step_value(i),
        ) by {
            let m = i + 1;
            assert(step_value(i) == 540 * m);
            assert(raw - 540 * m == (s - 269) + 540 * q - 540 * m);
        }
        assert forall|i: int|
            0 <= i < 100 && dist(raw, #[trigger] step_value(i)) == dist(
                raw,
                nearest_spec(raw),
            ) implies nearest_spec(raw) <= step_value(i) by {
            let m = i + 1;
            assert(step_value(i) == 540 * m);
            assert(raw - 540 * m == (s - 269) + 540 * q - 540 * m);
        }
    }
}

/// Percentage law: the quantized value of any raw reading has a
/// well-defined percentage, and it lies in `1..=100`.  Both the quantizer
/// and the percentage are functions of the raw value alone, so repeating
/// the computation on the same reading yields the same percentage.
pub proof fn lemma_percent_of_nearest(raw: int)
    ensures
        is_step(nearest_spec(raw)),
        1 <= percent_spec(nearest_spec(raw)) <= 100,
{
    lemma_nearest_is_closest(raw);
    if raw <= 270 {
        lemma_fundamental_div_mod_converse(540, 540, 1, 0);
    } else if raw > 54270 {
        lemma_fundamental_div_mod_converse(54000, 540, 100, 0);
    } else {
        let q = (raw + 269) / 540;
        lemma_fundamental_div_mod(raw + 269, 540);
        vstd::arithmetic::div_mod::lemma_mod_bound(raw + 269, 540);
        assert(1 <= q <= 100);
        assert(nearest_spec(raw) == 540 * q);
        lemma_fundamental_div_mod_converse(540 * q, 540, q, 0);
        assert(percent_spec(540 * q) == q);
    }
}

} // verus!
