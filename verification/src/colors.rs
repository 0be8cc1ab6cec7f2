//! Battery-level-to-color mapping.
//!
//! Color components are fixed-point: a component of `COLOR_SCALE` milli-units
//! stands for 1.0, so every component lies in `[0, COLOR_SCALE]`.

use vstd::prelude::*;
use crate::COLOR_SCALE;
use crate::SCALE;

verus! {

/// An RGB color with components in `[0, COLOR_SCALE]` milli-units.
#[derive(Clone, Copy, Debug, PartialEq, Eq, Structural)]
pub struct Rgb {
    pub r: i64,
    pub g: i64,
    pub b: i64,
}

/// Clamp `v` into `[lo, hi]`.
pub open spec fn spec_clamp(v: int, lo: int, hi: int) -> int {
    if v < lo {
        lo
    } else if v > hi {
        hi
    } else {
        v
    }
}

impl Rgb {
    /// All components lie in `[0, COLOR_SCALE]`.
    pub open spec fn wf(self) -> bool {
        0 <= self.r <= COLOR_SCALE && 0 <= self.g <= COLOR_SCALE && 0 <= self.b <= COLOR_SCALE
    }

    /// Build a color, clamping each component into `[0, COLOR_SCALE]`.
    pub fn new(r: i64, g: i64, b: i64) -> (c: Self)
        ensures
            c.r == spec_clamp(r as int, 0, COLOR_SCALE as int),
            c.g == spec_clamp(g as int, 0, COLOR_SCALE as int),
            c.b == spec_clamp(b as int, 0, COLOR_SCALE as int),
            c.wf(),
    {
        Rgb { r: clamp_component(r), g: clamp_component(g), b: clamp_component(b) }
    }

    /// The zero-charge color.
    pub fn black() -> (c: Self)
        ensures
            c == spec_black(),
            c.wf(),
    {
        Rgb { r: 0, g: 0, b: 0 }
    }
}

/// Pure black, the color of a node with no charge.
pub open spec fn spec_black() -> Rgb {
    Rgb { r: 0, g: 0, b: 0 }
}

fn clamp_component(v: i64) -> (r: i64)
    ensures
        r == spec_clamp(v as int, 0, COLOR_SCALE as int),
{
    if v < 0 {
        0
    } else if v > COLOR_SCALE {
        COLOR_SCALE
    } else {
        v
    }
}

/// The color of a battery level of `battery` milli-units on the canonical
/// 0..100-unit battery scale:
/// - the level is first clamped into `[0, 100 * SCALE]`;
/// - a level of exactly zero maps to pure black;
/// - a level in `(0, SCALE]` (at most one unit: critically low) maps to a
///   fixed dark red, distinct from the gradient below;
/// - any higher level maps to a red-to-green gradient with
///   `r + g == COLOR_SCALE` and `b == 0`.
pub open spec fn spec_battery_colors(battery: int) -> Rgb {
    let clamped = spec_clamp(battery, 0, 100 * SCALE as int);
    if clamped == 0 {
        spec_black()
    } else if clamped <= SCALE {
        Rgb { r: (COLOR_SCALE / 2) as i64, g: 0, b: 0 }
    } else {
        let t = clamped / 100;
        Rgb { r: (COLOR_SCALE - t) as i64, g: t as i64, b: 0 }
    }
}

/// Map a battery level in milli-units to its marker color.
pub fn battery_colors(battery: i64) -> (c: Rgb)
    ensures
        c == spec_battery_colors(battery as int),
        c.wf(),
{
    let clamped: i64 = if battery < 0 {
        0
    } else if battery > 100 * SCALE {
        100 * SCALE
    } else {
        battery
    };
    if clamped == 0 {
        Rgb::black()
    } else if clamped <= SCALE {
        Rgb { r: COLOR_SCALE / 2, g: 0, b: 0 }
    } else {
        let t = clamped / 100;
        Rgb { r: COLOR_SCALE - t, g: t, b: 0 }
    }
}

/// On the gradient branch (battery strictly above one unit) the red and green
/// components always sum to full intensity, and a battery of exactly zero
/// always maps to pure black.
pub proof fn lemma_gradient_sum(battery: int)
    ensures
        battery > SCALE ==> spec_battery_colors(battery).r + spec_battery_colors(battery).g
            == COLOR_SCALE,
        spec_battery_colors(0) == spec_black(),
{
}

} // verus!
