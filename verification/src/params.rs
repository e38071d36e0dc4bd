//! The tunable parameters that all cells share, and the colour they give.

use crate::units::{clamp, UNIT};
use vstd::prelude::*;

verus! {

/// Saturation and luminance of the vivid pair.
pub const VIVID_SATURATION: u32 = 800_000;

pub const VIVID_LUMINANCE: u32 = 750_000;

/// Saturation and luminance of the muted pair.
pub const MUTED_SATURATION: u32 = 400_000;

pub const MUTED_LUMINANCE: u32 = 400_000;

/// The largest scale that the interactive adjustments reach: five wholes.
pub const SCALE_CEILING: i32 = 5_000_000;

/// The step of one interactive adjustment: a tenth of a whole.
pub const SCALE_STEP: i32 = 100_000;

/// The values that every cell reads during a tick. Scales, hues, `motion`
/// and `velocity_factor` are counted in parts of `UNIT`.
#[derive(Clone, Copy, Debug, PartialEq, Eq, Structural)]
pub struct Parameters {
    pub displacement_scale: i32,
    pub rotation_scale: i32,
    pub hue_start: u32,
    pub hue_range: u32,
    pub contrast_mode: bool,
    pub dark_mode: bool,
    pub random_seed: u64,
    pub motion: u32,
    pub velocity_factor: u32,
}

/// The parameters a sketch starts with, for a given seed.
pub open spec fn initial_parameters(seed: u64) -> Parameters {
    Parameters {
        displacement_scale: 1_000_000,
        rotation_scale: 1_000_000,
        hue_start: 350_000,
        hue_range: 500_000,
        contrast_mode: false,
        dark_mode: true,
        random_seed: seed,
        motion: 100_000,
        velocity_factor: 1_000_000,
    }
}

/// Saturation and luminance for the two mode flags: the vivid pair where the
/// flags agree, the muted pair where they differ.
pub open spec fn palette(contrast_mode: bool, dark_mode: bool) -> (u32, u32) {
    if contrast_mode == dark_mode {
        (VIVID_SATURATION, VIVID_LUMINANCE)
    } else {
        (MUTED_SATURATION, MUTED_LUMINANCE)
    }
}

/// The hue before wrapping: `start` at the top row, `start + range` at
/// `row == rows`, and in proportion between.
pub open spec fn blended_hue(start: int, range: int, row: int, rows: int) -> int
    recommends
        rows > 0,
{
    start + (range * row) / rows
}

/// A hue above one whole turn is taken one turn down.
pub open spec fn wrapped_hue(hue: int) -> int {
    if hue > UNIT {
        hue - UNIT
    } else {
        hue
    }
}

/// The hue of row `row` of `rows`.
pub open spec fn hue_of(start: int, range: int, row: int, rows: int) -> int
    recommends
        rows > 0,
{
    wrapped_hue(blended_hue(start, range, row, rows))
}

/// The blend stays between `start` and `start + range` on the rows of the
/// grid.
pub proof fn lemma_blend_within(start: int, range: int, row: int, rows: int)
    requires
        0 <= range,
        0 <= row <= rows,
        0 < rows,
    ensures
        start <= blended_hue(start, range, row, rows) <= start + range,
{
    assert(0 <= range * row <= range * rows) by (nonlinear_arith)
        requires
            0 <= range,
            0 <= row <= rows,
    ;
    vstd::arithmetic::div_mod::lemma_div_is_ordered(range * row, range * rows, rows);
    vstd::arithmetic::div_mod::lemma_div_multiples_vanish(range, rows);
    assert(range * rows == rows * range) by (nonlinear_arith);
    vstd::arithmetic::div_mod::lemma_div_pos_is_pos(range * row, rows);
}

/// Saturation and luminance for the two mode flags.
pub fn saturation_luminance(contrast_mode: bool, dark_mode: bool) -> (pair: (u32, u32))
    ensures
        pair == palette(contrast_mode, dark_mode),
{
    match (contrast_mode, dark_mode) {
        (true, true) => (VIVID_SATURATION, VIVID_LUMINANCE),
        (true, false) => (MUTED_SATURATION, MUTED_LUMINANCE),
        (false, true) => (MUTED_SATURATION, MUTED_LUMINANCE),
        (false, false) => (VIVID_SATURATION, VIVID_LUMINANCE),
    }
}

/// The hue of row `row` of `rows`, in parts of a whole turn.
pub fn hue(start: u32, range: u32, row: u32, rows: u32) -> (h: u64)
    requires
        rows > 0,
    ensures
        h == hue_of(start as int, range as int, row as int, rows as int),
        (row <= rows && start < UNIT && range < UNIT) ==> h <= UNIT,
        (row <= rows && start < UNIT && range < UNIT && blended_hue(
            start as int,
            range as int,
            row as int,
            rows as int,
        ) != UNIT) ==> h < UNIT,
{
    proof {
        assert(0 <= range * row <= 0xffff_ffff * 0xffff_ffff) by (nonlinear_arith)
            requires
                0 <= range <= 0xffff_ffff,
                0 <= row <= 0xffff_ffff,
        ;
        vstd::arithmetic::div_mod::lemma_div_is_ordered(0, range * row, rows as int);
        vstd::arithmetic::div_mod::lemma_div_is_ordered(range * row, range * row, 1);
        vstd::arithmetic::div_mod::lemma_div_is_ordered_by_denominator(range * row, 1, rows as int);
        if row <= rows {
            lemma_blend_within(start as int, range as int, row as int, rows as int);
        }
    }
    let share: u64 = (range as u64) * (row as u64) / (rows as u64);
    let blend: u64 = (start as u64) + share;
    if blend > 1_000_000 {
        blend - 1_000_000
    } else {
        blend
    }
}

impl Parameters {
    /// The parameters a sketch starts with.
    pub fn new(seed: u64) -> (p: Parameters)
        ensures
            p == initial_parameters(seed),
    {
        Parameters {
            displacement_scale: 1_000_000,
            rotation_scale: 1_000_000,
            hue_start: 350_000,
            hue_range: 500_000,
            contrast_mode: false,
            dark_mode: true,
            random_seed: seed,
            motion: 100_000,
            velocity_factor: 1_000_000,
        }
    }
}

/// A scale held inside `[0, SCALE_CEILING]`.
pub open spec fn within_scales(scale: int) -> int {
    if scale < 0 {
        0
    } else if scale > SCALE_CEILING {
        SCALE_CEILING as int
    } else {
        scale
    }
}

/// One step up of a scale: a step more, but no more than the ceiling and no
/// less than zero.
pub open spec fn raised(scale: int) -> int {
    within_scales(scale + SCALE_STEP)
}

/// One step down of a scale: a step less, but no less than zero and no more
/// than the ceiling.
pub open spec fn lowered(scale: int) -> int {
    within_scales(scale - SCALE_STEP)
}

/// Raises a scale by one step and holds it inside `[0, SCALE_CEILING]`.
pub fn raise_scale(scale: i32) -> (r: i32)
    ensures
        r == raised(scale as int),
        0 <= r <= SCALE_CEILING,
{
    let more: i64 = (scale as i64) + 100_000;
    clamp(more, 0, 5_000_000) as i32
}

/// Lowers a scale by one step and holds it inside `[0, SCALE_CEILING]`.
pub fn lower_scale(scale: i32) -> (r: i32)
    ensures
        r == lowered(scale as int),
        0 <= r <= SCALE_CEILING,
{
    let less: i64 = (scale as i64) - 100_000;
    clamp(less, 0, 5_000_000) as i32
}

/// What a user can ask for between two ticks.
#[derive(Clone, Copy, Debug, PartialEq, Eq, Structural)]
pub enum Adjustment {
    /// Switch between the dark and the light background.
    ToggleDark,
    /// Switch the contrast of the colours.
    ToggleContrast,
    /// One step more displacement.
    RaiseDisplacement,
    /// One step less displacement.
    LowerDisplacement,
    /// One step more rotation.
    RaiseRotation,
    /// One step less rotation.
    LowerRotation,
    /// Take this seed.
    Reseed(u64),
}

/// The parameters after an adjustment: the one value it names is changed,
/// all others stay. A scale that was stepped lies in `[0, SCALE_CEILING]`.
pub open spec fn adjusted(p: Parameters, a: Adjustment) -> Parameters {
    match a {
        Adjustment::ToggleDark => Parameters { dark_mode: !p.dark_mode, ..p },
        Adjustment::ToggleContrast => Parameters { contrast_mode: !p.contrast_mode, ..p },
        Adjustment::RaiseDisplacement => Parameters {
            displacement_scale: raised(p.displacement_scale as int) as i32,
            ..p
        },
        Adjustment::LowerDisplacement => Parameters {
            displacement_scale: lowered(p.displacement_scale as int) as i32,
            ..p
        },
        Adjustment::RaiseRotation => Parameters {
            rotation_scale: raised(p.rotation_scale as int) as i32,
            ..p
        },
        Adjustment::LowerRotation => Parameters {
            rotation_scale: lowered(p.rotation_scale as int) as i32,
            ..p
        },
        Adjustment::Reseed(seed) => Parameters { random_seed: seed, ..p },
    }
}

/// Applies an adjustment to the parameters.
pub fn adjust(p: Parameters, a: Adjustment) -> (r: Parameters)
    ensures
        r == adjusted(p, a),
{
    let mut r: Parameters = p;
    match a {
        Adjustment::ToggleDark => {
            r.dark_mode = !p.dark_mode;
        },
        Adjustment::ToggleContrast => {
            r.contrast_mode = !p.contrast_mode;
        },
        Adjustment::RaiseDisplacement => {
            r.displacement_scale = raise_scale(p.displacement_scale);
        },
        Adjustment::LowerDisplacement => {
            r.displacement_scale = lower_scale(p.displacement_scale);
        },
        Adjustment::RaiseRotation => {
            r.rotation_scale = raise_scale(p.rotation_scale);
        },
        Adjustment::LowerRotation => {
            r.rotation_scale = lower_scale(p.rotation_scale);
        },
        Adjustment::Reseed(seed) => {
            r.random_seed = seed;
        },
    }
    r
}

} // verus!
