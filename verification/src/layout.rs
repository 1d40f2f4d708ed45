//! Adaptive layout: dial center, radii and hand lengths from the window size.
//!
//! All lengths and coordinates are in hundredths of a pixel, so the reference
//! margins of 100 and 35 pixels are 10000 and 3500 here and a hand length of
//! 255.10 pixels is the exact integer 25510. Hand-length fractions are in
//! parts per million of the horizontal radius.

use vstd::prelude::*;

verus! {

/// Largest coordinate or length the layout works with, in hundredths of a
/// pixel: one million pixels.
pub const LENGTH_MAX: i64 = 100_000_000;

/// The design constants of the dial: margins, the radius floor and ceiling
/// with their absolute fallback hand lengths, the proportional hand-length
/// fractions, tick lengths and the label pull-in factor.
#[derive(Clone, Copy, PartialEq, Eq, Structural, Debug)]
pub struct LayoutConfig {
    /// Horizontal margin between window edge and dial rim, hundredths of a pixel.
    pub margin_x: i64,
    /// Vertical margin between window edge and dial rim, hundredths of a pixel.
    pub margin_y: i64,
    /// Smallest allowed radius: both radii snap here when either comes in at
    /// or under it.
    pub floor_radius: i64,
    /// Largest allowed horizontal radius.
    pub ceiling_radius: i64,
    /// Fraction taken off the horizontal radius for the hour hand, ppm.
    pub hour_shrink_ppm: u32,
    /// Fraction taken off the horizontal radius for the minute hand, ppm.
    pub minute_shrink_ppm: u32,
    /// Fraction taken off the horizontal radius for the second hand, ppm.
    pub second_shrink_ppm: u32,
    /// Absolute hour hand length used when the floor snap fires.
    pub floor_hour_length: i64,
    /// Absolute minute hand length used when the floor snap fires.
    pub floor_minute_length: i64,
    /// Absolute second hand length used when the floor snap fires.
    pub floor_second_length: i64,
    /// Absolute hour hand length used when the ceiling snap fires.
    pub ceiling_hour_length: i64,
    /// Absolute minute hand length used when the ceiling snap fires.
    pub ceiling_minute_length: i64,
    /// Absolute second hand length used when the ceiling snap fires.
    pub ceiling_second_length: i64,
    /// Length of the tick at each five-minute position.
    pub long_tick_length: i64,
    /// Length of the tick at the other minute positions.
    pub short_tick_length: i64,
    /// How far in from the rim the hour labels sit, per mille of the radius.
    pub text_offset_permille: i64,
}

impl LayoutConfig {
    /// A usable configuration: margins and bounds in range, fractions ordered
    /// so hour < minute < second in length and positive at every radius the
    /// clamp admits, fallback lengths ordered the same way and inside their
    /// radius.
    pub open spec fn wf(self) -> bool {
        &&& 0 <= self.margin_x <= LENGTH_MAX
        &&& 0 <= self.margin_y <= LENGTH_MAX
        &&& 0 < self.floor_radius <= self.ceiling_radius <= LENGTH_MAX
        &&& self.second_shrink_ppm < self.minute_shrink_ppm < self.hour_shrink_ppm
            < 1_000_000
        &&& (self.hour_shrink_ppm - self.minute_shrink_ppm) * self.floor_radius
            >= 1_000_000
        &&& (self.minute_shrink_ppm - self.second_shrink_ppm) * self.floor_radius
            >= 1_000_000
        &&& (1_000_000 - self.hour_shrink_ppm) * self.floor_radius >= 1_000_000
        &&& 0 < self.floor_hour_length < self.floor_minute_length
            < self.floor_second_length <= self.floor_radius
        &&& 0 < self.ceiling_hour_length < self.ceiling_minute_length
            < self.ceiling_second_length <= self.ceiling_radius
        &&& 0 < self.short_tick_length <= self.long_tick_length < self.floor_radius
        &&& 0 <= self.text_offset_permille <= 1000
    }

    /// The reference proportions: 100 x 35 pixel margins, floor radius 320,
    /// ceiling radius 730, and the reference hand fractions and fallbacks.
    pub open spec fn reference_spec() -> LayoutConfig {
        LayoutConfig {
            margin_x: 10_000,
            margin_y: 3_500,
            floor_radius: 32_000,
            ceiling_radius: 73_000,
            hour_shrink_ppm: 409_524,
            minute_shrink_ppm: 246_310,
            second_shrink_ppm: 144_600,
            floor_hour_length: 16_000,
            floor_minute_length: 25_510,
            floor_second_length: 28_000,
            ceiling_hour_length: 50_000,
            ceiling_minute_length: 58_500,
            ceiling_second_length: 67_000,
            long_tick_length: 1_300,
            short_tick_length: 1_000,
            text_offset_permille: 890,
        }
    }

    /// Builds the reference configuration.
    pub fn reference() -> (c: LayoutConfig)
        ensures
            c == LayoutConfig::reference_spec(),
            c.wf(),
    {
        let c = LayoutConfig {
            margin_x: 10_000,
            margin_y: 3_500,
            floor_radius: 32_000,
            ceiling_radius: 73_000,
            hour_shrink_ppm: 409_524,
            minute_shrink_ppm: 246_310,
            second_shrink_ppm: 144_600,
            floor_hour_length: 16_000,
            floor_minute_length: 25_510,
            floor_second_length: 28_000,
            ceiling_hour_length: 50_000,
            ceiling_minute_length: 58_500,
            ceiling_second_length: 67_000,
            long_tick_length: 1_300,
            short_tick_length: 1_000,
            text_offset_permille: 890,
        };
        assert(c.wf()) by (nonlinear_arith)
            requires
                c == LayoutConfig::reference_spec(),
        ;
        c
    }
}

/// The dial: an axis-aligned ellipse, recomputed every frame from the window
/// size. Coordinates and radii in hundredths of a pixel.
#[derive(Clone, Copy, PartialEq, Eq, Structural, Debug)]
pub struct ClockFace {
    pub center_x: i64,
    pub center_y: i64,
    pub radius_x: i64,
    pub radius_y: i64,
}

impl ClockFace {
    /// Positive radii and bounded fields.
    pub open spec fn wf(self) -> bool {
        &&& 0 < self.radius_x <= LENGTH_MAX
        &&& 0 < self.radius_y <= LENGTH_MAX
        &&& 0 <= self.center_x <= LENGTH_MAX
        &&& 0 <= self.center_y <= LENGTH_MAX
    }
}

/// The three hand lengths, in hundredths of a pixel.
#[derive(Clone, Copy, PartialEq, Eq, Structural, Debug)]
pub struct HandSet {
    pub hour_length: i64,
    pub minute_length: i64,
    pub second_length: i64,
}

/// A length reduced by a fraction of itself, the fraction given in parts per
/// million; the result is rounded down to the next hundredth of a pixel.
pub open spec fn shrink_by_ppm(value: int, ppm: int) -> int {
    (value * (1_000_000 - ppm)) / 1_000_000
}

/// Horizontal radius before clamping: half the width minus the margin.
pub open spec fn base_radius_x(width: int, cfg: LayoutConfig) -> int {
    50 * width - cfg.margin_x
}

/// Vertical radius before clamping: half the height minus the margin.
pub open spec fn base_radius_y(height: int, cfg: LayoutConfig) -> int {
    50 * height - cfg.margin_y
}

/// Whether the floor snap fires: either proportional radius strictly below
/// the floor.
pub open spec fn floor_fires(width: int, height: int, cfg: LayoutConfig) -> bool {
    base_radius_x(width, cfg) < cfg.floor_radius
        || base_radius_y(height, cfg) < cfg.floor_radius
}

/// Whether the ceiling snap fires: the horizontal radius, after the floor
/// stage, above the ceiling.
pub open spec fn ceiling_fires(width: int, height: int, cfg: LayoutConfig) -> bool {
    !floor_fires(width, height, cfg) && base_radius_x(width, cfg) > cfg.ceiling_radius
}

/// The horizontal dial radius for a window of `width` by `height` pixels:
/// derived proportionally, snapped to the floor if either proportional
/// radius falls below it, then capped at the ceiling.
pub open spec fn radius_x_spec(width: int, height: int, cfg: LayoutConfig) -> int {
    if floor_fires(width, height, cfg) {
        cfg.floor_radius as int
    } else if base_radius_x(width, cfg) > cfg.ceiling_radius {
        cfg.ceiling_radius as int
    } else {
        base_radius_x(width, cfg)
    }
}

/// The vertical dial radius: derived proportionally and snapped to the floor
/// if either proportional radius falls below it; the ceiling leaves it
/// alone.
pub open spec fn radius_y_spec(width: int, height: int, cfg: LayoutConfig) -> int {
    if floor_fires(width, height, cfg) {
        cfg.floor_radius as int
    } else {
        base_radius_y(height, cfg)
    }
}

/// The dial for a window of `width` by `height` pixels, centered in the
/// window. The radii always fit an `i64`, so the casts never truncate.
pub open spec fn face_spec(width: int, height: int, cfg: LayoutConfig) -> ClockFace {
    ClockFace {
        center_x: (50 * width) as i64,
        center_y: (50 * height) as i64,
        radius_x: radius_x_spec(width, height, cfg) as i64,
        radius_y: radius_y_spec(width, height, cfg) as i64,
    }
}

/// The hour hand length for a window of `width` by `height` pixels: a fixed
/// fraction of the proportional horizontal radius, replaced by the absolute
/// floor or ceiling value when the matching snap fires.
pub open spec fn hour_length_spec(width: int, height: int, cfg: LayoutConfig) -> int {
    if floor_fires(width, height, cfg) {
        cfg.floor_hour_length as int
    } else if ceiling_fires(width, height, cfg) {
        cfg.ceiling_hour_length as int
    } else {
        shrink_by_ppm(base_radius_x(width, cfg), cfg.hour_shrink_ppm as int)
    }
}

/// The minute hand length, derived as `hour_length_spec` is.
pub open spec fn minute_length_spec(width: int, height: int, cfg: LayoutConfig) -> int {
    if floor_fires(width, height, cfg) {
        cfg.floor_minute_length as int
    } else if ceiling_fires(width, height, cfg) {
        cfg.ceiling_minute_length as int
    } else {
        shrink_by_ppm(base_radius_x(width, cfg), cfg.minute_shrink_ppm as int)
    }
}

/// The second hand length, derived as `hour_length_spec` is.
pub open spec fn second_length_spec(width: int, height: int, cfg: LayoutConfig) -> int {
    if floor_fires(width, height, cfg) {
        cfg.floor_second_length as int
    } else if ceiling_fires(width, height, cfg) {
        cfg.ceiling_second_length as int
    } else {
        shrink_by_ppm(base_radius_x(width, cfg), cfg.second_shrink_ppm as int)
    }
}

/// The three hand lengths for a window of `width` by `height` pixels. The
/// lengths always fit an `i64`, so the casts never truncate.
pub open spec fn hands_spec(width: int, height: int, cfg: LayoutConfig) -> HandSet {
    HandSet {
        hour_length: hour_length_spec(width, height, cfg) as i64,
        minute_length: minute_length_spec(width, height, cfg) as i64,
        second_length: second_length_spec(width, height, cfg) as i64,
    }
}

/// Reduces a length by a fraction of itself given in parts per million,
/// rounding down to the next hundredth of a pixel.
pub fn decrease_by_percentage(value: i64, ppm: u32) -> (r: i64)
    requires
        0 <= value <= LENGTH_MAX,
        ppm <= 1_000_000,
    ensures
        r == shrink_by_ppm(value as int, ppm as int),
        0 <= r <= value,
{
    proof {
        assert(value * (1_000_000 - ppm) <= value * 1_000_000) by (nonlinear_arith)
            requires
                0 <= value,
                0 <= ppm <= 1_000_000,
        ;
        assert(value * 1_000_000 / 1_000_000 == value);
        assert(value * (1_000_000 - ppm) >= 0) by (nonlinear_arith)
            requires
                0 <= value,
                ppm <= 1_000_000,
        ;
    }
    let numerator: u64 = (value as u64) * ((1_000_000 - ppm) as u64);
    (numerator / 1_000_000) as i64
}

/// Bounds and ordering that every computed layout grants: the dial is
/// well-formed, the horizontal radius respects the clamp bounds, and the
/// hands are positive, ordered hour < minute < second, and never longer
/// than the horizontal radius.
pub open spec fn layout_good(face: ClockFace, hands: HandSet, cfg: LayoutConfig) -> bool {
    &&& face.wf()
    &&& face.radius_x <= cfg.ceiling_radius
    &&& cfg.floor_radius <= face.radius_x
    &&& cfg.floor_radius <= face.radius_y
    &&& 0 < hands.hour_length < hands.minute_length < hands.second_length
    &&& hands.second_length <= face.radius_x
}

/// Strict ordering of two shrunken lengths when the fraction gap times the
/// smallest admitted radius clears one whole denominator.
proof fn lemma_shrink_ordered(v: int, big: int, small: int, vmin: int)
    requires
        0 <= small <= big <= 1_000_000,
        0 < vmin <= v,
        (big - small) * vmin >= 1_000_000,
    ensures
        shrink_by_ppm(v, big) < shrink_by_ppm(v, small),
{
    assert(v * (1_000_000 - big) + 1_000_000 <= v * (1_000_000 - small)) by (nonlinear_arith)
        requires
            0 <= small <= big,
            0 < vmin <= v,
            (big - small) * vmin >= 1_000_000,
    ;
    assert(shrink_by_ppm(v, big) < shrink_by_ppm(v, small)) by (nonlinear_arith)
        requires
            v * (1_000_000 - big) + 1_000_000 <= v * (1_000_000 - small),
            shrink_by_ppm(v, big) == v * (1_000_000 - big) / 1_000_000,
            shrink_by_ppm(v, small) == v * (1_000_000 - small) / 1_000_000,
    ;
}

/// A shrunken length is positive when the remaining fraction times the
/// smallest admitted radius clears one whole denominator.
proof fn lemma_shrink_positive(v: int, ppm: int, vmin: int)
    requires
        0 <= ppm < 1_000_000,
        0 < vmin <= v,
        (1_000_000 - ppm) * vmin >= 1_000_000,
    ensures
        0 < shrink_by_ppm(v, ppm),
{
    assert(v * (1_000_000 - ppm) >= 1_000_000) by (nonlinear_arith)
        requires
            0 <= ppm < 1_000_000,
            0 < vmin <= v,
            (1_000_000 - ppm) * vmin >= 1_000_000,
    ;
    assert(shrink_by_ppm(v, ppm) > 0) by (nonlinear_arith)
        requires
            v * (1_000_000 - ppm) >= 1_000_000,
            shrink_by_ppm(v, ppm) == v * (1_000_000 - ppm) / 1_000_000,
    ;
}

/// A shrunken length never exceeds the length it came from.
proof fn lemma_shrink_le(v: int, ppm: int)
    requires
        0 <= ppm <= 1_000_000,
        0 <= v,
    ensures
        shrink_by_ppm(v, ppm) <= v,
{
    assert(v * (1_000_000 - ppm) <= v * 1_000_000) by (nonlinear_arith)
        requires
            0 <= ppm <= 1_000_000,
            0 <= v,
    ;
    assert(v * 1_000_000 / 1_000_000 == v);
}

/// Derives the dial and the hand lengths for the current window size,
/// applying the floor snap and then the ceiling snap.
pub fn compute_layout(width_px: u32, height_px: u32, cfg: &LayoutConfig) -> (r: (
    ClockFace,
    HandSet,
))
    requires
        cfg.wf(),
        width_px <= 1_000_000,
        height_px <= 1_000_000,
    ensures
        r.0 == face_spec(width_px as int, height_px as int, *cfg),
        r.1 == hands_spec(width_px as int, height_px as int, *cfg),
        r.0.center_x == 50 * width_px,
        r.0.center_y == 50 * height_px,
        r.0.radius_x == radius_x_spec(width_px as int, height_px as int, *cfg),
        r.0.radius_y == radius_y_spec(width_px as int, height_px as int, *cfg),
        r.1.hour_length == hour_length_spec(width_px as int, height_px as int, *cfg),
        r.1.minute_length == minute_length_spec(width_px as int, height_px as int, *cfg),
        r.1.second_length == second_length_spec(width_px as int, height_px as int, *cfg),
        layout_good(r.0, r.1, *cfg),
{
    let center_x: i64 = 50 * (width_px as i64);
    let center_y: i64 = 50 * (height_px as i64);
    let base_rx: i64 = center_x - cfg.margin_x;
    let base_ry: i64 = center_y - cfg.margin_y;

    let mut radius_x: i64 = base_rx;
    let mut radius_y: i64 = base_ry;
    let mut hands: HandSet;

    if base_rx < cfg.floor_radius || base_ry < cfg.floor_radius {
        radius_x = cfg.floor_radius;
        radius_y = cfg.floor_radius;
        hands = HandSet {
            hour_length: cfg.floor_hour_length,
            minute_length: cfg.floor_minute_length,
            second_length: cfg.floor_second_length,
        };
    } else {
        hands = HandSet {
            hour_length: decrease_by_percentage(base_rx, cfg.hour_shrink_ppm),
            minute_length: decrease_by_percentage(base_rx, cfg.minute_shrink_ppm),
            second_length: decrease_by_percentage(base_rx, cfg.second_shrink_ppm),
        };
        proof {
            lemma_shrink_ordered(
                base_rx as int,
                cfg.hour_shrink_ppm as int,
                cfg.minute_shrink_ppm as int,
                cfg.floor_radius as int,
            );
            lemma_shrink_ordered(
                base_rx as int,
                cfg.minute_shrink_ppm as int,
                cfg.second_shrink_ppm as int,
                cfg.floor_radius as int,
            );
            lemma_shrink_positive(
                base_rx as int,
                cfg.hour_shrink_ppm as int,
                cfg.floor_radius as int,
            );
            lemma_shrink_le(base_rx as int, cfg.second_shrink_ppm as int);
        }
    }
    if radius_x > cfg.ceiling_radius {
        radius_x = cfg.ceiling_radius;
        hands = HandSet {
            hour_length: cfg.ceiling_hour_length,
            minute_length: cfg.ceiling_minute_length,
            second_length: cfg.ceiling_second_length,
        };
    }
    let face = ClockFace { center_x, center_y, radius_x, radius_y };
    (face, hands)
}

/// The two-tier clamp keeps every layout sound, whatever the window size:
/// both radii at or above the floor, the horizontal radius at or under the
/// ceiling, the hand lengths positive and ordered hour < minute < second,
/// and the longest hand never past the horizontal radius. Hands can neither
/// escape the dial nor collapse to nothing.
pub proof fn lemma_clamp_keeps_hands_inside(width: int, height: int, cfg: LayoutConfig)
    requires
        cfg.wf(),
    ensures
        cfg.floor_radius <= radius_x_spec(width, height, cfg) <= cfg.ceiling_radius,
        cfg.floor_radius <= radius_y_spec(width, height, cfg),
        0 < hour_length_spec(width, height, cfg),
        hour_length_spec(width, height, cfg) < minute_length_spec(width, height, cfg),
        minute_length_spec(width, height, cfg) < second_length_spec(width, height, cfg),
        second_length_spec(width, height, cfg) <= radius_x_spec(width, height, cfg),
{
    if !floor_fires(width, height, cfg) && !ceiling_fires(width, height, cfg) {
        let rx = base_radius_x(width, cfg);
        lemma_shrink_ordered(
            rx,
            cfg.hour_shrink_ppm as int,
            cfg.minute_shrink_ppm as int,
            cfg.floor_radius as int,
        );
        lemma_shrink_ordered(
            rx,
            cfg.minute_shrink_ppm as int,
            cfg.second_shrink_ppm as int,
            cfg.floor_radius as int,
        );
        lemma_shrink_positive(rx, cfg.hour_shrink_ppm as int, cfg.floor_radius as int);
        lemma_shrink_le(rx, cfg.second_shrink_ppm as int);
    }
}

/// When both proportional radii lie between the floor and, horizontally, the
/// ceiling, the dial keeps them unchanged: radius_x is half the width minus
/// the horizontal margin, radius_y half the height minus the vertical one.
pub proof fn lemma_unclamped_radii(width: int, height: int, cfg: LayoutConfig)
    requires
        cfg.wf(),
        base_radius_x(width, cfg) >= cfg.floor_radius,
        base_radius_x(width, cfg) <= cfg.ceiling_radius,
        base_radius_y(height, cfg) >= cfg.floor_radius,
    ensures
        radius_x_spec(width, height, cfg) == base_radius_x(width, cfg),
        radius_y_spec(width, height, cfg) == base_radius_y(height, cfg),
{
}

} // verus!
