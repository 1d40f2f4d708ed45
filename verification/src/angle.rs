//! Mapping of time unit values to hand directions.
//!
//! An angle is a count of `pi/360` radian units, so a full turn is 720 units
//! and the quarter turn that rotates zero onto the 12 o'clock position is 180
//! units. Angle zero points right (+X) and angles grow clockwise on a screen
//! whose Y axis points down.

use vstd::prelude::*;

verus! {

/// Units in a quarter turn (pi / 2 radians): the offset that moves the zero
/// of a time unit from the +X direction up to the 12 o'clock position.
pub const QUARTER_TURN: i64 = 180;

/// Direction of a time unit hand: `value` steps out of `period` around the
/// dial, rotated back by `offset` units.
pub open spec fn angle_units(value: int, period: int, offset: int) -> int
    recommends
        0 < period <= 720,
        720int % period == 0,
{
    value * (720int / period) - offset
}

/// Angle of the hour hand with `hours` on the dial and `minutes` past the
/// hour: the hand creeps by one unit (pi/360) per minute instead of jumping
/// on the hour.
pub open spec fn hour_angle_units(hours: int, minutes: int) -> int {
    hours * 60 + minutes - 180
}

/// Converts a time unit value into a direction angle, in pi/360 units.
pub fn calculate_angle(value: u64, max_value: u64, offset: i64) -> (r: i64)
    requires
        0 < max_value <= 720,
        720u64 % max_value == 0,
        value <= max_value,
        -720 <= offset <= 720,
    ensures
        r == angle_units(value as int, max_value as int, offset as int),
{
    let step: u64 = 720 / max_value;
    assert(step <= 720) by (nonlinear_arith)
        requires
            step == 720 as int / max_value as int,
            0 < max_value,
    ;
    assert(value * step <= 720 * 720) by (nonlinear_arith)
        requires
            0 <= value <= 720,
            0 <= step <= 720,
    ;
    (value * step) as i64 - offset
}

/// Angle of the hour hand, in pi/360 units, from whole hours and minutes.
pub fn hour_hand_angle(hours: u64, minutes: u64) -> (r: i64)
    requires
        hours < 12,
        minutes < 60,
    ensures
        r == hour_angle_units(hours as int, minutes as int),
{
    (hours * 60 + minutes) as i64 - QUARTER_TURN
}

/// The hour hand creeps: with `minutes` past hour `hours`, the hour hand
/// points exactly where the plain angle map sends the fractional hour value
/// `hours + minutes/60`, measured in sixtieths of an hour over a period of
/// 720 sixtieths.
pub proof fn lemma_hour_hand_creep(hours: int, minutes: int)
    requires
        0 <= hours < 12,
        0 <= minutes < 60,
    ensures
        hour_angle_units(hours, minutes) == angle_units(60 * hours + minutes, 720, 180),
{
    assert(720int / 720 == 1);
    assert((60 * hours + minutes) * (720int / 720) == 60 * hours + minutes) by (nonlinear_arith);
}

} // verus!
