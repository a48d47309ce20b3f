use vstd::prelude::*;
use crate::geom::{clamp_spec, clamp_i64, scaled, scaled_exec};

verus! {

/// One tick's input snapshot. The horizontal axis is normalized to
/// milli-units in `[-1000, 1000]`; the two booleans are the shoot request
/// and the raw button level.
#[derive(Clone, Copy, Debug)]
pub struct InputState {
    pub horizontal_movement: i64,
    pub shoot_requested: bool,
    pub shoot_button_pressed: bool,
}

impl InputState {
    pub open spec fn wf(self) -> bool {
        -1_000 <= self.horizontal_movement <= 1_000
    }
}

/// The neutral snapshot a failed device read degrades to: no movement,
/// no shot requested.
pub fn neutral_input() -> (s: InputState)
    ensures
        s.horizontal_movement == 0,
        !s.shoot_requested,
        !s.shoot_button_pressed,
        s.wf(),
{
    InputState { horizontal_movement: 0, shoot_requested: false, shoot_button_pressed: false }
}

/// A register pair read from a gyroscope, as a signed 16-bit word:
/// high byte shifted up, low byte below it, two's complement.
pub open spec fn gyro_word_spec(hi: u8, lo: u8) -> int {
    let w = (hi as int) * 256 + (lo as int);
    if w < 32_768 {
        w
    } else {
        w - 65_536
    }
}

pub fn decode_gyro_word(hi: u8, lo: u8) -> (r: i16)
    ensures
        r as int == gyro_word_spec(hi, lo),
{
    let w: u16 = (hi as u16) * 256 + (lo as u16);
    if w < 32_768 {
        w as i16
    } else {
        -((65_535 - w) as i16) - 1
    }
}

/// Raw gyro counts per degree of tilt, times degrees of full deflection:
/// the divisor that maps a raw word onto the normalized axis.
pub const TILT_FULL_SCALE: i64 = 11_790;

/// Normalize a raw tilt word onto the milli-unit axis, clamped to
/// `[-1000, 1000]`.
pub fn normalize_tilt(raw: i16) -> (axis: i64)
    ensures
        axis as int == clamp_spec(
            scaled(raw as int, 1_000, TILT_FULL_SCALE as int),
            -1_000,
            1_000,
        ),
        -1_000 <= axis <= 1_000,
{
    let s: i64 = scaled_exec(raw as i64, 1_000, TILT_FULL_SCALE);
    clamp_i64(s, -1_000, 1_000)
}

/// Raw gyro counts corresponding to the tilt angle that triggers a shot.
pub const TILT_TRIGGER: i64 = 1_965;

/// Does a raw vertical-tilt word exceed the firing threshold?
pub fn tilt_fires(raw: i16) -> (b: bool)
    ensures
        b == (raw as int > TILT_TRIGGER as int),
{
    (raw as i64) > TILT_TRIGGER
}

/// The keyboard scheme's axis: left and right keys pull the milli-axis to
/// its ends and cancel when held together.
pub fn axis_from_keys(left: bool, right: bool) -> (axis: i64)
    ensures
        axis == (if right { 1_000int } else { 0int }) - (if left { 1_000int } else { 0int }),
        -1_000 <= axis <= 1_000,
{
    let mut axis: i64 = 0;
    if left {
        axis = axis - 1_000;
    }
    if right {
        axis = axis + 1_000;
    }
    axis
}

} // verus!
