use vstd::prelude::*;

verus! {

/// Lowest pitch-bend value an oscillator keeps.
pub const MIN_PITCH_BEND: i16 = -8192;

/// Highest pitch-bend value an oscillator keeps.
pub const MAX_PITCH_BEND: i16 = 8191;

/// Number of steps of the normalised pitch-bend control; the middle step is
/// no bend.
pub const PITCH_BEND_STEPS: i32 = 16384;

/// `bend * 1200 / 8192` cents, rounded to the nearest whole cent with halves
/// rounded away from zero. A full bend of 8192 is 1200 cents.
pub open spec fn spec_bend_cents(bend: int) -> int {
    if bend >= 0 {
        (bend * 75 + 256) / 512
    } else {
        -((-bend * 75 + 256) / 512)
    }
}

/// The whole number of cents that a pitch bend shifts a note by.
pub fn bend_cents(pitch_bend: i16) -> (r: i32)
    ensures
        r == spec_bend_cents(pitch_bend as int),
{
    let b: i32 = pitch_bend as i32;
    if b >= 0 {
        (b * 75 + 256) / 512
    } else {
        -(((-b) * 75 + 256) / 512)
    }
}

/// The pitch bend for step `steps` of the normalised control: the middle
/// step is no bend, and a step outside the range is clamped to it.
pub open spec fn spec_pitch_bend_from_steps(steps: int) -> int {
    let b = steps - PITCH_BEND_STEPS / 2;
    if b < MIN_PITCH_BEND {
        MIN_PITCH_BEND as int
    } else if b > MAX_PITCH_BEND {
        MAX_PITCH_BEND as int
    } else {
        b
    }
}

pub fn pitch_bend_from_steps(steps: i32) -> (r: i16)
    ensures
        r == spec_pitch_bend_from_steps(steps as int),
        MIN_PITCH_BEND <= r <= MAX_PITCH_BEND,
{
    let b: i64 = steps as i64 - (PITCH_BEND_STEPS / 2) as i64;
    if b < MIN_PITCH_BEND as i64 {
        MIN_PITCH_BEND
    } else if b > MAX_PITCH_BEND as i64 {
        MAX_PITCH_BEND
    } else {
        b as i16
    }
}

} // verus!
