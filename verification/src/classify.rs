//! Threshold classification of acceleration readings.
//!
//! A reading is a triplet of axis accelerations in milli-g. Its squared
//! magnitude is compared against the square of a 0.5 g threshold: below the
//! threshold the device is taken to be in free fall, at or above it the
//! device is taken to be stationary (resting gravity gives a squared
//! magnitude near 1_000_000).

use vstd::prelude::*;

verus! {

/// Squared magnitude, in milli-g squared, below which a reading counts as
/// free fall. The boundary value itself counts as stationary.
pub const FALLING_THRESHOLD: i32 = 500 * 500;

/// Verdict of the classifier on one acceleration reading.
#[derive(Clone, Copy, PartialEq, Eq, Structural, Debug)]
pub enum Verdict {
    Stationary,
    Falling,
}

/// One accelerometer reading: axis accelerations in milli-g.
#[derive(Clone, Copy, PartialEq, Eq, Structural, Debug)]
pub struct AccelerationSample {
    pub x: i32,
    pub y: i32,
    pub z: i32,
}

/// Squared magnitude of an acceleration vector.
pub open spec fn mag2_spec(x: int, y: int, z: int) -> int {
    x * x + y * y + z * z
}

/// Squared magnitude of a reading.
pub open spec fn sample_mag2(s: AccelerationSample) -> int {
    mag2_spec(s.x as int, s.y as int, s.z as int)
}

/// `Falling` exactly when the squared magnitude is strictly below the
/// threshold; the boundary itself is `Stationary`.
pub open spec fn classify_spec(mag2: int) -> Verdict {
    if mag2 < FALLING_THRESHOLD {
        Verdict::Falling
    } else {
        Verdict::Stationary
    }
}

/// Squared magnitude of the acceleration vector `(x, y, z)`, in milli-g
/// squared.
pub fn squared_magnitude(x: i32, y: i32, z: i32) -> (m: i32)
    requires
        mag2_spec(x as int, y as int, z as int) <= i32::MAX,
    ensures
        m == mag2_spec(x as int, y as int, z as int),
{
    proof {
        lemma_square_nonneg(x as int);
        lemma_square_nonneg(y as int);
        lemma_square_nonneg(z as int);
    }
    x * x + y * y + z * z
}

proof fn lemma_square_nonneg(a: int)
    ensures
        a * a >= 0,
{
    assert(a * a >= 0) by (nonlinear_arith);
}

/// Classifies a squared magnitude: `Falling` iff it is strictly below
/// `FALLING_THRESHOLD`. Pure and total.
pub fn classify(mag2: i32) -> (v: Verdict)
    ensures
        v == classify_spec(mag2 as int),
{
    if mag2 < FALLING_THRESHOLD {
        Verdict::Falling
    } else {
        Verdict::Stationary
    }
}

} // verus!
