//! Complementary filter: a simpler alternative to the Kalman filter.
use vstd::prelude::*;
use crate::fixed::{self, add_spec, sub_spec, mul_spec, SCALE};

verus! {

/// What the complementary filter holds: the angle estimate, the last gyro
/// rate and the weight `alpha` given to the integrated gyro angle.
#[derive(Clone, Copy, Debug, PartialEq, Eq, Structural)]
pub struct ComplementaryState {
    pub angle: i64,
    pub rate: i64,
    pub alpha: i64,
}

/// One step: the gyro rate integrated over `dt` proposes an angle, which is
/// blended with the accelerometer angle as
/// `alpha * (angle + rate * dt) + (1 - alpha) * accel_angle`.
pub open spec fn complementary_step(
    s: ComplementaryState,
    accel_angle: int,
    gyro_rate: int,
    dt: int,
) -> ComplementaryState {
    let gyro_angle = add_spec(s.angle as int, mul_spec(gyro_rate, dt));
    ComplementaryState {
        angle: add_spec(
            mul_spec(s.alpha as int, gyro_angle),
            mul_spec(sub_spec(SCALE as int, s.alpha as int), accel_angle),
        ) as i64,
        rate: gyro_rate as i64,
        alpha: s.alpha,
    }
}

/// A complementary filter on fixed-point values.
pub struct ComplementaryFilter {
    state: ComplementaryState,
}

impl View for ComplementaryFilter {
    type V = ComplementaryState;

    closed spec fn view(&self) -> ComplementaryState {
        self.state
    }
}

impl ComplementaryFilter {
    /// A filter at angle zero and rate zero, blending with weight `alpha`.
    pub fn new(alpha: i64) -> (r: Self)
        ensures
            r@ == (ComplementaryState { angle: 0, rate: 0, alpha }),
    {
        ComplementaryFilter { state: ComplementaryState { angle: 0, rate: 0, alpha } }
    }

    /// Advances the filter by `dt` with an accelerometer angle and a gyro
    /// rate, and returns the new angle estimate.
    pub fn update(&mut self, accel_angle: i64, gyro_x: i64, dt: i64) -> (r: i64)
        ensures
            final(self)@ == complementary_step(old(self)@, accel_angle as int, gyro_x as int, dt as int),
            r == final(self)@.angle,
    {
        let s = self.state;
        let gyro_angle = fixed::add(s.angle, fixed::mul(gyro_x, dt));
        let angle = fixed::add(
            fixed::mul(s.alpha, gyro_angle),
            fixed::mul(fixed::sub(SCALE, s.alpha), accel_angle),
        );
        self.state = ComplementaryState { angle, rate: gyro_x, alpha: s.alpha };
        angle
    }

    /// Advances the filter by `dt` when no sensor data came in: its own angle
    /// and rate stand in for the measurements.
    pub fn update_no_input(&mut self, dt: i64) -> (r: i64)
        ensures
            final(self)@ == complementary_step(old(self)@, old(self)@.angle as int, old(self)@.rate as int, dt as int),
            r == final(self)@.angle,
    {
        let angle = self.get_angle();
        let rate = self.get_rate();
        self.update(angle, rate, dt)
    }

    /// Overwrites the angle estimate.
    pub fn set_angle(&mut self, angle: i64)
        ensures
            final(self)@ == (ComplementaryState { angle, ..old(self)@ }),
    {
        self.state.angle = angle;
    }

    /// The current angle estimate.
    pub fn get_angle(&self) -> (r: i64)
        ensures
            r == self@.angle,
    {
        self.state.angle
    }

    /// The gyro rate of the last step.
    pub fn get_rate(&self) -> (r: i64)
        ensures
            r == self@.rate,
    {
        self.state.rate
    }
}

} // verus!
