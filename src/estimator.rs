//! The capabilities shared by the attitude estimators, so that a loop can use
//! either filter.
use vstd::prelude::*;
use crate::kalman::KalmanFilter;
use crate::complementary::ComplementaryFilter;

verus! {

/// An attitude estimator: it fuses an accelerometer angle with a gyro rate
/// once per cycle, can coast when a read fails, and can be seeded.
pub trait AttitudeEstimator: Sized {
    /// The current angle estimate.
    spec fn estimate(&self) -> int;

    /// The rate of the last step.
    spec fn last_rate(&self) -> int;

    /// Advances by `dt` with new sensor data; returns the new estimate.
    fn update(&mut self, measured_angle: i64, measured_rate: i64, dt: i64) -> (r: i64)
        ensures
            r == final(self).estimate(),
    ;

    /// Advances by `dt` without sensor data; returns the new estimate.
    fn update_no_input(&mut self, dt: i64) -> (r: i64)
        ensures
            r == final(self).estimate(),
    ;

    /// Overwrites the estimate.
    fn set_angle(&mut self, angle: i64)
        ensures
            final(self).estimate() == angle,
    ;

    /// The current estimate.
    fn get_angle(&self) -> (r: i64)
        ensures
            r == self.estimate(),
    ;

    /// The rate used in the last step.
    fn get_rate(&self) -> (r: i64)
        ensures
            r == self.last_rate(),
    ;
}

impl AttitudeEstimator for KalmanFilter {
    open spec fn estimate(&self) -> int {
        self@.angle as int
    }

    open spec fn last_rate(&self) -> int {
        self@.rate as int
    }

    fn update(&mut self, measured_angle: i64, measured_rate: i64, dt: i64) -> (r: i64) {
        KalmanFilter::update(self, measured_angle, measured_rate, dt)
    }

    fn update_no_input(&mut self, dt: i64) -> (r: i64) {
        KalmanFilter::update_no_input(self, dt)
    }

    fn set_angle(&mut self, angle: i64) {
        KalmanFilter::set_angle(self, angle)
    }

    fn get_angle(&self) -> (r: i64) {
        KalmanFilter::get_angle(self)
    }

    fn get_rate(&self) -> (r: i64) {
        KalmanFilter::get_rate(self)
    }
}

impl AttitudeEstimator for ComplementaryFilter {
    open spec fn estimate(&self) -> int {
        self@.angle as int
    }

    open spec fn last_rate(&self) -> int {
        self@.rate as int
    }

    fn update(&mut self, measured_angle: i64, measured_rate: i64, dt: i64) -> (r: i64) {
        ComplementaryFilter::update(self, measured_angle, measured_rate, dt)
    }

    fn update_no_input(&mut self, dt: i64) -> (r: i64) {
        ComplementaryFilter::update_no_input(self, dt)
    }

    fn set_angle(&mut self, angle: i64) {
        ComplementaryFilter::set_angle(self, angle)
    }

    fn get_angle(&self) -> (r: i64) {
        ComplementaryFilter::get_angle(self)
    }

    fn get_rate(&self) -> (r: i64) {
        ComplementaryFilter::get_rate(self)
    }
}

} // verus!
