//! One cycle of the balancing loop: estimate, control, map to the motors.
//!
//! The caller reads the sensor, hands the result to [`Balancer::step`], applies
//! the motor command it returns, and waits out the rest of the period.
use vstd::prelude::*;
use crate::fixed::{self, add_spec, sub_spec, mul_spec, div_spec, SCALE};
use crate::kalman::{
    KalmanFilter, KalmanState, kalman_step, coast_step, predict,
    lemma_coast_between_hold_and_extrapolation,
};
use crate::pid::{Controller, ControllerState, controller_step, controller_output};
use crate::motor::{MotorCommand, map_motors, command_spec};

verus! {

/// Length of one cycle, in milliseconds.
pub const LOOP_PERIOD_MILLIS: u8 = 3;

/// Length of one cycle, in fixed-point seconds.
pub const LOOP_PERIOD: i64 = 3_000_000_000;

/// Upright tilt, in fixed-point degrees, in the sensor's mounting frame.
pub const TARGET_ANGLE: i64 = -94_000_000_000_000;

pub const K_P: i64 = 250_000_000_000;
pub const K_I: i64 = 0;
pub const K_D: i64 = 1_000_000_000;

/// Kalman process variance of the angle.
pub const Q_ANGLE: i64 = 100_000_000;

/// Kalman process variance of the gyro bias.
pub const Q_BIAS: i64 = 30_000_000_000;

/// Kalman measurement variance of the accelerometer angle.
pub const R_MEASURE: i64 = 200_000_000;

/// Mean gyro reading at rest, in fixed-point degrees per second.
pub const GYRO_MEAN: i64 = -300_000_000_000;

/// Gyro sensitivity: raw reading per unit of rate.
pub const GYRO_SENSITIVITY: i64 = 131_000_000_000_000;

/// Weight of a new tilt observation against the previous one when smoothing.
pub const TILT_SMOOTHING: i64 = 300_000_000_000;

/// Smoothed tilt assumed before the first observation: a quarter turn in
/// fixed-point radians.
pub const INITIAL_TILT: i64 = 1_570_796_326_795;

/// Degrees per radian, in fixed point.
pub const DEGREES_PER_RADIAN: i64 = 57_295_779_513_082;

/// One successful sensor read: the gyro's rate about the pitch axis as
/// read (fixed-point degrees per second, before calibration), and the tilt
/// seen by the accelerometer (fixed-point radians).
#[derive(Clone, Copy, Debug, PartialEq, Eq, Structural)]
pub struct ImuSample {
    pub gyro_x: i64,
    pub tilt: i64,
}

/// What a cycle with a sensor reading produced: the motor command, and for
/// telemetry the smoothed observed tilt and the filtered tilt (both in
/// fixed-point degrees relative to the target), the calibrated gyro rate and
/// the controller output.
#[derive(Clone, Copy, Debug, PartialEq, Eq, Structural)]
pub struct CycleReport {
    pub command: MotorCommand,
    pub observed_angle: i64,
    pub gyro_rate: i64,
    pub estimated_angle: i64,
    pub control_output: i64,
}

/// Everything the loop carries from one cycle to the next.
#[derive(Clone, Copy, Debug, PartialEq, Eq, Structural)]
pub struct BalancerState {
    pub filter: KalmanState,
    pub controller: ControllerState,
    pub smoothing: i64,
    pub last_tilt: i64,
    pub dt: i64,
}

/// The gyro rate with its resting mean removed, scaled by the sensitivity.
pub open spec fn calibrated_rate(raw: int) -> int {
    div_spec(sub_spec(raw, GYRO_MEAN as int), GYRO_SENSITIVITY as int)
}

/// A new tilt observation blended with the previous smoothed one.
pub open spec fn smoothed_tilt(tilt: int, last: int, weight: int) -> int {
    add_spec(mul_spec(weight, tilt), mul_spec(sub_spec(SCALE as int, weight), last))
}

/// A fixed-point angle in radians, in degrees.
pub open spec fn degrees(radians: int) -> int {
    mul_spec(radians, DEGREES_PER_RADIAN as int)
}

/// The state after a cycle with a sensor reading.
pub open spec fn cycle_state(s: BalancerState, sample: ImuSample) -> BalancerState {
    let tilt = smoothed_tilt(sample.tilt as int, s.last_tilt as int, s.smoothing as int);
    let filter = kalman_step(s.filter, tilt, calibrated_rate(sample.gyro_x as int), s.dt as int);
    BalancerState {
        filter,
        controller: controller_step(s.controller, degrees(filter.angle as int), s.dt as int),
        last_tilt: tilt as i64,
        ..s
    }
}

/// What a cycle with a sensor reading reports.
pub open spec fn cycle_report(s: BalancerState, sample: ImuSample) -> CycleReport {
    let next = cycle_state(s, sample);
    let target = s.controller.target_value as int;
    let estimated = degrees(next.filter.angle as int);
    let output = controller_output(next.controller);
    CycleReport {
        command: command_spec(output, estimated, target),
        observed_angle: sub_spec(degrees(next.last_tilt as int), target) as i64,
        gyro_rate: calibrated_rate(sample.gyro_x as int) as i64,
        estimated_angle: sub_spec(estimated, target) as i64,
        control_output: output as i64,
    }
}

/// The state after a cycle whose sensor read failed: the filter coasts on
/// its own estimate, and nothing else changes.
pub open spec fn failed_cycle_state(s: BalancerState) -> BalancerState {
    BalancerState { filter: coast_step(s.filter, s.dt as int), ..s }
}

/// A cycle whose read failed leaves the controller and the tilt smoothing as
/// they were, and ends with the filter's angle between the angle it held and
/// that angle extrapolated over one period (for a predicted angle variance
/// and a measurement variance that are not negative).
pub proof fn lemma_failed_cycle_coasts(s: BalancerState)
    requires
        predict(s.filter, s.filter.rate as int, s.dt as int).p00 >= 0,
        s.filter.r_measure >= 0,
    ensures
        ({
            let next = failed_cycle_state(s);
            let held = s.filter.angle;
            let extrapolated = predict(s.filter, s.filter.rate as int, s.dt as int).angle;
            &&& next.controller == s.controller
            &&& next.last_tilt == s.last_tilt
            &&& held <= extrapolated ==> held <= next.filter.angle <= extrapolated
            &&& extrapolated <= held ==> extrapolated <= next.filter.angle <= held
        }),
{
    lemma_coast_between_hold_and_extrapolation(s.filter, s.dt as i64);
}

/// Calibrates a raw gyro reading.
pub fn calibrate_rate(raw: i64) -> (r: i64)
    ensures
        r == calibrated_rate(raw as int),
{
    fixed::div(fixed::sub(raw, GYRO_MEAN), GYRO_SENSITIVITY)
}

/// Converts a fixed-point angle from radians to degrees.
pub fn to_degrees(radians: i64) -> (r: i64)
    ensures
        r == degrees(radians as int),
{
    fixed::mul(radians, DEGREES_PER_RADIAN)
}

/// The estimator, the controller and the smoothing of the tilt observation,
/// advanced once per cycle.
pub struct Balancer {
    filter: KalmanFilter,
    controller: Controller,
    smoothing: i64,
    last_tilt: i64,
    dt: i64,
}

impl View for Balancer {
    type V = BalancerState;

    closed spec fn view(&self) -> BalancerState {
        BalancerState {
            filter: self.filter@,
            controller: self.controller@,
            smoothing: self.smoothing,
            last_tilt: self.last_tilt,
            dt: self.dt,
        }
    }
}

impl Balancer {
    /// Whether the loop can run: its period is positive.
    pub open spec fn wf(&self) -> bool {
        self@.dt > 0
    }

    /// A loop over the given filter and controller, with period `dt`. Each
    /// tilt observation is blended with weight `smoothing` against the
    /// previous one, starting from `initial_tilt`.
    pub fn new(
        filter: KalmanFilter,
        controller: Controller,
        smoothing: i64,
        initial_tilt: i64,
        dt: i64,
    ) -> (r: Self)
        requires
            dt > 0,
        ensures
            r.wf(),
            r@ == (BalancerState {
                filter: filter@,
                controller: controller@,
                smoothing,
                last_tilt: initial_tilt,
                dt,
            }),
    {
        Balancer { filter, controller, smoothing, last_tilt: initial_tilt, dt }
    }

    /// The loop with the robot's own tuning.
    pub fn robot() -> (r: Self)
        ensures
            r.wf(),
            r@ == (BalancerState {
                filter: KalmanState {
                    angle: 0,
                    bias: 0,
                    rate: 0,
                    p00: 0,
                    p01: 0,
                    p10: 0,
                    p11: 0,
                    q_angle: Q_ANGLE,
                    q_bias: Q_BIAS,
                    r_measure: R_MEASURE,
                },
                controller: ControllerState {
                    target_value: TARGET_ANGLE,
                    k_p: K_P,
                    k_i: K_I,
                    k_d: K_D,
                    e_t: 0,
                    e_i: 0,
                    e_d: 0,
                },
                smoothing: TILT_SMOOTHING,
                last_tilt: INITIAL_TILT,
                dt: LOOP_PERIOD,
            }),
    {
        Balancer::new(
            KalmanFilter::new(Q_ANGLE, Q_BIAS, R_MEASURE),
            Controller::new(TARGET_ANGLE, K_P, K_I, K_D),
            TILT_SMOOTHING,
            INITIAL_TILT,
            LOOP_PERIOD,
        )
    }

    /// Runs one cycle. With a sensor reading, the smoothed tilt and the
    /// calibrated rate go through the filter, the filtered angle through the
    /// controller, and its output to the motor mapper; the report holds the
    /// command to apply. Without one the filter coasts on its own estimate,
    /// the controller is left alone, and no command is issued.
    pub fn step(&mut self, reading: Option<ImuSample>) -> (r: Option<CycleReport>)
        requires
            old(self).wf(),
        ensures
            final(self).wf(),
            match reading {
                Some(sample) => {
                    &&& final(self)@ == cycle_state(old(self)@, sample)
                    &&& r == Some(cycle_report(old(self)@, sample))
                },
                None => {
                    &&& final(self)@ == failed_cycle_state(old(self)@)
                    &&& r.is_none()
                },
            },
    {
        match reading {
            Some(sample) => {
                let tilt = fixed::add(
                    fixed::mul(self.smoothing, sample.tilt),
                    fixed::mul(fixed::sub(SCALE, self.smoothing), self.last_tilt),
                );
                self.last_tilt = tilt;
                let rate = calibrate_rate(sample.gyro_x);
                let estimated_radians = self.filter.update(tilt, rate, self.dt);
                let estimated = to_degrees(estimated_radians);
                let output = self.controller.update(estimated, self.dt);
                let target = self.target_angle();
                let command = map_motors(output, estimated, target);
                Some(CycleReport {
                    command,
                    observed_angle: fixed::sub(to_degrees(tilt), target),
                    gyro_rate: rate,
                    estimated_angle: fixed::sub(estimated, target),
                    control_output: output,
                })
            },
            None => {
                self.filter.update_no_input(self.dt);
                None
            },
        }
    }

    /// The tilt the controller steers toward.
    pub fn target_angle(&self) -> (r: i64)
        ensures
            r == self@.controller.target_value,
    {
        self.controller.target_value()
    }

    /// The filter's current angle estimate, in fixed-point radians.
    pub fn estimated_angle(&self) -> (r: i64)
        ensures
            r == self@.filter.angle,
    {
        self.filter.get_angle()
    }

    /// The period of one cycle, in fixed-point seconds.
    pub fn period(&self) -> (r: i64)
        ensures
            r == self@.dt,
    {
        self.dt
    }
}

} // verus!
