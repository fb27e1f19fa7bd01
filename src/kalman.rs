//! Two-state (angle, gyro bias) Kalman filter for the tilt angle.
use vstd::prelude::*;
use crate::fixed::{self, add_spec, sub_spec, mul_spec, div_spec};

verus! {

/// Everything the Kalman filter holds, in fixed point: the angle estimate,
/// the estimated gyro bias, the last unbiased rate, the 2x2 error covariance
/// `p` and the three noise variances it was tuned with.
#[derive(Clone, Copy, Debug, PartialEq, Eq, Structural)]
pub struct KalmanState {
    pub angle: i64,
    pub bias: i64,
    pub rate: i64,
    pub p00: i64,
    pub p01: i64,
    pub p10: i64,
    pub p11: i64,
    pub q_angle: i64,
    pub q_bias: i64,
    pub r_measure: i64,
}

/// The state right after the prediction step: the angle moved on by the
/// unbiased rate over `dt`, and the covariance grown by the process noise.
pub open spec fn predict(s: KalmanState, new_rate: int, dt: int) -> KalmanState {
    let rate = sub_spec(new_rate, s.bias as int);
    let inner = add_spec(
        sub_spec(sub_spec(mul_spec(dt, s.p11 as int), s.p01 as int), s.p10 as int),
        s.q_angle as int,
    );
    KalmanState {
        angle: add_spec(s.angle as int, mul_spec(dt, rate)) as i64,
        rate: rate as i64,
        p00: add_spec(s.p00 as int, mul_spec(dt, inner)) as i64,
        p01: sub_spec(s.p01 as int, mul_spec(dt, s.p11 as int)) as i64,
        p10: sub_spec(s.p10 as int, mul_spec(dt, s.p11 as int)) as i64,
        p11: add_spec(s.p11 as int, mul_spec(s.q_bias as int, dt)) as i64,
        ..s
    }
}

/// The two Kalman gains for a predicted state; both are zero where the
/// innovation covariance `p00 + r_measure` is zero.
pub open spec fn gains(s: KalmanState) -> (int, int) {
    let cov = add_spec(s.p00 as int, s.r_measure as int);
    if cov == 0 {
        (0, 0)
    } else {
        (div_spec(s.p00 as int, cov), div_spec(s.p10 as int, cov))
    }
}

/// The state after the measurement `measured_angle` corrects a predicted state.
pub open spec fn correct(s: KalmanState, measured_angle: int) -> KalmanState {
    let y = sub_spec(measured_angle, s.angle as int);
    let k0 = gains(s).0;
    let k1 = gains(s).1;
    KalmanState {
        angle: add_spec(s.angle as int, mul_spec(k0, y)) as i64,
        bias: add_spec(s.bias as int, mul_spec(k1, y)) as i64,
        p00: sub_spec(s.p00 as int, mul_spec(k0, s.p00 as int)) as i64,
        p01: sub_spec(s.p01 as int, mul_spec(k0, s.p01 as int)) as i64,
        p10: sub_spec(s.p10 as int, mul_spec(k1, s.p00 as int)) as i64,
        p11: sub_spec(s.p11 as int, mul_spec(k1, s.p01 as int)) as i64,
        ..s
    }
}

/// One full filter step: prediction with the gyro rate, then correction with
/// the accelerometer angle.
pub open spec fn kalman_step(
    s: KalmanState,
    measured_angle: int,
    measured_rate: int,
    dt: int,
) -> KalmanState {
    correct(predict(s, measured_rate, dt), measured_angle)
}

/// A step with no new sensor data: the filter's own angle and rate stand in
/// for the measurement and the gyro input.
pub open spec fn coast_step(s: KalmanState, dt: int) -> KalmanState {
    kalman_step(s, s.angle as int, s.rate as int, dt)
}

/// The state after `n` steps without sensor data.
pub open spec fn coast_steps(s: KalmanState, dt: int, n: nat) -> KalmanState
    decreases n,
{
    if n == 0 {
        s
    } else {
        coast_step(coast_steps(s, dt, (n - 1) as nat), dt)
    }
}

/// With all three noise variances zero, no gyro rate and no bias, one step
/// moves the angle toward the measured angle and never past it: the distance
/// to the measurement does not grow.
pub proof fn lemma_converges_to_measurement(s: KalmanState, measured_angle: i64, dt: i64)
    requires
        s.q_angle == 0,
        s.q_bias == 0,
        s.r_measure == 0,
        s.bias == 0,
        dt > 0,
    ensures
        ({
            let next = kalman_step(s, measured_angle as int, 0, dt as int).angle;
            &&& s.angle <= measured_angle ==> s.angle <= next <= measured_angle
            &&& measured_angle <= s.angle ==> measured_angle <= next <= s.angle
        }),
{
    let p = predict(s, 0, dt as int);
    fixed::lemma_mul_zero(dt as int);
    assert(p.angle == s.angle);
    let y = sub_spec(measured_angle as int, p.angle as int);
    if add_spec(p.p00 as int, 0) == 0 {
        fixed::lemma_mul_zero(y);
    } else {
        fixed::lemma_div_self(p.p00 as int);
        fixed::lemma_mul_one(y);
    }
}

/// With no rate and no bias, a step without sensor data keeps the angle,
/// the bias and the rate as they were, however long the outage lasts.
pub proof fn lemma_coast_at_rest(s: KalmanState, dt: i64, n: nat)
    requires
        s.rate == 0,
        s.bias == 0,
    ensures
        coast_steps(s, dt as int, n).angle == s.angle,
        coast_steps(s, dt as int, n).bias == 0,
        coast_steps(s, dt as int, n).rate == 0,
    decreases n,
{
    if n > 0 {
        lemma_coast_at_rest(s, dt, (n - 1) as nat);
        let c = coast_steps(s, dt as int, (n - 1) as nat);
        fixed::lemma_mul_zero(dt as int);
        fixed::lemma_mul_zero(gains(predict(c, c.rate as int, dt as int)).0);
        fixed::lemma_mul_zero(gains(predict(c, c.rate as int, dt as int)).1);
    }
}

/// A step without sensor data ends between the angle the filter held and
/// that angle extrapolated by its unbiased rate over `dt`, provided the
/// predicted angle variance and the measurement variance are not negative.
pub proof fn lemma_coast_between_hold_and_extrapolation(s: KalmanState, dt: i64)
    requires
        predict(s, s.rate as int, dt as int).p00 >= 0,
        s.r_measure >= 0,
    ensures
        ({
            let extrapolated = predict(s, s.rate as int, dt as int).angle;
            let next = coast_step(s, dt as int).angle;
            &&& s.angle <= extrapolated ==> s.angle <= next <= extrapolated
            &&& extrapolated <= s.angle ==> extrapolated <= next <= s.angle
        }),
{
    let p = predict(s, s.rate as int, dt as int);
    let y = sub_spec(s.angle as int, p.angle as int);
    let cov = add_spec(p.p00 as int, s.r_measure as int);
    if cov == 0 {
        fixed::lemma_mul_zero(y);
    } else {
        fixed::lemma_div_fraction(p.p00 as int, cov);
        fixed::lemma_mul_fraction(gains(p).0, y);
    }
}

/// A Kalman filter that fuses an accelerometer tilt angle with a gyroscope
/// rate and tracks the gyro's bias.
pub struct KalmanFilter {
    state: KalmanState,
}

impl View for KalmanFilter {
    type V = KalmanState;

    closed spec fn view(&self) -> KalmanState {
        self.state
    }
}

impl KalmanFilter {
    /// A filter at angle zero, with zero bias, rate and covariance.
    pub fn new(q_angle: i64, q_bias: i64, r_measure: i64) -> (r: Self)
        ensures
            r@ == (KalmanState {
                angle: 0,
                bias: 0,
                rate: 0,
                p00: 0,
                p01: 0,
                p10: 0,
                p11: 0,
                q_angle,
                q_bias,
                r_measure,
            }),
    {
        KalmanFilter {
            state: KalmanState {
                angle: 0,
                bias: 0,
                rate: 0,
                p00: 0,
                p01: 0,
                p10: 0,
                p11: 0,
                q_angle,
                q_bias,
                r_measure,
            },
        }
    }

    /// Advances the filter by `dt` with a new accelerometer angle and gyro
    /// rate, and returns the new angle estimate.
    pub fn update(&mut self, new_angle: i64, new_rate: i64, dt: i64) -> (r: i64)
        ensures
            final(self)@ == kalman_step(old(self)@, new_angle as int, new_rate as int, dt as int),
            r == final(self)@.angle,
    {
        let s = self.state;
        // Prediction.
        let rate = fixed::sub(new_rate, s.bias);
        let angle = fixed::add(s.angle, fixed::mul(dt, rate));
        let inner = fixed::add(
            fixed::sub(fixed::sub(fixed::mul(dt, s.p11), s.p01), s.p10),
            s.q_angle,
        );
        let p00 = fixed::add(s.p00, fixed::mul(dt, inner));
        let p01 = fixed::sub(s.p01, fixed::mul(dt, s.p11));
        let p10 = fixed::sub(s.p10, fixed::mul(dt, s.p11));
        let p11 = fixed::add(s.p11, fixed::mul(s.q_bias, dt));
        // Correction.
        let y = fixed::sub(new_angle, angle);
        let cov = fixed::add(p00, s.r_measure);
        let (k0, k1) = if cov == 0 {
            (0i64, 0i64)
        } else {
            (fixed::div(p00, cov), fixed::div(p10, cov))
        };
        self.state = KalmanState {
            angle: fixed::add(angle, fixed::mul(k0, y)),
            bias: fixed::add(s.bias, fixed::mul(k1, y)),
            rate,
            p00: fixed::sub(p00, fixed::mul(k0, p00)),
            p01: fixed::sub(p01, fixed::mul(k0, p01)),
            p10: fixed::sub(p10, fixed::mul(k1, p00)),
            p11: fixed::sub(p11, fixed::mul(k1, p01)),
            q_angle: s.q_angle,
            q_bias: s.q_bias,
            r_measure: s.r_measure,
        };
        self.state.angle
    }

    /// Advances the filter by `dt` when no sensor data came in, and returns
    /// the new angle estimate.
    pub fn update_no_input(&mut self, dt: i64) -> (r: i64)
        ensures
            final(self)@ == coast_step(old(self)@, dt as int),
            r == final(self)@.angle,
    {
        let angle = self.get_angle();
        let rate = self.get_rate();
        self.update(angle, rate, dt)
    }

    /// The current angle estimate.
    pub fn get_angle(&self) -> (r: i64)
        ensures
            r == self@.angle,
    {
        self.state.angle
    }

    /// Overwrites the angle estimate, leaving the rest of the state as it was.
    pub fn set_angle(&mut self, angle: i64)
        ensures
            final(self)@ == (KalmanState { angle, ..old(self)@ }),
    {
        self.state.angle = angle;
    }

    /// The unbiased rate of the last step.
    pub fn get_rate(&self) -> (r: i64)
        ensures
            r == self@.rate,
    {
        self.state.rate
    }
}

} // verus!
