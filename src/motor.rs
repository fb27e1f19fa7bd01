//! Maps the controller's output to a duty cycle and a direction per motor.
use vstd::prelude::*;
use crate::fixed::{self, sub_spec, abs_spec, SCALE};

verus! {

/// Lowest duty, in percent, at which motor A still turns.
pub const DUTY_MIN_A: i32 = 45;

/// Lowest duty, in percent, at which motor B still turns.
pub const DUTY_MIN_B: i32 = 41;

/// Highest duty, in percent, of either motor.
pub const DUTY_MAX: i32 = 100;

/// Half-width of the band of angle errors, in fixed-point degrees, within
/// which the motors are stopped.
pub const DEADZONE: i64 = 2_000_000_000_000;

/// Duty and direction for the two motors of one cycle.
#[derive(Clone, Copy, Debug, PartialEq, Eq, Structural)]
pub struct MotorCommand {
    pub duty_a: u8,
    pub forward_a: bool,
    pub duty_b: u8,
    pub forward_b: bool,
}

/// The value of `v` held to the range of `i32`, as a float-to-`i32` cast does.
pub open spec fn clamp32(v: int) -> int {
    if v < i32::MIN as int {
        i32::MIN as int
    } else if v > i32::MAX as int {
        i32::MAX as int
    } else {
        v
    }
}

/// `n / d` rounded to the nearest integer, halves away from zero.
pub open spec fn round_div(n: int, d: int) -> int
    recommends
        d > 0,
{
    if n >= 0 {
        (n + d / 2) / d
    } else {
        -((-n + d / 2) / d)
    }
}

/// `(1 - t) * a + t * b` for a fixed-point `t`, rounded to an integer with
/// halves away from zero.
pub open spec fn lerp_spec(a: int, b: int, t: int) -> int {
    clamp32(round_div((SCALE - t) * a + t * b, SCALE as int))
}

/// The duty of a motor with the given floor for a control magnitude.
pub open spec fn duty_spec(floor: int, magnitude: int) -> int {
    let d = lerp_spec(floor, DUTY_MAX as int, magnitude);
    if d < DUTY_MAX { d } else { DUTY_MAX as int }
}

/// Whether the angle error is small enough to leave the motors stopped.
pub open spec fn in_deadzone(estimated_angle: int, target_angle: int) -> bool {
    abs_spec(sub_spec(estimated_angle, target_angle)) < DEADZONE
}

/// The command for a control output at an estimated and a target angle.
pub open spec fn command_spec(control_output: int, estimated_angle: int, target_angle: int) -> MotorCommand {
    if in_deadzone(estimated_angle, target_angle) {
        MotorCommand { duty_a: 0, forward_a: true, duty_b: 0, forward_b: true }
    } else {
        let m = abs_spec(control_output);
        MotorCommand {
            duty_a: duty_spec(DUTY_MIN_A as int, m) as u8,
            forward_a: control_output > 0,
            duty_b: duty_spec(DUTY_MIN_B as int, m) as u8,
            forward_b: control_output > 0,
        }
    }
}

/// A larger control magnitude never gives a motor less duty.
proof fn lemma_duty_monotone(floor: int, m1: int, m2: int)
    requires
        0 <= floor <= DUTY_MAX,
        0 <= m1 <= m2,
    ensures
        duty_spec(floor, m1) <= duty_spec(floor, m2),
{
    let sc = SCALE as int;
    let n1 = (sc - m1) * floor + m1 * DUTY_MAX;
    let n2 = (sc - m2) * floor + m2 * DUTY_MAX;
    assert(0 <= n1 <= n2) by (nonlinear_arith)
        requires
            n1 == (sc - m1) * floor + m1 * DUTY_MAX,
            n2 == (sc - m2) * floor + m2 * DUTY_MAX,
            sc == 1_000_000_000_000,
            0 <= floor <= DUTY_MAX,
            0 <= m1 <= m2,
    ;
    vstd::arithmetic::div_mod::lemma_div_is_ordered(n1 + sc / 2, n2 + sc / 2, sc);
}

/// Outside the deadzone, a control output of larger magnitude never gives
/// either motor less duty.
pub proof fn lemma_command_duty_monotone(
    output1: i64,
    output2: i64,
    estimated_angle: i64,
    target_angle: i64,
)
    requires
        !in_deadzone(estimated_angle as int, target_angle as int),
        abs_spec(output1 as int) <= abs_spec(output2 as int),
    ensures
        command_spec(output1 as int, estimated_angle as int, target_angle as int).duty_a
            <= command_spec(output2 as int, estimated_angle as int, target_angle as int).duty_a,
        command_spec(output1 as int, estimated_angle as int, target_angle as int).duty_b
            <= command_spec(output2 as int, estimated_angle as int, target_angle as int).duty_b,
{
    let m1 = abs_spec(output1 as int);
    let m2 = abs_spec(output2 as int);
    lemma_duty_monotone(DUTY_MIN_A as int, m1, m2);
    lemma_duty_monotone(DUTY_MIN_B as int, m1, m2);
    lemma_duty_in_range(DUTY_MIN_A as int, m1);
    lemma_duty_in_range(DUTY_MIN_A as int, m2);
    lemma_duty_in_range(DUTY_MIN_B as int, m1);
    lemma_duty_in_range(DUTY_MIN_B as int, m2);
}

/// The duty of a motor lies between its floor and the maximum.
proof fn lemma_duty_in_range(floor: int, magnitude: int)
    requires
        0 <= floor <= DUTY_MAX,
        magnitude >= 0,
    ensures
        floor <= duty_spec(floor, magnitude) <= DUTY_MAX,
{
    let sc = SCALE as int;
    let n = (sc - magnitude) * floor + magnitude * DUTY_MAX;
    assert(n >= sc * floor) by (nonlinear_arith)
        requires
            n == (sc - magnitude) * floor + magnitude * DUTY_MAX,
            0 <= floor <= DUTY_MAX,
            magnitude >= 0,
    ;
    vstd::arithmetic::div_mod::lemma_fundamental_div_mod_converse(
        sc * floor + sc / 2, sc, floor, sc / 2);
    vstd::arithmetic::div_mod::lemma_div_is_ordered(sc * floor + sc / 2, n + sc / 2, sc);
}

/// Interpolates between `a` and `b` at the fixed-point fraction `t`, and
/// rounds to the nearest integer, halves away from zero. A result beyond the
/// range of `i32` is held to it.
pub fn lerp_i32(a: i32, b: i32, t: i64) -> (r: i32)
    ensures
        r == lerp_spec(a as int, b as int, t as int),
{
    let s: i128 = SCALE as i128;
    let u: i128 = s - t as i128;
    assert(-0x1_0000_0000_0000_0000_0000_0000 <= u as int * a as int
        <= 0x1_0000_0000_0000_0000_0000_0000) by (nonlinear_arith)
        requires
            -0x8000_0100_0000_0000 <= u <= 0x8000_0100_0000_0000,
            i32::MIN <= a <= i32::MAX,
    ;
    assert(-0x1_0000_0000_0000_0000_0000_0000 <= t as int * b as int
        <= 0x1_0000_0000_0000_0000_0000_0000) by (nonlinear_arith)
        requires
            i64::MIN <= t <= i64::MAX,
            i32::MIN <= b <= i32::MAX,
    ;
    let v: i128 = u * a as i128 + t as i128 * b as i128;
    let q: i128 = if v >= 0 {
        (v + s / 2) / s
    } else {
        -((-v + s / 2) / s)
    };
    if q < i32::MIN as i128 {
        i32::MIN
    } else if q > i32::MAX as i128 {
        i32::MAX
    } else {
        q as i32
    }
}

/// Duty of a motor with the given floor: the interpolation from the floor
/// to the maximum duty, capped at the maximum.
fn motor_duty(floor: i32, magnitude: i64) -> (r: u8)
    requires
        0 <= floor <= DUTY_MAX,
        magnitude >= 0,
    ensures
        r == duty_spec(floor as int, magnitude as int),
        floor <= r <= DUTY_MAX,
{
    let d = lerp_i32(floor, DUTY_MAX, magnitude);
    proof {
        lemma_duty_in_range(floor as int, magnitude as int);
    }
    if d < DUTY_MAX {
        d as u8
    } else {
        DUTY_MAX as u8
    }
}

/// The motor command for one cycle. Within the deadzone around the target
/// angle both motors stop, facing forward. Elsewhere both run forward when
/// the control output is positive and backward otherwise, each at a duty
/// interpolated from its floor toward the maximum by the output's magnitude.
pub fn map_motors(control_output: i64, estimated_angle: i64, target_angle: i64) -> (r: MotorCommand)
    ensures
        r == command_spec(control_output as int, estimated_angle as int, target_angle as int),
        in_deadzone(estimated_angle as int, target_angle as int) ==> r == (MotorCommand {
            duty_a: 0,
            forward_a: true,
            duty_b: 0,
            forward_b: true,
        }),
        !in_deadzone(estimated_angle as int, target_angle as int) ==> {
            &&& r.forward_a == (control_output > 0)
            &&& r.forward_b == (control_output > 0)
            &&& DUTY_MIN_A <= r.duty_a <= DUTY_MAX
            &&& DUTY_MIN_B <= r.duty_b <= DUTY_MAX
        },
{
    if fixed::abs(fixed::sub(estimated_angle, target_angle)) < DEADZONE {
        MotorCommand { duty_a: 0, forward_a: true, duty_b: 0, forward_b: true }
    } else {
        let magnitude = fixed::abs(control_output);
        let forward = control_output > 0;
        MotorCommand {
            duty_a: motor_duty(DUTY_MIN_A, magnitude),
            forward_a: forward,
            duty_b: motor_duty(DUTY_MIN_B, magnitude),
            forward_b: forward,
        }
    }
}

} // verus!
