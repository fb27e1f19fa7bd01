use balancing_robot::balancer::{
    calibrate_rate, to_degrees, Balancer, ImuSample, K_D, K_I, K_P, LOOP_PERIOD, TARGET_ANGLE,
};
use balancing_robot::complementary::ComplementaryFilter;
use balancing_robot::fixed::{self, SCALE};
use balancing_robot::kalman::KalmanFilter;
use balancing_robot::motor::{lerp_i32, map_motors, MotorCommand, DUTY_MAX, DUTY_MIN_A, DUTY_MIN_B};
use balancing_robot::pid::Controller;

const DT: i64 = 3_000_000_000;

fn deg(v: i64) -> i64 {
    v * SCALE
}

#[test]
fn fixed_point_products_and_quotients() {
    assert_eq!(fixed::mul(3 * SCALE, 2 * SCALE), 6 * SCALE);
    assert_eq!(fixed::div(SCALE, 3 * SCALE), 333_333_333_333);
    assert_eq!(fixed::div(-SCALE, 3 * SCALE), -333_333_333_333);
    assert_eq!(fixed::mul(-SCALE / 2, SCALE / 2), -SCALE / 4);
}

#[test]
fn fixed_point_saturates() {
    assert_eq!(fixed::mul(i64::MAX, 2 * SCALE), i64::MAX);
    assert_eq!(fixed::mul(i64::MIN, 2 * SCALE), i64::MIN);
    assert_eq!(fixed::add(i64::MAX, 1), i64::MAX);
    assert_eq!(fixed::sub(i64::MIN, 1), i64::MIN);
    assert_eq!(fixed::abs(i64::MIN), i64::MAX);
    assert_eq!(fixed::abs(-5), 5);
}

#[test]
fn kalman_starts_at_rest() {
    let kf = KalmanFilter::new(100_000_000, 30_000_000_000, 200_000_000);
    assert_eq!(kf.get_angle(), 0);
    assert_eq!(kf.get_rate(), 0);
}

#[test]
fn kalman_steps_exactly() {
    let mut kf = KalmanFilter::new(100_000_000, 30_000_000_000, 200_000_000);
    assert_eq!(kf.update(SCALE, 0, DT), 1_497_753_369);
    assert_eq!(kf.update(SCALE, 50_000_000_000, DT), 4_635_643_071);
    assert_eq!(kf.get_rate(), 50_000_000_000);
}

#[test]
fn kalman_update_no_input_uses_own_angle_and_rate() {
    let mut kf = KalmanFilter::new(100_000_000, 30_000_000_000, 200_000_000);
    kf.update(SCALE, 0, DT);
    kf.update(SCALE, 50_000_000_000, DT);
    let mut copy = KalmanFilter::new(100_000_000, 30_000_000_000, 200_000_000);
    copy.update(SCALE, 0, DT);
    copy.update(SCALE, 50_000_000_000, DT);
    let (angle, rate) = (copy.get_angle(), copy.get_rate());
    assert_eq!(kf.update_no_input(DT), copy.update(angle, rate, DT));
    assert_eq!(kf.get_angle(), 4_788_982_887);
    assert_eq!(kf.get_rate(), 51_343_741_881);
}

#[test]
fn kalman_set_angle_overwrites_angle_only() {
    let mut kf = KalmanFilter::new(100_000_000, 30_000_000_000, 200_000_000);
    kf.set_angle(-1_570_796_326_795);
    assert_eq!(kf.get_angle(), -1_570_796_326_795);
    assert_eq!(kf.get_rate(), 0);
}

#[test]
fn kalman_zero_variances_move_toward_measurement() {
    let mut kf = KalmanFilter::new(0, 0, 0);
    kf.set_angle(deg(10));
    kf.update(deg(10), 0, DT);
    let mut previous = (kf.get_angle() - deg(4)).abs();
    for _ in 0..5 {
        let angle = kf.update(deg(4), 0, DT);
        let distance = (angle - deg(4)).abs();
        assert!(distance <= previous);
        previous = distance;
    }
}

#[test]
fn kalman_coasting_at_rest_keeps_angle() {
    let mut kf = KalmanFilter::new(100_000_000, 30_000_000_000, 200_000_000);
    kf.set_angle(123_456_789);
    for _ in 0..100 {
        assert_eq!(kf.update_no_input(DT), 123_456_789);
    }
    assert_eq!(kf.get_rate(), 0);
}

#[test]
fn complementary_blends_gyro_and_accelerometer() {
    let mut cf = ComplementaryFilter::new(980_000_000_000);
    assert_eq!(cf.update(SCALE, 2 * SCALE, DT), 25_880_000_000);
    assert_eq!(cf.get_rate(), 2 * SCALE);
    cf.set_angle(0);
    assert_eq!(cf.get_angle(), 0);
}

#[test]
fn complementary_update_no_input_uses_own_angle_and_rate() {
    let mut cf = ComplementaryFilter::new(980_000_000_000);
    cf.update(SCALE, 2 * SCALE, DT);
    let mut copy = ComplementaryFilter::new(980_000_000_000);
    copy.update(SCALE, 2 * SCALE, DT);
    let (angle, rate) = (copy.get_angle(), copy.get_rate());
    assert_eq!(cf.update_no_input(DT), copy.update(angle, rate, DT));
}

#[test]
fn controller_scenario_large_error() {
    let mut controller = Controller::new(TARGET_ANGLE, K_P, K_I, K_D);
    let output = controller.update(deg(-80), DT);
    assert_eq!(output, -8_166_666_666_666);
    let command = map_motors(output, deg(-80), TARGET_ANGLE);
    assert_eq!(
        command,
        MotorCommand { duty_a: 100, forward_a: false, duty_b: 100, forward_b: false }
    );
}

#[test]
fn controller_integral_accumulates_unscaled_error() {
    let mut controller = Controller::new(0, 0, SCALE, 0);
    assert_eq!(controller.update(-deg(2), DT), deg(2));
    assert_eq!(controller.update(-deg(2), DT), deg(4));
    assert_eq!(controller.target_value(), 0);
}

#[test]
fn lerp_rounds_half_away_from_zero() {
    assert_eq!(lerp_i32(0, 1, SCALE / 2), 1);
    assert_eq!(lerp_i32(0, -1, SCALE / 2), -1);
    assert_eq!(lerp_i32(45, 100, SCALE / 2), 73);
    assert_eq!(lerp_i32(41, 100, SCALE / 2), 71);
    assert_eq!(lerp_i32(45, 100, 0), 45);
    assert_eq!(lerp_i32(45, 100, SCALE), 100);
    assert_eq!(lerp_i32(45, 100, 8_166_666_666_666), 494);
    assert_eq!(lerp_i32(0, i32::MAX, 2 * SCALE), i32::MAX);
}

#[test]
fn mapper_scenario_on_target() {
    let mut controller = Controller::new(TARGET_ANGLE, K_P, K_I, K_D);
    let output = controller.update(TARGET_ANGLE, DT);
    assert_eq!(output, 0);
    assert_eq!(
        map_motors(output, TARGET_ANGLE, TARGET_ANGLE),
        MotorCommand { duty_a: 0, forward_a: true, duty_b: 0, forward_b: true }
    );
    let command = map_motors(-deg(3), TARGET_ANGLE, TARGET_ANGLE);
    assert_eq!(
        command,
        MotorCommand { duty_a: 0, forward_a: true, duty_b: 0, forward_b: true }
    );
}

#[test]
fn mapper_zero_output_in_deadzone_stops_forward() {
    for angle in [deg(-95), deg(-94), -93_000_000_000_001] {
        let command = map_motors(0, angle, TARGET_ANGLE);
        assert_eq!(
            command,
            MotorCommand { duty_a: 0, forward_a: true, duty_b: 0, forward_b: true }
        );
    }
}

#[test]
fn mapper_deadzone_edge_is_outside() {
    let command = map_motors(SCALE / 2, deg(-92), TARGET_ANGLE);
    assert_eq!(
        command,
        MotorCommand { duty_a: 73, forward_a: true, duty_b: 71, forward_b: true }
    );
}

#[test]
fn mapper_duty_grows_with_magnitude() {
    let mut last = map_motors(0, deg(-80), TARGET_ANGLE);
    assert_eq!((last.duty_a, last.duty_b), (DUTY_MIN_A as u8, DUTY_MIN_B as u8));
    let mut m: i64 = 0;
    while m <= 2 * SCALE {
        let next = map_motors(-m, deg(-80), TARGET_ANGLE);
        assert!(next.duty_a >= last.duty_a);
        assert!(next.duty_b >= last.duty_b);
        assert!(next.duty_a as i32 <= DUTY_MAX && next.duty_b as i32 <= DUTY_MAX);
        last = next;
        m += SCALE / 20;
    }
    assert_eq!((last.duty_a, last.duty_b), (100, 100));
}

#[test]
fn mapper_direction_follows_sign() {
    let forward = map_motors(SCALE / 10, deg(-80), TARGET_ANGLE);
    assert!(forward.forward_a && forward.forward_b);
    let backward = map_motors(-SCALE / 10, deg(-80), TARGET_ANGLE);
    assert!(!backward.forward_a && !backward.forward_b);
    let zero = map_motors(0, deg(-80), TARGET_ANGLE);
    assert!(!zero.forward_a && !zero.forward_b);
}

#[test]
fn gyro_calibration_and_degrees() {
    assert_eq!(calibrate_rate(SCALE), 9_923_664_122);
    assert_eq!(calibrate_rate(-300_000_000_000), 0);
    assert_eq!(to_degrees(1_570_796_326_795), 90_000_000_000_005);
}

#[test]
fn balancer_cycle_with_reading() {
    let mut robot = Balancer::robot();
    assert_eq!(robot.period(), LOOP_PERIOD);
    assert_eq!(robot.target_angle(), TARGET_ANGLE);
    let report = robot
        .step(Some(ImuSample { gyro_x: SCALE, tilt: -1_640_609_000_000 }))
        .unwrap();
    assert_eq!(robot.estimated_angle(), 939_423_948);
    assert_eq!(report.gyro_rate, 9_923_664_122);
    assert_eq!(report.estimated_angle, 53_825_027_393 - TARGET_ANGLE);
    assert_eq!(report.control_output, -54_864_731_265_979);
    assert_eq!(
        report.command,
        MotorCommand { duty_a: 100, forward_a: false, duty_b: 100, forward_b: false }
    );
}

#[test]
fn balancer_failed_read_coasts_without_command() {
    let mut robot = Balancer::robot();
    robot.step(Some(ImuSample { gyro_x: SCALE, tilt: -1_640_609_000_000 }));
    let mut filter = KalmanFilter::new(100_000_000, 30_000_000_000, 200_000_000);
    filter.update(607_374_728_756, 9_923_664_122, DT);
    assert_eq!(filter.get_angle(), robot.estimated_angle());
    let held = robot.estimated_angle();
    let extrapolated = held + fixed::mul(DT, filter.get_rate());
    assert!(robot.step(None).is_none());
    let coasted = robot.estimated_angle();
    assert_eq!(coasted, filter.update_no_input(DT));
    assert!(held.min(extrapolated) <= coasted && coasted <= held.max(extrapolated));
}

#[test]
fn balancer_without_smoothing_feeds_tilt_directly() {
    let mut robot = Balancer::new(
        KalmanFilter::new(0, 0, 0),
        Controller::new(0, 0, 0, 0),
        SCALE,
        0,
        DT,
    );
    let report = robot.step(Some(ImuSample { gyro_x: -300_000_000_000, tilt: SCALE })).unwrap();
    assert_eq!(report.gyro_rate, 0);
    assert_eq!(report.observed_angle, to_degrees(SCALE));
    assert_eq!(report.command, MotorCommand { duty_a: 0, forward_a: true, duty_b: 0, forward_b: true });
}
