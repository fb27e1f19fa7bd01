//! PID controller that turns the tilt error into a signed control output.
use vstd::prelude::*;
use crate::fixed::{self, add_spec, sub_spec, mul_spec, div_spec};

verus! {

/// What the controller holds: its target and gains, which never change, and
/// the last error, the running sum of errors and the last error derivative.
#[derive(Clone, Copy, Debug, PartialEq, Eq, Structural)]
pub struct ControllerState {
    pub target_value: i64,
    pub k_p: i64,
    pub k_i: i64,
    pub k_d: i64,
    pub e_t: i64,
    pub e_i: i64,
    pub e_d: i64,
}

/// The state after one controller step. The error sum is not weighted by
/// `dt`, and neither the sum nor the output is bounded but by the range of
/// the arithmetic.
pub open spec fn controller_step(s: ControllerState, actual_value: int, dt: int) -> ControllerState {
    let err = sub_spec(s.target_value as int, actual_value);
    ControllerState {
        e_t: err as i64,
        e_i: add_spec(s.e_i as int, err) as i64,
        e_d: div_spec(sub_spec(err, s.e_t as int), dt) as i64,
        ..s
    }
}

/// The control output of a state whose error terms were just updated.
pub open spec fn controller_output(s: ControllerState) -> int {
    add_spec(
        add_spec(mul_spec(s.k_p as int, s.e_t as int), mul_spec(s.k_i as int, s.e_i as int)),
        mul_spec(s.k_d as int, s.e_d as int),
    )
}

/// A PID controller on fixed-point values.
pub struct Controller {
    state: ControllerState,
}

impl View for Controller {
    type V = ControllerState;

    closed spec fn view(&self) -> ControllerState {
        self.state
    }
}

impl Controller {
    /// A controller with the given target and gains, and no error history.
    pub fn new(target_value: i64, k_p: i64, k_i: i64, k_d: i64) -> (r: Self)
        ensures
            r@ == (ControllerState { target_value, k_p, k_i, k_d, e_t: 0, e_i: 0, e_d: 0 }),
    {
        Controller { state: ControllerState { target_value, k_p, k_i, k_d, e_t: 0, e_i: 0, e_d: 0 } }
    }

    /// The value the controller steers toward.
    pub fn target_value(&self) -> (r: i64)
        ensures
            r == self@.target_value,
    {
        self.state.target_value
    }

    /// Feeds the measured value after a time step of `dt` and returns the
    /// control output `k_p * e + k_i * sum(e) + k_d * de/dt`.
    pub fn update(&mut self, actual_value: i64, dt: i64) -> (r: i64)
        requires
            dt > 0,
        ensures
            final(self)@ == controller_step(old(self)@, actual_value as int, dt as int),
            r == controller_output(final(self)@),
    {
        let s = self.state;
        let err = fixed::sub(s.target_value, actual_value);
        let e_i = fixed::add(s.e_i, err);
        let e_d = fixed::div(fixed::sub(err, s.e_t), dt);
        self.state = ControllerState { e_t: err, e_i, e_d, ..s };
        let proportional = fixed::mul(s.k_p, err);
        let integration = fixed::mul(s.k_i, e_i);
        let derivative = fixed::mul(s.k_d, e_d);
        fixed::add(fixed::add(proportional, integration), derivative)
    }
}

} // verus!
