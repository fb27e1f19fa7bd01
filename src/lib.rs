//! Attitude estimation, stabilising control and motor command mapping for a
//! two-wheeled self-balancing robot, on saturating fixed-point numbers.
//!
//! - [`fixed`]: the number representation and its arithmetic.
//! - [`kalman`], [`complementary`]: the two tilt estimators, and
//!   [`estimator`], the interface they share.
//! - [`pid`]: the stabilising controller.
//! - [`motor`]: the mapping of a control output to the two motors.
//! - [`balancer`]: one cycle of the control loop.
pub mod fixed;
pub mod kalman;
pub mod complementary;
pub mod estimator;
pub mod pid;
pub mod motor;
pub mod balancer;
