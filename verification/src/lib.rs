//! Closed-loop drive control for a two-wheeled robot.
//!
//! The controller accepts "move N encoder ticks" commands, trims the left
//! wheel with a PID regulator so that it keeps pace with the right wheel,
//! stops when the tick budget is used up or when encoder reports dry up, and
//! reports one telemetry record for every control cycle.  Nothing in this
//! crate touches hardware: every operation yields the list of register and
//! pin writes that the caller has to perform.
//!
//! Real-valued quantities (speeds, gains, regulator terms) are fixed-point
//! numbers counted in millionths, see [`fixed::Fixed`].
pub mod command;
pub mod event;
pub mod fixed;
pub mod hardware;
pub mod motor;
pub mod motor_handler;
pub mod pca9685;
pub mod regulator;
pub mod runs;
pub mod wire;
