//! Real-time control core of a small holonomic robot, in fixed-point arithmetic.
//!
//! Every physical quantity is a signed integer counted in millionths of its unit
//! (micrometres, microradians, microvolts, parts per million); every instant and
//! duration is an unsigned count of nanoseconds.
pub mod bus;
pub mod config;
pub mod fixed;
pub mod messages;
pub mod services;
pub mod telemetry;
