//! Flight control and telemetry for a vertically landing rocket.
//!
//! Physical quantities are fixed-point integers: one unit is
//! [`fixed::SCALE`] steps (micro-units), times are in microseconds.
//! Telemetry frames carry IEEE-754 single-precision bit patterns.
pub mod channel;
pub mod control;
pub mod fixed;
pub mod flight;
pub mod forces;
pub mod fuel;
pub mod game_state;
pub mod kinematics;
pub mod telemetry;
