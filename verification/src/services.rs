//! The periodic components, each a state machine stepped by its caller.
pub mod behavior_router;
pub mod cameras;
pub mod foxglove_server;
pub mod mcap_logger;
pub mod motor_bus;
pub mod state_estimator;
