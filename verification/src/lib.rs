//! A verified health-check core: the failure-threshold state machine behind a
//! periodic HTTP liveness probe, together with outcome classification and
//! status-line rendering.

pub mod config;
pub mod monitor;
pub mod probe;
pub mod render;
pub mod state;
pub mod status;
