//! Flight-control core of a quadrotor: fixed-point state types, the flight
//! mode rules, the link liveness monitor, the attitude and height estimator
//! and the per-mode motor mixer.
use vstd::prelude::*;

pub mod fixed_point;
pub mod measurements;
pub mod mode;
pub mod liveness;
pub mod control;
pub mod state_machine;
pub mod sensor;
pub mod kalman_filter;
pub mod orientation;
pub mod profiling;
pub mod telemetry;
pub mod interfaces;

verus! {

} // verus!
