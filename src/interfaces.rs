//! Interfaces that the surrounding program implements for the core.
use vstd::prelude::*;
use crate::measurements::{ControlRequest, SensorData};

verus! {

/// A source of operator commands.
pub trait JoystickDriver {
    fn get_control_request(&mut self) -> ControlRequest;
}

/// A display of the vehicle's telemetry.
pub trait TelemetryDisplay {
    fn display_telemetry(&mut self, data: &SensorData);
}

} // verus!
