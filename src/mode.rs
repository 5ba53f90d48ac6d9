//! Flight modes and the rules for moving between them.
use vstd::prelude::*;

verus! {

/// The flight mode of the vehicle.
#[derive(Clone, Copy, Debug, PartialEq, Eq, Structural)]
pub enum Mode {
    Safe,
    Panic,
    Manual,
    Calibrate,
    YawControl,
    FullControl,
    Raw,
    Height,
    WireLess,
}

/// What the operator asks of the flight-data logger.
#[derive(Clone, Copy, Debug, PartialEq, Eq, Structural)]
pub enum LoggerMode {
    Enabled,
    Disabled,
    Download,
}

/// Checkpoints of the control loop at which timing events are emitted.
#[derive(Clone, Copy, Debug, PartialEq, Eq, Structural)]
pub enum ProfilerEvent {
    MainLoopStart,
    MainLoopStop,
    MainLoopFullControlStart,
    MainLoopFullControlStop,
}

/// The transition table: from Safe every mode but Panic may be requested;
/// from Panic only Safe; from any other mode only Safe or Panic.
pub open spec fn transition_allowed(current: Mode, requested: Mode) -> bool {
    match current {
        Mode::Safe => requested != Mode::Panic,
        Mode::Panic => requested == Mode::Safe,
        _ => requested == Mode::Safe || requested == Mode::Panic,
    }
}

/// Whether the state machine lets a vehicle in `current` enter `requested`.
pub fn is_transition_allowed(current: Mode, requested: Mode) -> (r: bool)
    ensures
        r == transition_allowed(current, requested),
{
    match current {
        Mode::Safe => requested != Mode::Panic,
        Mode::Panic => requested == Mode::Safe,
        _ => requested == Mode::Safe || requested == Mode::Panic,
    }
}

} // verus!
