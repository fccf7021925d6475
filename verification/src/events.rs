use vstd::prelude::*;

use crate::errors::FlightError;

verus! {

/// Commands sent from the flight computer to the subsystems.
#[derive(Debug, Clone, Copy, PartialEq, Eq, Structural)]
pub enum FlightCommand {
    Ignite,
    StageSeparation,
    DeployPayload,
    CutEngine,
}

/// Events that reach the flight computer's event loop.
#[derive(Debug, Clone, Copy, PartialEq, Eq, Structural)]
pub enum FlightEvent {
    /// A sensor frame: altitude in millimetres, velocity in millimetres per second.
    Telemetry { altitude_mm: i64, velocity_mm_s: i64 },
    /// A subsystem reported a fault.
    SubsystemFault(FlightError),
    /// A command addressed to the flight computer.
    Command(FlightCommand),
    /// Navigation saw the rocket reach the Max-Q altitude.
    MaxQDetected,
}

} // verus!
