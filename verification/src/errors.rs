use vstd::prelude::*;

verus! {

/// Faults that a subsystem can report to the flight computer.
#[derive(Debug, Clone, Copy, PartialEq, Eq, Structural)]
pub enum FlightError {
    /// Critical engine pressure, in tenths of a psi.
    EngineOverpressure(u64),
    /// Telemetry lost after the given number of milliseconds.
    LossOfSignal(u64),
    /// A stage actuator failed.
    ActuatorFailure,
    /// The measured velocity left the tolerance band of the reference trajectory.
    /// Altitude in millimetres, velocities in millimetres per second, and the
    /// relative deviation in basis points (hundredths of a percent).
    NavigationDeviation { altitude_mm: i64, actual_mm_s: i64, expected_mm_s: i64, deviation_bp: i64 },
}

} // verus!
