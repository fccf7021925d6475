//! The simulated sensor feed that drives a flight: one telemetry frame per
//! altimeter reading, with an engine overpressure injected inside a fixed
//! altitude band.
use vstd::prelude::*;

use crate::errors::FlightError;
use crate::events::FlightEvent;

verus! {

/// Velocity reported with every simulated telemetry frame, in millimetres per second.
pub const SIMULATED_VELOCITY_MM_S: i64 = 340_000;

/// Lower bound (exclusive) of the altitude band with an injected engine fault, in millimetres.
pub const FAULT_BAND_LOW_MM: i64 = 4_000_000;

/// Upper bound (exclusive) of the altitude band with an injected engine fault, in millimetres.
pub const FAULT_BAND_HIGH_MM: i64 = 4_500_000;

/// Engine pressure reported by the injected fault, in tenths of a psi.
pub const INJECTED_OVERPRESSURE_DECIPSI: u64 = 52_005;

/// The events the simulated feed sends for one altimeter reading.
pub open spec fn frame_events(altitude_mm: i64) -> Seq<FlightEvent> {
    let telemetry = FlightEvent::Telemetry { altitude_mm, velocity_mm_s: SIMULATED_VELOCITY_MM_S };
    if FAULT_BAND_LOW_MM < altitude_mm < FAULT_BAND_HIGH_MM {
        seq![
            telemetry,
            FlightEvent::SubsystemFault(FlightError::EngineOverpressure(INJECTED_OVERPRESSURE_DECIPSI)),
        ]
    } else {
        seq![telemetry]
    }
}

/// The events to send, in order, for one altimeter reading: a telemetry frame,
/// followed by an engine overpressure fault when the reading lies strictly
/// inside the fault band.
pub fn simulated_frame(altitude_mm: i64) -> (events: Vec<FlightEvent>)
    ensures
        events@ == frame_events(altitude_mm),
        events@.len() == if FAULT_BAND_LOW_MM < altitude_mm < FAULT_BAND_HIGH_MM {
            2int
        } else {
            1int
        },
        events@[0] == (FlightEvent::Telemetry {
            altitude_mm,
            velocity_mm_s: SIMULATED_VELOCITY_MM_S,
        }),
        events@.len() == 2 ==> events@[1] == FlightEvent::SubsystemFault(
            FlightError::EngineOverpressure(INJECTED_OVERPRESSURE_DECIPSI),
        ),
{
    let mut events = Vec::new();
    events.push(FlightEvent::Telemetry { altitude_mm, velocity_mm_s: SIMULATED_VELOCITY_MM_S });
    if FAULT_BAND_LOW_MM < altitude_mm && altitude_mm < FAULT_BAND_HIGH_MM {
        events.push(
            FlightEvent::SubsystemFault(FlightError::EngineOverpressure(INJECTED_OVERPRESSURE_DECIPSI)),
        );
    }
    events
}

} // verus!
