//! The flight computer's event loop, as a function from the current rocket
//! state and one event to the next state and what the loop should report.
use vstd::prelude::*;

use crate::events::{FlightCommand, FlightEvent};
use crate::rocket::{Abortable, FlightPhase, RocketState};

verus! {

/// Altitude above which ignition gives way to Max-Q, in millimetres.
pub const MAX_Q_ENTRY_MM: i64 = 1_000_000;

/// Altitude above which Max-Q gives way to main engine cut-off, in millimetres.
pub const MECO_ENTRY_MM: i64 = 3_000_000;

/// Altitude above which the stages separate, in millimetres.
pub const SEPARATION_ENTRY_MM: i64 = 5_000_000;

/// Altitude above which the rocket is inserted into orbit, in millimetres.
pub const ORBIT_ENTRY_MM: i64 = 6_000_000;

/// What the event loop has to report about one event, besides the event itself.
#[derive(Debug, Clone, Copy, PartialEq, Eq, Structural)]
pub enum FlightNotice {
    /// Nothing beyond the event.
    Nothing,
    /// An ignite command arrived outside pre-launch and was ignored.
    IgniteIgnored,
    /// A fault arrived on the pad: systems shut down, the rocket stays on the pad.
    PadFault,
    /// A fault aborted the mission.
    MissionAborted,
    /// A fault arrived after the last phase from which an abort is possible.
    TooLateToAbort,
}

/// How the monitor reports a rocket state.
#[derive(Debug, Clone, Copy, PartialEq, Eq, Structural)]
pub enum MonitorStatus {
    OnPad,
    EnginesOn,
    Aborted,
    InFlight,
}

/// Whether a mission can still be aborted in this phase.
pub open spec fn abortable(phase: FlightPhase) -> bool {
    phase == FlightPhase::Ignition || phase == FlightPhase::MaxQ || phase == FlightPhase::MECO
}

/// The phase that a telemetry frame at `altitude_mm` moves `phase` into.
pub open spec fn phase_after_telemetry(phase: FlightPhase, altitude_mm: int) -> FlightPhase {
    if phase == FlightPhase::Ignition && altitude_mm > MAX_Q_ENTRY_MM {
        FlightPhase::MaxQ
    } else if phase == FlightPhase::MaxQ && altitude_mm > MECO_ENTRY_MM {
        FlightPhase::MECO
    } else if phase == FlightPhase::MECO && altitude_mm > SEPARATION_ENTRY_MM {
        FlightPhase::Separation
    } else if phase == FlightPhase::Separation && altitude_mm > ORBIT_ENTRY_MM {
        FlightPhase::Orbit
    } else {
        phase
    }
}

/// The phase that `event` moves `phase` into.
pub open spec fn next_phase(phase: FlightPhase, event: FlightEvent) -> FlightPhase {
    match event {
        FlightEvent::Telemetry { altitude_mm, .. } => phase_after_telemetry(phase, altitude_mm as int),
        FlightEvent::Command(FlightCommand::Ignite) => {
            if phase == FlightPhase::PreLaunch {
                FlightPhase::Ignition
            } else {
                phase
            }
        },
        FlightEvent::SubsystemFault(_) => {
            if abortable(phase) {
                FlightPhase::Aborted
            } else {
                phase
            }
        },
        _ => phase,
    }
}

/// What the event loop reports when `event` arrives in `phase`.
pub open spec fn notice_for(phase: FlightPhase, event: FlightEvent) -> FlightNotice {
    match event {
        FlightEvent::Command(FlightCommand::Ignite) => {
            if phase == FlightPhase::PreLaunch {
                FlightNotice::Nothing
            } else {
                FlightNotice::IgniteIgnored
            }
        },
        FlightEvent::SubsystemFault(_) => {
            if phase == FlightPhase::PreLaunch {
                FlightNotice::PadFault
            } else if abortable(phase) {
                FlightNotice::MissionAborted
            } else {
                FlightNotice::TooLateToAbort
            }
        },
        _ => FlightNotice::Nothing,
    }
}

/// Position of a phase along the nominal flight; an aborted flight has none.
pub open spec fn phase_rank(phase: FlightPhase) -> int {
    match phase {
        FlightPhase::PreLaunch => 0,
        FlightPhase::Ignition => 1,
        FlightPhase::MaxQ => 2,
        FlightPhase::MECO => 3,
        FlightPhase::Separation => 4,
        FlightPhase::Orbit => 5,
        FlightPhase::Aborted => -1,
    }
}

/// The phase reached from `phase` after the events of `events`, in order.
pub open spec fn phase_after_events(phase: FlightPhase, events: Seq<FlightEvent>) -> FlightPhase
    decreases events.len(),
{
    if events.len() == 0 {
        phase
    } else {
        next_phase(phase_after_events(phase, events.drop_last()), events.last())
    }
}

/// Handles one event of the flight computer's event loop.
///
/// Telemetry moves the rocket one phase along the nominal flight when it
/// passes that phase's altitude threshold; an ignite command lights the
/// engines on the pad; a subsystem fault aborts the mission during ignition,
/// Max-Q and main engine cut-off. Every other event leaves the state as it is.
/// The rocket's physical quantities are never changed.
pub fn process_event(state: RocketState, event: FlightEvent) -> (result: (RocketState, FlightNotice))
    ensures
        result.0.phase_of() == next_phase(state.phase_of(), event),
        result.0.data_of() == state.data_of(),
        result.0.fields_of() == state.fields_of(),
        result.1 == notice_for(state.phase_of(), event),
        event matches FlightEvent::Telemetry { altitude_mm, .. } ==> {
            &&& result.1 == FlightNotice::Nothing
            &&& state.phase_of() == FlightPhase::Ignition ==> result.0.phase_of() == if altitude_mm
                > MAX_Q_ENTRY_MM {
                FlightPhase::MaxQ
            } else {
                FlightPhase::Ignition
            }
            &&& state.phase_of() == FlightPhase::MaxQ ==> result.0.phase_of() == if altitude_mm
                > MECO_ENTRY_MM {
                FlightPhase::MECO
            } else {
                FlightPhase::MaxQ
            }
            &&& state.phase_of() == FlightPhase::MECO ==> result.0.phase_of() == if altitude_mm
                > SEPARATION_ENTRY_MM {
                FlightPhase::Separation
            } else {
                FlightPhase::MECO
            }
            &&& state.phase_of() == FlightPhase::Separation ==> result.0.phase_of() == if altitude_mm
                > ORBIT_ENTRY_MM {
                FlightPhase::Orbit
            } else {
                FlightPhase::Separation
            }
            &&& (state.phase_of() == FlightPhase::PreLaunch || state.phase_of() == FlightPhase::Orbit
                || state.phase_of() == FlightPhase::Aborted) ==> result.0.phase_of() == state.phase_of()
        },
        event == FlightEvent::Command(FlightCommand::Ignite) ==> {
            &&& state.phase_of() == FlightPhase::PreLaunch ==> result.0.phase_of()
                == FlightPhase::Ignition && result.1 == FlightNotice::Nothing
            &&& state.phase_of() != FlightPhase::PreLaunch ==> result.0.phase_of() == state.phase_of()
                && result.1 == FlightNotice::IgniteIgnored
        },
        event is SubsystemFault ==> {
            &&& (state.phase_of() == FlightPhase::Ignition || state.phase_of() == FlightPhase::MaxQ
                || state.phase_of() == FlightPhase::MECO) ==> result.0.phase_of() == FlightPhase::Aborted
                && result.1 == FlightNotice::MissionAborted
            &&& state.phase_of() == FlightPhase::PreLaunch ==> result.0.phase_of()
                == FlightPhase::PreLaunch && result.1 == FlightNotice::PadFault
            &&& (state.phase_of() == FlightPhase::Separation || state.phase_of() == FlightPhase::Orbit
                || state.phase_of() == FlightPhase::Aborted) ==> result.0.phase_of() == state.phase_of()
                && result.1 == FlightNotice::TooLateToAbort
        },
        (event is MaxQDetected || (event is Command && event != FlightEvent::Command(
            FlightCommand::Ignite,
        ))) ==> result.0.phase_of() == state.phase_of() && result.1 == FlightNotice::Nothing,
{
    match event {
        FlightEvent::Telemetry { altitude_mm, .. } => {
            let next = match state {
                RocketState::Ignition(rocket) if altitude_mm > MAX_Q_ENTRY_MM => {
                    RocketState::MaxQ(rocket.init_ascent())
                },
                RocketState::MaxQ(rocket) if altitude_mm > MECO_ENTRY_MM => {
                    RocketState::MECO(rocket.final_ascent())
                },
                RocketState::MECO(rocket) if altitude_mm > SEPARATION_ENTRY_MM => {
                    RocketState::Separation(rocket.separate_stage())
                },
                RocketState::Separation(rocket) if altitude_mm > ORBIT_ENTRY_MM => {
                    RocketState::Orbit(rocket.orbit_insertion())
                },
                other => other,
            };
            (next, FlightNotice::Nothing)
        },
        FlightEvent::Command(FlightCommand::Ignite) => {
            match state {
                RocketState::PreLaunch(rocket) => (RocketState::Ignition(rocket.ignite()), FlightNotice::Nothing),
                other => (other, FlightNotice::IgniteIgnored),
            }
        },
        FlightEvent::SubsystemFault(_) => {
            match state {
                RocketState::PreLaunch(rocket) => (RocketState::PreLaunch(rocket), FlightNotice::PadFault),
                RocketState::Ignition(rocket) => (RocketState::Aborted(rocket.abort()), FlightNotice::MissionAborted),
                RocketState::MaxQ(rocket) => (RocketState::Aborted(rocket.abort()), FlightNotice::MissionAborted),
                RocketState::MECO(rocket) => (RocketState::Aborted(rocket.abort()), FlightNotice::MissionAborted),
                other => (other, FlightNotice::TooLateToAbort),
            }
        },
        _ => (state, FlightNotice::Nothing),
    }
}

/// How the monitor reports a state: on the pad, engines on, aborted, or in flight.
pub fn monitor_status(state: &RocketState) -> (status: MonitorStatus)
    ensures
        status == match state.phase_of() {
            FlightPhase::PreLaunch => MonitorStatus::OnPad,
            FlightPhase::Ignition => MonitorStatus::EnginesOn,
            FlightPhase::Aborted => MonitorStatus::Aborted,
            _ => MonitorStatus::InFlight,
        },
{
    match state {
        RocketState::PreLaunch(_) => MonitorStatus::OnPad,
        RocketState::Ignition(_) => MonitorStatus::EnginesOn,
        RocketState::Aborted(_) => MonitorStatus::Aborted,
        _ => MonitorStatus::InFlight,
    }
}

/// Telemetry moves a flight across each altitude threshold and only across
/// it: from ignition into Max-Q exactly above `MAX_Q_ENTRY_MM`, from Max-Q
/// into cut-off exactly above `MECO_ENTRY_MM`, from cut-off into separation
/// exactly above `SEPARATION_ENTRY_MM`, from separation into orbit exactly
/// above `ORBIT_ENTRY_MM`; on the pad, in orbit and after an abort it changes
/// nothing.
pub proof fn lemma_telemetry_thresholds(phase: FlightPhase, altitude_mm: i64, velocity_mm_s: i64)
    ensures
        ({
            let after = next_phase(phase, FlightEvent::Telemetry { altitude_mm, velocity_mm_s });
            &&& phase == FlightPhase::Ignition ==> (after == FlightPhase::MaxQ <==> altitude_mm
                > MAX_Q_ENTRY_MM) && (after == FlightPhase::MaxQ || after == FlightPhase::Ignition)
            &&& phase == FlightPhase::MaxQ ==> (after == FlightPhase::MECO <==> altitude_mm
                > MECO_ENTRY_MM) && (after == FlightPhase::MECO || after == FlightPhase::MaxQ)
            &&& phase == FlightPhase::MECO ==> (after == FlightPhase::Separation <==> altitude_mm
                > SEPARATION_ENTRY_MM) && (after == FlightPhase::Separation || after
                == FlightPhase::MECO)
            &&& phase == FlightPhase::Separation ==> (after == FlightPhase::Orbit <==> altitude_mm
                > ORBIT_ENTRY_MM) && (after == FlightPhase::Orbit || after == FlightPhase::Separation)
            &&& (phase == FlightPhase::PreLaunch || phase == FlightPhase::Orbit || phase
                == FlightPhase::Aborted) ==> after == phase
        }),
{
}

/// The ignite command lights the engines exactly on the pad, and a fault
/// aborts exactly during ignition, Max-Q and cut-off; nothing else moves a
/// flight except telemetry.
pub proof fn lemma_commands_and_faults(phase: FlightPhase, event: FlightEvent)
    ensures
        event == FlightEvent::Command(FlightCommand::Ignite) ==> (next_phase(phase, event)
            == FlightPhase::Ignition <==> phase == FlightPhase::PreLaunch || phase
            == FlightPhase::Ignition),
        event == FlightEvent::Command(FlightCommand::Ignite) && phase != FlightPhase::PreLaunch
            ==> next_phase(phase, event) == phase,
        event is SubsystemFault ==> (next_phase(phase, event) == FlightPhase::Aborted <==> (phase
            == FlightPhase::Ignition || phase == FlightPhase::MaxQ || phase == FlightPhase::MECO
            || phase == FlightPhase::Aborted)),
        event is SubsystemFault && phase != FlightPhase::Ignition && phase != FlightPhase::MaxQ
            && phase != FlightPhase::MECO ==> next_phase(phase, event) == phase,
        !(event is Telemetry) && !(event is SubsystemFault) && event != FlightEvent::Command(
            FlightCommand::Ignite,
        ) ==> next_phase(phase, event) == phase,
{
}

/// An aborted mission stays aborted whatever event arrives.
pub proof fn lemma_aborted_is_final(event: FlightEvent)
    ensures
        next_phase(FlightPhase::Aborted, event) == FlightPhase::Aborted,
{
}

/// A rocket in orbit stays in orbit whatever event arrives.
pub proof fn lemma_orbit_is_final(event: FlightEvent)
    ensures
        next_phase(FlightPhase::Orbit, event) == FlightPhase::Orbit,
{
}

/// One event moves a flight that has not been aborted at most one phase
/// forward and never backward, and an abort only comes from ignition, Max-Q
/// or main engine cut-off.
pub proof fn lemma_one_phase_at_a_time(phase: FlightPhase, event: FlightEvent)
    requires
        phase != FlightPhase::Aborted,
    ensures
        next_phase(phase, event) == FlightPhase::Aborted ==> abortable(phase),
        next_phase(phase, event) != FlightPhase::Aborted ==> phase_rank(phase) <= phase_rank(
            next_phase(phase, event),
        ) <= phase_rank(phase) + 1,
{
}

/// Once aborted, a flight stays aborted through any further events.
pub proof fn lemma_abort_persists(events: Seq<FlightEvent>)
    ensures
        phase_after_events(FlightPhase::Aborted, events) == FlightPhase::Aborted,
    decreases events.len(),
{
    if events.len() > 0 {
        lemma_abort_persists(events.drop_last());
    }
}

/// No phase is skipped: along any sequence of events that ends in a phase of
/// the nominal flight, every phase between the starting one and the final one
/// was passed through. In particular a rocket cannot reach orbit from the pad
/// without going through ignition.
pub proof fn lemma_no_phase_skipped(start: FlightPhase, events: Seq<FlightEvent>, target: FlightPhase)
    requires
        start != FlightPhase::Aborted,
        phase_after_events(start, events) != FlightPhase::Aborted,
        phase_rank(start) <= phase_rank(target) <= phase_rank(phase_after_events(start, events)),
    ensures
        exists|i: int|
            0 <= i <= events.len() && #[trigger] phase_after_events(start, events.take(i)) == target,
    decreases events.len(),
{
    if events.len() == 0 {
        assert(events.take(0) =~= events);
    } else {
        let rest = events.drop_last();
        let prev = phase_after_events(start, rest);
        let last = phase_after_events(start, events);
        if prev == FlightPhase::Aborted {
            lemma_aborted_is_final(events.last());
        }
        lemma_one_phase_at_a_time(prev, events.last());
        if phase_rank(target) <= phase_rank(prev) {
            lemma_no_phase_skipped(start, rest, target);
            let i = choose|i: int|
                0 <= i <= rest.len() && #[trigger] phase_after_events(start, rest.take(i)) == target;
            assert(rest.take(i) =~= events.take(i));
        } else {
            assert(events.take(events.len() as int) =~= events);
            assert(phase_after_events(start, events.take(events.len() as int)) == last);
        }
    }
}

} // verus!
