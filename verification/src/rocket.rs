use core::marker::PhantomData;
use vstd::prelude::*;

use crate::states::{Aborted, Ignition, MECO, MaxQ, Orbit, PreLaunch, Separation};

verus! {

/// The physical quantities a rocket carries, as mathematical values.
pub struct FlightData {
    pub mass_g: nat,
    pub fuel_level_ppm: nat,
    pub altitude_mm: int,
    pub velocity_mm_s: int,
}

/// The type-level mark of a rocket's flight phase. Only this crate can make
/// one.
pub struct PhaseMarker<State>(pub(crate) PhantomData<State>);

/// A rocket whose flight phase is fixed by its type parameter. Only this
/// crate can build one, so outside it a rocket reaches a phase only through
/// the phase transitions, starting on the pad with `Rocket::new`.
///
/// Mass is in grams, the fuel level in parts per million of a full tank,
/// altitude in millimetres and velocity in millimetres per second.
pub struct Rocket<State> {
    pub _state: PhaseMarker<State>,
    pub mass_g: u64,
    pub fuel_level_ppm: u32,
    pub altitude_mm: i64,
    pub velocity_mm_s: i64,
}

impl<State> View for Rocket<State> {
    type V = FlightData;

    open spec fn view(&self) -> FlightData {
        FlightData {
            mass_g: self.mass_g as nat,
            fuel_level_ppm: self.fuel_level_ppm as nat,
            altitude_mm: self.altitude_mm as int,
            velocity_mm_s: self.velocity_mm_s as int,
        }
    }
}

impl<State> Rocket<State> {
    /// Moves the rocket into another phase, carrying every physical quantity over.
    pub(crate) fn transition<NewState>(self) -> (next: Rocket<NewState>)
        ensures
            next@ == self@,
            (next.mass_g, next.fuel_level_ppm, next.altitude_mm, next.velocity_mm_s) == (
                self.mass_g,
                self.fuel_level_ppm,
                self.altitude_mm,
                self.velocity_mm_s,
            ),
    {
        Rocket {
            _state: PhaseMarker(PhantomData),
            mass_g: self.mass_g,
            fuel_level_ppm: self.fuel_level_ppm,
            altitude_mm: self.altitude_mm,
            velocity_mm_s: self.velocity_mm_s,
        }
    }
}

/// A phase from which the mission can be aborted.
pub trait Abortable: Sized {
    /// The physical quantities of the rocket before the abort.
    spec fn flight_data(&self) -> FlightData;

    /// Aborts the mission; the rocket keeps its physical quantities.
    fn abort(self) -> (aborted: Rocket<Aborted>)
        ensures
            aborted@ == self.flight_data(),
    ;
}

/// The flight phase of a rocket, as a value.
#[derive(Debug, Clone, Copy, PartialEq, Eq, Structural)]
pub enum FlightPhase {
    PreLaunch,
    Ignition,
    MaxQ,
    MECO,
    Separation,
    Orbit,
    Aborted,
}

/// A rocket in whichever phase it currently is: the run-time face of the
/// typestate machine, as the event loop holds it.
pub enum RocketState {
    PreLaunch(Rocket<PreLaunch>),
    Ignition(Rocket<Ignition>),
    MaxQ(Rocket<MaxQ>),
    MECO(Rocket<MECO>),
    Separation(Rocket<Separation>),
    Orbit(Rocket<Orbit>),
    Aborted(Rocket<Aborted>),
}

impl RocketState {
    /// The phase this state is in.
    pub open spec fn phase_of(&self) -> FlightPhase {
        match self {
            RocketState::PreLaunch(_) => FlightPhase::PreLaunch,
            RocketState::Ignition(_) => FlightPhase::Ignition,
            RocketState::MaxQ(_) => FlightPhase::MaxQ,
            RocketState::MECO(_) => FlightPhase::MECO,
            RocketState::Separation(_) => FlightPhase::Separation,
            RocketState::Orbit(_) => FlightPhase::Orbit,
            RocketState::Aborted(_) => FlightPhase::Aborted,
        }
    }

    /// The physical quantities of the rocket inside.
    pub open spec fn data_of(&self) -> FlightData {
        match self {
            RocketState::PreLaunch(r) => r@,
            RocketState::Ignition(r) => r@,
            RocketState::MaxQ(r) => r@,
            RocketState::MECO(r) => r@,
            RocketState::Separation(r) => r@,
            RocketState::Orbit(r) => r@,
            RocketState::Aborted(r) => r@,
        }
    }

    /// The mass, fuel level, altitude and velocity fields of the rocket inside.
    pub open spec fn fields_of(&self) -> (u64, u32, i64, i64) {
        match self {
            RocketState::PreLaunch(r) => (r.mass_g, r.fuel_level_ppm, r.altitude_mm, r.velocity_mm_s),
            RocketState::Ignition(r) => (r.mass_g, r.fuel_level_ppm, r.altitude_mm, r.velocity_mm_s),
            RocketState::MaxQ(r) => (r.mass_g, r.fuel_level_ppm, r.altitude_mm, r.velocity_mm_s),
            RocketState::MECO(r) => (r.mass_g, r.fuel_level_ppm, r.altitude_mm, r.velocity_mm_s),
            RocketState::Separation(r) => (r.mass_g, r.fuel_level_ppm, r.altitude_mm, r.velocity_mm_s),
            RocketState::Orbit(r) => (r.mass_g, r.fuel_level_ppm, r.altitude_mm, r.velocity_mm_s),
            RocketState::Aborted(r) => (r.mass_g, r.fuel_level_ppm, r.altitude_mm, r.velocity_mm_s),
        }
    }

    /// The phase this state is in.
    pub fn phase(&self) -> (phase: FlightPhase)
        ensures
            phase == self.phase_of(),
    {
        match self {
            RocketState::PreLaunch(_) => FlightPhase::PreLaunch,
            RocketState::Ignition(_) => FlightPhase::Ignition,
            RocketState::MaxQ(_) => FlightPhase::MaxQ,
            RocketState::MECO(_) => FlightPhase::MECO,
            RocketState::Separation(_) => FlightPhase::Separation,
            RocketState::Orbit(_) => FlightPhase::Orbit,
            RocketState::Aborted(_) => FlightPhase::Aborted,
        }
    }

    /// Whether the mission has been aborted.
    pub fn is_aborted(&self) -> (aborted: bool)
        ensures
            aborted == (self.phase_of() == FlightPhase::Aborted),
    {
        match self {
            RocketState::Aborted(_) => true,
            _ => false,
        }
    }
}

} // verus!
