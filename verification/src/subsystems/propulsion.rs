//! Engine control: commands switch the engine, and each control tick burns
//! propellant while the engine runs, cutting it off when the tank runs dry.
use vstd::prelude::*;

use crate::events::FlightCommand;

verus! {

/// Vacuum thrust of one engine, in newtons.
pub const THRUST_VACUUM_N: u64 = 934_000;

/// Vacuum specific impulse, in seconds.
pub const ISP_VACUUM_S: u64 = 348;

/// Standard gravity, in units of 10^-5 m/s².
pub const G0_E5: u64 = 980_665;

/// Period of the engine control loop, in milliseconds.
pub const TICK_MS: u64 = 100;

/// Propellant is counted in units of 1/(Isp · g0) gram, with g0 in units of
/// 10^-5 m/s², so that the engine burns a whole number of units per tick.
pub const PROPELLANT_UNITS_PER_G: u64 = 341_271_420;

/// Propellant burnt per control tick at full thrust, in propellant units:
/// exactly the mass flow F / (Isp · g0) over one tick.
pub const FUEL_BURN_PER_TICK: u64 = 9_340_000_000_000;

/// The propellant unit is 1/(Isp · g0) gram, and the burn per tick is the
/// engine's mass flow F / (Isp · g0) over one tick, exactly: in grams it is
/// `FUEL_BURN_PER_TICK / PROPELLANT_UNITS_PER_G` = F · Δt / (Isp · g0).
pub proof fn lemma_burn_per_tick_is_mass_flow()
    ensures
        PROPELLANT_UNITS_PER_G == ISP_VACUUM_S * G0_E5,
        FUEL_BURN_PER_TICK == THRUST_VACUUM_N * TICK_MS * 100_000,
{
}

/// State of the propulsion subsystem.
pub struct PropulsionState {
    pub thrust_active: bool,
    /// Current thrust, in newtons.
    pub current_thrust_n: u64,
    /// Remaining propellant, in propellant units (see `PROPELLANT_UNITS_PER_G`).
    pub fuel: u64,
}

impl PropulsionState {
    /// The thrust matches the engine switch: full vacuum thrust when the engine
    /// runs, none when it is off.
    pub open spec fn wf(&self) -> bool {
        self.current_thrust_n == if self.thrust_active { THRUST_VACUUM_N } else { 0 }
    }

    /// An engine at rest with `initial_fuel_g` grams of propellant.
    pub fn new(initial_fuel_g: u64) -> (state: Self)
        requires
            initial_fuel_g * PROPELLANT_UNITS_PER_G <= u64::MAX,
        ensures
            state.wf(),
            !state.thrust_active,
            state.current_thrust_n == 0,
            state.fuel == initial_fuel_g * PROPELLANT_UNITS_PER_G,
    {
        PropulsionState {
            thrust_active: false,
            current_thrust_n: 0,
            fuel: initial_fuel_g * PROPELLANT_UNITS_PER_G,
        }
    }

    /// Applies one command: `Ignite` lights the engine at full thrust,
    /// `CutEngine` shuts it down, and every other command leaves it as it is.
    /// The propellant is never touched.
    pub fn apply_command(&mut self, command: FlightCommand)
        requires
            old(self).wf(),
        ensures
            final(self).wf(),
            final(self).fuel == old(self).fuel,
            final(self).thrust_active == match command {
                FlightCommand::Ignite => true,
                FlightCommand::CutEngine => false,
                _ => old(self).thrust_active,
            },
    {
        match command {
            FlightCommand::Ignite => {
                self.thrust_active = true;
                self.current_thrust_n = THRUST_VACUUM_N;
            },
            FlightCommand::CutEngine => {
                self.thrust_active = false;
                self.current_thrust_n = 0;
            },
            _ => {},
        }
    }

    /// One control tick. A running engine burns `FUEL_BURN_PER_TICK` units; when
    /// that empties the tank, the tank is set to zero and the engine is cut
    /// off. An engine at rest burns nothing. After any tick an empty tank
    /// means the engine is off, and the propellant never grows.
    pub fn burn_tick(&mut self)
        requires
            old(self).wf(),
        ensures
            final(self).wf(),
            old(self).thrust_active && old(self).fuel > FUEL_BURN_PER_TICK ==> {
                &&& final(self).fuel == old(self).fuel - FUEL_BURN_PER_TICK
                &&& final(self).thrust_active
            },
            old(self).thrust_active && old(self).fuel <= FUEL_BURN_PER_TICK ==> {
                &&& final(self).fuel == 0
                &&& !final(self).thrust_active
            },
            !old(self).thrust_active ==> *final(self) == *old(self),
            final(self).fuel <= old(self).fuel,
            final(self).fuel == 0 ==> !final(self).thrust_active,
    {
        if self.thrust_active {
            if self.fuel <= FUEL_BURN_PER_TICK {
                self.fuel = 0;
                self.thrust_active = false;
                self.current_thrust_n = 0;
            } else {
                self.fuel = self.fuel - FUEL_BURN_PER_TICK;
            }
        }
    }
}

} // verus!
