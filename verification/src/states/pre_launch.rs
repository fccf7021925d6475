use core::marker::PhantomData;
use vstd::prelude::*;

use crate::rocket::{FlightData, PhaseMarker, Rocket};
use crate::states::{Ignition, PreLaunch};

verus! {

/// Lift-off mass of the vehicle, in grams.
pub const LAUNCH_MASS_G: u64 = 549_054_000;

/// A full tank, in parts per million.
pub const FULL_TANK_PPM: u32 = 1_000_000;

/// The rocket as it stands on the pad before launch.
pub open spec fn launch_configuration() -> FlightData {
    FlightData {
        mass_g: LAUNCH_MASS_G as nat,
        fuel_level_ppm: FULL_TANK_PPM as nat,
        altitude_mm: 0,
        velocity_mm_s: 0,
    }
}

impl Rocket<PreLaunch> {
    /// A fuelled rocket at rest on the pad.
    pub fn new() -> (rocket: Self)
        ensures
            rocket@ == launch_configuration(),
            rocket.mass_g == LAUNCH_MASS_G,
            rocket.fuel_level_ppm == FULL_TANK_PPM,
            rocket.altitude_mm == 0,
            rocket.velocity_mm_s == 0,
    {
        Rocket {
            mass_g: LAUNCH_MASS_G,
            fuel_level_ppm: FULL_TANK_PPM,
            altitude_mm: 0,
            velocity_mm_s: 0,
            _state: PhaseMarker(PhantomData),
        }
    }

    /// Lights the engines: pre-launch to ignition.
    pub fn ignite(self) -> (rocket: Rocket<Ignition>)
        ensures
            rocket@ == self@,
            (rocket.mass_g, rocket.fuel_level_ppm, rocket.altitude_mm, rocket.velocity_mm_s) == (
                self.mass_g,
                self.fuel_level_ppm,
                self.altitude_mm,
                self.velocity_mm_s,
            ),
    {
        self.transition()
    }
}

} // verus!
