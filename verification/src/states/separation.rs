use vstd::prelude::*;

use crate::rocket::Rocket;
use crate::states::{Orbit, Separation};

verus! {

impl Rocket<Separation> {
    /// Orbital insertion: separation to orbit.
    pub fn orbit_insertion(self) -> (rocket: Rocket<Orbit>)
        ensures
            rocket@ == self@,
            (rocket.mass_g, rocket.fuel_level_ppm, rocket.altitude_mm, rocket.velocity_mm_s) == (
                self.mass_g,
                self.fuel_level_ppm,
                self.altitude_mm,
                self.velocity_mm_s,
            ),
    {
        self.transition()
    }
}

} // verus!
