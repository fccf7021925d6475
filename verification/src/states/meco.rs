use vstd::prelude::*;

use crate::rocket::{Abortable, FlightData, Rocket};
use crate::states::{Aborted, MECO, Separation};

verus! {

impl Rocket<MECO> {
    /// Separates the booster from the capsule: cut-off to separation.
    pub fn separate_stage(self) -> (rocket: Rocket<Separation>)
        ensures
            rocket@ == self@,
            (rocket.mass_g, rocket.fuel_level_ppm, rocket.altitude_mm, rocket.velocity_mm_s) == (
                self.mass_g,
                self.fuel_level_ppm,
                self.altitude_mm,
                self.velocity_mm_s,
            ),
    {
        self.transition()
    }
}

impl Abortable for Rocket<MECO> {
    open spec fn flight_data(&self) -> FlightData {
        self@
    }

    fn abort(self) -> (aborted: Rocket<Aborted>)
        ensures
            (aborted.mass_g, aborted.fuel_level_ppm, aborted.altitude_mm, aborted.velocity_mm_s) == (
                self.mass_g,
                self.fuel_level_ppm,
                self.altitude_mm,
                self.velocity_mm_s,
            ),
    {
        self.transition()
    }
}

} // verus!
