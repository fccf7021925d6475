use vstd::prelude::*;

use crate::rocket::{Abortable, FlightData, Rocket};
use crate::states::{Aborted, MaxQ, MECO};

verus! {

impl Rocket<MaxQ> {
    /// End of the atmospheric ascent: Max-Q to main engine cut-off.
    pub fn final_ascent(self) -> (rocket: Rocket<MECO>)
        ensures
            rocket@ == self@,
            (rocket.mass_g, rocket.fuel_level_ppm, rocket.altitude_mm, rocket.velocity_mm_s) == (
                self.mass_g,
                self.fuel_level_ppm,
                self.altitude_mm,
                self.velocity_mm_s,
            ),
    {
        self.transition()
    }
}

impl Abortable for Rocket<MaxQ> {
    open spec fn flight_data(&self) -> FlightData {
        self@
    }

    fn abort(self) -> (aborted: Rocket<Aborted>)
        ensures
            (aborted.mass_g, aborted.fuel_level_ppm, aborted.altitude_mm, aborted.velocity_mm_s) == (
                self.mass_g,
                self.fuel_level_ppm,
                self.altitude_mm,
                self.velocity_mm_s,
            ),
    {
        self.transition()
    }
}

} // verus!
