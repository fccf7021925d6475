use vstd::prelude::*;

use crate::rocket::Rocket;
use crate::states::Orbit;

verus! {

impl Rocket<Orbit> {
    /// Releases the payload. This is the end of the line: the rocket is
    /// consumed and no phase follows.
    pub fn deploy_payload(self) {
    }
}

} // verus!
