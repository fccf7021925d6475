pub mod ignition;
pub mod max_q;
pub mod meco;
pub mod orbit;
pub mod pre_launch;
pub mod separation;

use vstd::prelude::*;

verus! {

/// The rocket is on the pad.
pub struct PreLaunch;

/// The engines are lit.
pub struct Ignition;

/// The rocket is climbing through maximum dynamic pressure.
pub struct MaxQ;

/// Main engine cut-off.
pub struct MECO;

/// The booster has separated from the capsule.
pub struct Separation;

/// The rocket is in orbit: terminal phase of a nominal flight.
pub struct Orbit;

/// The mission was aborted: terminal phase of a failed flight.
pub struct Aborted;

} // verus!
