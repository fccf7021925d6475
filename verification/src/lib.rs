//! Flight computer for a simulated rocket: a typestate flight-phase machine,
//! the event-driven phase supervisor, and the propulsion, navigation and
//! telemetry subsystem rules, all stated over integer engineering units.
pub mod errors;
pub mod events;
pub mod rocket;
pub mod sensors;
pub mod simulation;
pub mod states;
pub mod supervisor;
pub mod subsystems;
