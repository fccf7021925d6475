pub mod navigation;
pub mod propulsion;
pub mod telemetry;
