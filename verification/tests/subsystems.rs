use flight_computer::errors::FlightError;
use flight_computer::events::FlightCommand;
use flight_computer::sensors::{Altimeter, Sensor};
use flight_computer::subsystems::propulsion::{
    PropulsionState, FUEL_BURN_PER_TICK, PROPELLANT_UNITS_PER_G, THRUST_VACUUM_N,
};
use flight_computer::subsystems::telemetry::{estimate_velocity, watchdog_fault, TelemetryClock};

const UNITS_PER_G: u64 = 341_271_420;

#[test]
fn burn_per_tick_matches_mass_flow() {
    // 934 kN / (348 s * 9.80665 m/s²) = 273.682 kg/s, so 27.368245 kg per 100 ms.
    assert_eq!(PROPELLANT_UNITS_PER_G, UNITS_PER_G);
    assert_eq!(FUEL_BURN_PER_TICK, 934_000 * 100 * 100_000);
    let grams = FUEL_BURN_PER_TICK as f64 / UNITS_PER_G as f64;
    assert!((grams - 27_368.245).abs() < 0.001);
}

#[test]
fn propulsion_commands_switch_the_engine() {
    let mut engine = PropulsionState::new(1_000_000);
    assert!(!engine.thrust_active);
    assert_eq!(engine.current_thrust_n, 0);
    assert_eq!(engine.fuel, 1_000_000 * UNITS_PER_G);
    engine.burn_tick();
    assert_eq!(engine.fuel, 1_000_000 * UNITS_PER_G);
    engine.apply_command(FlightCommand::Ignite);
    assert!(engine.thrust_active);
    assert_eq!(engine.current_thrust_n, THRUST_VACUUM_N);
    engine.apply_command(FlightCommand::StageSeparation);
    assert!(engine.thrust_active);
    engine.burn_tick();
    assert_eq!(engine.fuel, 1_000_000 * UNITS_PER_G - FUEL_BURN_PER_TICK);
    engine.apply_command(FlightCommand::CutEngine);
    assert!(!engine.thrust_active);
    assert_eq!(engine.current_thrust_n, 0);
    engine.burn_tick();
    assert_eq!(engine.fuel, 1_000_000 * UNITS_PER_G - FUEL_BURN_PER_TICK);
}

#[test]
fn propulsion_cuts_off_when_the_tank_runs_dry() {
    // 27.369 kg lasts past one tick (0.755 g left), not past two.
    let mut engine = PropulsionState::new(27_369);
    engine.apply_command(FlightCommand::Ignite);
    engine.burn_tick();
    assert_eq!(engine.fuel, 27_369 * UNITS_PER_G - FUEL_BURN_PER_TICK);
    assert!(engine.thrust_active);
    engine.burn_tick();
    assert_eq!(engine.fuel, 0);
    assert!(!engine.thrust_active);
    assert_eq!(engine.current_thrust_n, 0);

    let mut exact = PropulsionState::new(27_368);
    exact.apply_command(FlightCommand::Ignite);
    exact.burn_tick();
    assert_eq!(exact.fuel, 0);
    assert!(!exact.thrust_active);
}

#[test]
fn propulsion_burn_does_not_drift() {
    // Ten ticks burn 273.68245 kg: a 273.682 kg tank is empty after the tenth.
    let mut engine = PropulsionState::new(273_682);
    engine.apply_command(FlightCommand::Ignite);
    for _ in 0..9 {
        engine.burn_tick();
        assert!(engine.thrust_active);
    }
    engine.burn_tick();
    assert_eq!(engine.fuel, 0);
    assert!(!engine.thrust_active);
}

#[test]
fn altimeter_climbs_and_stays_within_noise() {
    let mut altimeter = Altimeter::new();
    assert_eq!(altimeter.current_altitude_mm, 0);
    let mut readings = Vec::new();
    for step in 1..=200i64 {
        let reading = altimeter.read();
        assert_eq!(altimeter.current_altitude_mm, step * 150_000);
        assert!(reading >= step * 150_000 - 2_500 && reading < step * 150_000 + 2_500);
        readings.push(reading - step * 150_000);
    }
    // The noise is drawn, not fixed.
    assert!(readings.iter().any(|&n| n != readings[0]));
}

#[test]
fn altimeter_with_given_noise() {
    let mut altimeter = Altimeter::new();
    assert_eq!(altimeter.read_with_noise(-2_500), 147_500);
    assert_eq!(altimeter.read_with_noise(2_499), 302_499);
    assert_eq!(altimeter.current_altitude_mm, 300_000);
}

#[test]
fn velocity_estimate() {
    // First frame or frames too close together: no estimate.
    assert_eq!(estimate_velocity(150_000, 0, 0), 0);
    assert_eq!(estimate_velocity(150_000, 0, 100_000), 0);
    // 150 m over one second.
    assert_eq!(estimate_velocity(150_000, 0, 1_000_000), 150_000);
    // Rounded toward zero, both ways.
    assert_eq!(estimate_velocity(1, 0, 300_000), 3);
    assert_eq!(estimate_velocity(0, 1, 300_000), -3);
    assert_eq!(estimate_velocity(147_500, 2_499, 1_000_001), 145_000);
}

#[test]
fn watchdog() {
    assert_eq!(watchdog_fault(1_000), None);
    assert_eq!(watchdog_fault(5_000), None);
    assert_eq!(watchdog_fault(5_001), Some(FlightError::LossOfSignal(5_001)));
}

#[test]
fn velocity_estimate_saturates() {
    assert_eq!(estimate_velocity(i64::MAX, i64::MIN, 100_001), i64::MAX);
    assert_eq!(estimate_velocity(i64::MIN, i64::MAX, 100_001), i64::MIN);
}

#[test]
fn telemetry_clock_first_frame_then_estimates() {
    let mut clock = TelemetryClock::new();
    assert_eq!(clock.frame(150_000, 5_000_000), 0);
    assert_eq!(clock.last_altitude_mm, 150_000);
    assert_eq!(clock.last_tick_us, Some(5_000_000));
    assert_eq!(clock.frame(300_000, 6_000_000), 150_000);
    // Too close to the previous frame: no estimate.
    assert_eq!(clock.frame(310_000, 6_050_000), 0);
    // A clock going backwards counts as no time elapsed.
    assert_eq!(clock.frame(320_000, 1_000), 0);
}

#[test]
fn telemetry_clock_run() {
    let mut clock = TelemetryClock::new();
    let frames = vec![(149_000, 0), (301_000, 1_000_000), (449_500, 2_000_000), (450_000, 2_000_001)];
    assert_eq!(clock.frames(&frames), vec![0, 152_000, 148_500, 0]);
    assert_eq!(clock.last_altitude_mm, 450_000);
    assert_eq!(clock.last_tick_us, Some(2_000_001));
    assert_eq!(clock.frames(&Vec::new()), Vec::<i64>::new());
    assert_eq!(clock.last_altitude_mm, 450_000);
}
