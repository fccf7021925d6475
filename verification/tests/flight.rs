use flight_computer::errors::FlightError;
use flight_computer::events::{FlightCommand, FlightEvent};
use flight_computer::rocket::{Abortable, FlightPhase, Rocket, RocketState};
use flight_computer::simulation::simulated_frame;
use flight_computer::states::PreLaunch;
use flight_computer::supervisor::{monitor_status, process_event, FlightNotice, MonitorStatus};

fn telemetry(altitude_mm: i64) -> FlightEvent {
    FlightEvent::Telemetry { altitude_mm, velocity_mm_s: 340_000 }
}

fn fault() -> FlightEvent {
    FlightEvent::SubsystemFault(FlightError::EngineOverpressure(52_005))
}

fn data<S>(rocket: &Rocket<S>) -> (u64, u32, i64, i64) {
    (rocket.mass_g, rocket.fuel_level_ppm, rocket.altitude_mm, rocket.velocity_mm_s)
}

fn state_data(state: &RocketState) -> (u64, u32, i64, i64) {
    match state {
        RocketState::PreLaunch(r) => data(r),
        RocketState::Ignition(r) => data(r),
        RocketState::MaxQ(r) => data(r),
        RocketState::MECO(r) => data(r),
        RocketState::Separation(r) => data(r),
        RocketState::Orbit(r) => data(r),
        RocketState::Aborted(r) => data(r),
    }
}

#[test]
fn new_rocket_is_fuelled_on_the_pad() {
    let rocket = Rocket::<PreLaunch>::new();
    assert_eq!(data(&rocket), (549_054_000, 1_000_000, 0, 0));
}

#[test]
fn nominal_typestate_chain_keeps_the_rocket() {
    let rocket = Rocket::<PreLaunch>::new();
    let orbit = rocket.ignite().init_ascent().final_ascent().separate_stage().orbit_insertion();
    assert_eq!(data(&orbit), (549_054_000, 1_000_000, 0, 0));
    orbit.deploy_payload();
}

#[test]
fn abort_keeps_the_rocket_from_every_abortable_phase() {
    let mut rocket = Rocket::<PreLaunch>::new();
    rocket.altitude_mm = 1_234;
    rocket.velocity_mm_s = -5;
    let aborted = rocket.ignite().abort();
    assert_eq!(data(&aborted), (549_054_000, 1_000_000, 1_234, -5));
    let aborted = Rocket::<PreLaunch>::new().ignite().init_ascent().abort();
    assert_eq!(data(&aborted), (549_054_000, 1_000_000, 0, 0));
    let aborted = Rocket::<PreLaunch>::new().ignite().init_ascent().final_ascent().abort();
    assert_eq!(data(&aborted), (549_054_000, 1_000_000, 0, 0));
}

#[test]
fn nominal_flight_through_the_event_loop() {
    let mut state = RocketState::PreLaunch(Rocket::<PreLaunch>::new());
    let script = [
        (telemetry(2_000_000), FlightPhase::PreLaunch),
        (FlightEvent::Command(FlightCommand::Ignite), FlightPhase::Ignition),
        (telemetry(1_000_000), FlightPhase::Ignition),
        (telemetry(1_000_001), FlightPhase::MaxQ),
        (telemetry(3_000_000), FlightPhase::MaxQ),
        (telemetry(9_000_000), FlightPhase::MECO),
        (FlightEvent::MaxQDetected, FlightPhase::MECO),
        (telemetry(5_000_001), FlightPhase::Separation),
        (telemetry(6_000_001), FlightPhase::Orbit),
        (telemetry(99_000_000), FlightPhase::Orbit),
    ];
    for (event, expected) in script {
        let (next, notice) = process_event(state, event);
        assert_eq!(notice, FlightNotice::Nothing);
        assert_eq!(next.phase(), expected);
        assert_eq!(state_data(&next), (549_054_000, 1_000_000, 0, 0));
        state = next;
    }
}

#[test]
fn ignite_is_ignored_outside_the_pad() {
    let state = RocketState::PreLaunch(Rocket::<PreLaunch>::new());
    let (state, notice) = process_event(state, FlightEvent::Command(FlightCommand::Ignite));
    assert_eq!(notice, FlightNotice::Nothing);
    let (state, notice) = process_event(state, FlightEvent::Command(FlightCommand::Ignite));
    assert_eq!(notice, FlightNotice::IgniteIgnored);
    assert_eq!(state.phase(), FlightPhase::Ignition);
    for command in [FlightCommand::StageSeparation, FlightCommand::DeployPayload, FlightCommand::CutEngine] {
        let pad = RocketState::PreLaunch(Rocket::<PreLaunch>::new());
        let (pad, notice) = process_event(pad, FlightEvent::Command(command));
        assert_eq!(notice, FlightNotice::Nothing);
        assert_eq!(pad.phase(), FlightPhase::PreLaunch);
    }
}

#[test]
fn faults_abort_only_during_powered_ascent() {
    let pad = RocketState::PreLaunch(Rocket::<PreLaunch>::new());
    let (pad, notice) = process_event(pad, fault());
    assert_eq!(notice, FlightNotice::PadFault);
    assert_eq!(pad.phase(), FlightPhase::PreLaunch);
    assert!(!pad.is_aborted());

    let powered = [
        RocketState::Ignition(Rocket::<PreLaunch>::new().ignite()),
        RocketState::MaxQ(Rocket::<PreLaunch>::new().ignite().init_ascent()),
        RocketState::MECO(Rocket::<PreLaunch>::new().ignite().init_ascent().final_ascent()),
    ];
    for state in powered {
        let (state, notice) = process_event(state, fault());
        assert_eq!(notice, FlightNotice::MissionAborted);
        assert!(state.is_aborted());
        assert_eq!(state_data(&state), (549_054_000, 1_000_000, 0, 0));
        // Aborted is final.
        let (state, notice) = process_event(state, fault());
        assert_eq!(notice, FlightNotice::TooLateToAbort);
        let (state, _) = process_event(state, FlightEvent::Command(FlightCommand::Ignite));
        let (state, _) = process_event(state, telemetry(7_000_000));
        assert_eq!(state.phase(), FlightPhase::Aborted);
    }

    let separated = RocketState::Separation(
        Rocket::<PreLaunch>::new().ignite().init_ascent().final_ascent().separate_stage(),
    );
    let (separated, notice) = process_event(separated, fault());
    assert_eq!(notice, FlightNotice::TooLateToAbort);
    assert_eq!(separated.phase(), FlightPhase::Separation);
}

#[test]
fn monitor_reports() {
    let pad = RocketState::PreLaunch(Rocket::<PreLaunch>::new());
    assert_eq!(monitor_status(&pad), MonitorStatus::OnPad);
    let (lit, _) = process_event(pad, FlightEvent::Command(FlightCommand::Ignite));
    assert_eq!(monitor_status(&lit), MonitorStatus::EnginesOn);
    let (climbing, _) = process_event(lit, telemetry(1_500_000));
    assert_eq!(monitor_status(&climbing), MonitorStatus::InFlight);
    let (aborted, _) = process_event(climbing, fault());
    assert_eq!(monitor_status(&aborted), MonitorStatus::Aborted);
}

#[test]
fn simulated_feed_injects_overpressure_in_its_band() {
    assert_eq!(simulated_frame(4_000_000), vec![telemetry(4_000_000)]);
    assert_eq!(simulated_frame(4_000_001), vec![telemetry(4_000_001), fault()]);
    assert_eq!(simulated_frame(4_499_999), vec![telemetry(4_499_999), fault()]);
    assert_eq!(simulated_frame(4_500_000), vec![telemetry(4_500_000)]);
    assert_eq!(simulated_frame(-2_000), vec![telemetry(-2_000)]);
}
