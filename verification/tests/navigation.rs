use flight_computer::errors::FlightError;
use flight_computer::events::FlightEvent;
use flight_computer::subsystems::navigation::{interpolate_expected_velocity, NavigationMonitor};

#[test]
fn interpolation_midpoint() {
    // Between (500 m, 80 m/s) and (1000 m, 150 m/s): at 750 m, 115 m/s.
    let result = interpolate_expected_velocity(750_000).unwrap();
    assert!((result - 115_000).abs() < 100, "got {result}");
}

#[test]
fn interpolation_exact_point() {
    let result = interpolate_expected_velocity(1_000_000).unwrap();
    assert!((result - 150_000).abs() < 100);
}

#[test]
fn interpolation_out_of_range_returns_none() {
    assert!(interpolate_expected_velocity(50_000_000).is_none());
    assert!(interpolate_expected_velocity(-1_000).is_none());
}

#[test]
fn interpolation_at_every_reference_point() {
    let points = [
        (0, 0),
        (150_000, 150_000),
        (500_000, 80_000),
        (1_000_000, 150_000),
        (2_000_000, 150_000),
        (3_000_000, 150_000),
        (5_000_000, 150_000),
        (8_000_000, 150_000),
        (10_000_000, 150_000),
    ];
    for (altitude, velocity) in points {
        assert_eq!(interpolate_expected_velocity(altitude), Some(velocity));
    }
}

#[test]
fn interpolation_on_falling_segment_rounds_down() {
    // Between (150 m, 150 m/s) and (500 m, 80 m/s): 150 + 1 * (-70_000) / 350_000.
    assert_eq!(interpolate_expected_velocity(150_001), Some(149_999));
    // Rising segment from the ground: 0 + 75_000 * 150_000 / 150_000.
    assert_eq!(interpolate_expected_velocity(75_000), Some(75_000));
}

#[test]
fn interpolation_edges_of_the_profile() {
    assert_eq!(interpolate_expected_velocity(0), Some(0));
    assert_eq!(interpolate_expected_velocity(-1), None);
    assert_eq!(interpolate_expected_velocity(10_000_000), Some(150_000));
    assert_eq!(interpolate_expected_velocity(10_000_001), None);
}

#[test]
fn navigation_reports_max_q_once() {
    let mut monitor = NavigationMonitor::new();
    let below = monitor.observe(8_499_999, 150_000);
    assert!(below.is_empty());
    assert!(!monitor.max_q_emitted);
    let first = monitor.observe(8_500_000, 150_000);
    assert_eq!(first, vec![FlightEvent::MaxQDetected]);
    assert!(monitor.max_q_emitted);
    let second = monitor.observe(9_000_000, 150_000);
    assert!(second.is_empty());
}

#[test]
fn navigation_tolerance_band() {
    let mut monitor = NavigationMonitor::new();
    // 30% of 150 m/s is 45 m/s: 195 m/s is on the edge and tolerated.
    assert!(monitor.observe(2_000_000, 195_000).is_empty());
    assert!(monitor.observe(2_000_000, 105_000).is_empty());
    let fast = monitor.observe(2_000_000, 195_001);
    assert_eq!(
        fast,
        vec![FlightEvent::SubsystemFault(FlightError::NavigationDeviation {
            altitude_mm: 2_000_000,
            actual_mm_s: 195_001,
            expected_mm_s: 150_000,
            deviation_bp: 3_000,
        })]
    );
    let slow = monitor.observe(2_000_000, 100_000);
    assert_eq!(
        slow,
        vec![FlightEvent::SubsystemFault(FlightError::NavigationDeviation {
            altitude_mm: 2_000_000,
            actual_mm_s: 100_000,
            expected_mm_s: 150_000,
            deviation_bp: -3_333,
        })]
    );
}

#[test]
fn navigation_on_the_ground_and_out_of_profile() {
    let mut monitor = NavigationMonitor::new();
    // No expected velocity at rest: standing still is fine, any motion deviates.
    assert!(monitor.observe(0, 0).is_empty());
    assert_eq!(
        monitor.observe(0, 1),
        vec![FlightEvent::SubsystemFault(FlightError::NavigationDeviation {
            altitude_mm: 0,
            actual_mm_s: 1,
            expected_mm_s: 0,
            deviation_bp: i64::MAX,
        })]
    );
    // Above the profile nothing is compared, but Max-Q is still reported.
    assert_eq!(monitor.observe(20_000_000, 999_000), vec![FlightEvent::MaxQDetected]);
}

#[test]
fn navigation_max_q_and_deviation_in_one_frame() {
    let mut monitor = NavigationMonitor::new();
    let events = monitor.observe(9_000_000, 300_000);
    assert_eq!(
        events,
        vec![
            FlightEvent::MaxQDetected,
            FlightEvent::SubsystemFault(FlightError::NavigationDeviation {
                altitude_mm: 9_000_000,
                actual_mm_s: 300_000,
                expected_mm_s: 150_000,
                deviation_bp: 10_000,
            }),
        ]
    );
}

#[test]
fn navigation_over_a_run_of_frames() {
    let mut monitor = NavigationMonitor::new();
    let frames = vec![(1_000_000, 150_000), (8_500_000, 150_000), (9_000_000, 300_000), (20_000_000, 0)];
    let events = monitor.observe_all(&frames);
    assert_eq!(
        events,
        vec![
            FlightEvent::MaxQDetected,
            FlightEvent::SubsystemFault(FlightError::NavigationDeviation {
                altitude_mm: 9_000_000,
                actual_mm_s: 300_000,
                expected_mm_s: 150_000,
                deviation_bp: 10_000,
            }),
        ]
    );
    assert!(monitor.max_q_emitted);
    assert!(monitor.observe_all(&vec![(9_500_000, 150_000)]).is_empty());
}
