//! Navigation: compares the measured velocity with a reference trajectory
//! and reports Max-Q once, when the rocket first reaches its altitude.
use vstd::prelude::*;

use crate::errors::FlightError;
use crate::events::FlightEvent;
use crate::subsystems::telemetry::{clamp_to_i64, lemma_floor_bracket, quotient_toward_zero};
use vstd::arithmetic::div_mod::lemma_div_multiples_vanish;

verus! {

/// Altitude at which Max-Q is reported, in millimetres.
pub const MAX_Q_ALTITUDE_MM: i64 = 8_500_000;

/// Tolerated deviation from the expected velocity, in percent of it.
pub const DEVIATION_TOLERANCE_PCT: i64 = 30;

/// The reference trajectory: pairs (altitude in millimetres, expected velocity
/// in millimetres per second), by increasing altitude.
pub open spec fn reference_profile() -> Seq<(i64, i64)> {
    seq![
        (0, 0),
        (150_000, 150_000),
        (500_000, 80_000),
        (1_000_000, 150_000),
        (2_000_000, 150_000),
        (3_000_000, 150_000),
        (5_000_000, 150_000),
        (8_000_000, 150_000),
        (10_000_000, 150_000),
    ]
}

/// The straight line through `low` and `high`, at `altitude`, rounded down.
pub open spec fn segment_velocity(low: (i64, i64), high: (i64, i64), altitude: int) -> int {
    low.1 + (altitude - low.0) * (high.1 - low.1) / (high.0 - low.0)
}

/// The velocity on the first segment, from the `i`-th on, whose altitudes
/// enclose `altitude`.
pub open spec fn velocity_from_segment(profile: Seq<(i64, i64)>, altitude: int, i: int) -> Option<int>
    decreases profile.len() - i,
{
    if i < 0 || i + 1 >= profile.len() {
        None
    } else if profile[i].0 <= altitude <= profile[i + 1].0 {
        Some(segment_velocity(profile[i], profile[i + 1], altitude))
    } else {
        velocity_from_segment(profile, altitude, i + 1)
    }
}

/// The expected velocity at `altitude`: linear interpolation between the two
/// reference points that enclose it, or none outside the reference trajectory.
pub open spec fn expected_velocity(altitude: int) -> Option<int> {
    let profile = reference_profile();
    if altitude < profile[0].0 || altitude > profile.last().0 {
        None
    } else {
        velocity_from_segment(profile, altitude, 0)
    }
}

/// Whether `actual` leaves the tolerance band around `expected`.
pub open spec fn deviates(actual: int, expected: int) -> bool {
    let gap = if actual >= expected { actual - expected } else { expected - actual };
    100 * gap > DEVIATION_TOLERANCE_PCT * expected
}

/// Relative deviation of `actual` from `expected`, in basis points, rounded
/// toward zero and limited to the range of an `i64`; with no expected
/// velocity any actual one is an unbounded deviation of its sign.
pub open spec fn deviation_basis_points(actual: int, expected: int) -> int {
    if expected == 0 {
        if actual > 0 {
            i64::MAX as int
        } else {
            i64::MIN as int
        }
    } else {
        clamp_to_i64(quotient_toward_zero((actual - expected) * 10_000, expected))
    }
}

/// The Max-Q report for one frame: present when the frame is the first to
/// reach the Max-Q altitude.
pub open spec fn max_q_report(max_q_emitted: bool, altitude_mm: i64) -> Seq<FlightEvent> {
    if !max_q_emitted && altitude_mm >= MAX_Q_ALTITUDE_MM {
        seq![FlightEvent::MaxQDetected]
    } else {
        Seq::empty()
    }
}

/// The navigation fault for one frame: present when the velocity deviates
/// from the reference trajectory at the frame's altitude.
pub open spec fn deviation_report(altitude_mm: i64, velocity_mm_s: i64) -> Seq<FlightEvent> {
    match expected_velocity(altitude_mm as int) {
        Some(expected) => if deviates(velocity_mm_s as int, expected) {
            seq![
                FlightEvent::SubsystemFault(
                    FlightError::NavigationDeviation {
                        altitude_mm,
                        actual_mm_s: velocity_mm_s,
                        expected_mm_s: expected as i64,
                        deviation_bp: deviation_basis_points(velocity_mm_s as int, expected) as i64,
                    },
                ),
            ]
        } else {
            Seq::empty()
        },
        None => Seq::empty(),
    }
}

/// The events navigation sends for one frame, in order: the Max-Q report,
/// then the navigation fault.
pub open spec fn navigation_events(max_q_emitted: bool, altitude_mm: i64, velocity_mm_s: i64) -> Seq<
    FlightEvent,
> {
    max_q_report(max_q_emitted, altitude_mm) + deviation_report(altitude_mm, velocity_mm_s)
}

/// Whether Max-Q has been reported after the frames `frames`, given whether
/// it had been before them.
pub open spec fn max_q_latched_after(max_q_emitted: bool, frames: Seq<(i64, i64)>) -> bool
    decreases frames.len(),
{
    if frames.len() == 0 {
        max_q_emitted
    } else {
        max_q_latched_after(max_q_emitted, frames.drop_last()) || frames.last().0 >= MAX_Q_ALTITUDE_MM
    }
}

/// Everything navigation sends, in order, for the frames `frames`
/// (altitude, velocity), given whether Max-Q had been reported before them.
pub open spec fn navigation_output(max_q_emitted: bool, frames: Seq<(i64, i64)>) -> Seq<FlightEvent>
    decreases frames.len(),
{
    if frames.len() == 0 {
        Seq::empty()
    } else {
        let rest = frames.drop_last();
        navigation_output(max_q_emitted, rest) + navigation_events(
            max_q_latched_after(max_q_emitted, rest),
            frames.last().0,
            frames.last().1,
        )
    }
}

/// How many Max-Q reports `events` holds.
pub open spec fn max_q_reports(events: Seq<FlightEvent>) -> nat
    decreases events.len(),
{
    if events.len() == 0 {
        0
    } else {
        max_q_reports(events.drop_last()) + if events.last() is MaxQDetected {
            1nat
        } else {
            0nat
        }
    }
}

proof fn lemma_max_q_reports_concat(a: Seq<FlightEvent>, b: Seq<FlightEvent>)
    ensures
        max_q_reports(a + b) == max_q_reports(a) + max_q_reports(b),
    decreases b.len(),
{
    if b.len() > 0 {
        lemma_max_q_reports_concat(a, b.drop_last());
        assert((a + b).drop_last() =~= a + b.drop_last());
    } else {
        assert(a + b =~= a);
    }
}

/// Max-Q is reported exactly once over any run of frames that reaches its
/// altitude, and never otherwise; once reported it is never reported again.
pub proof fn lemma_max_q_reported_once(max_q_emitted: bool, frames: Seq<(i64, i64)>)
    ensures
        max_q_reports(navigation_output(max_q_emitted, frames)) == if !max_q_emitted
            && max_q_latched_after(max_q_emitted, frames) {
            1nat
        } else {
            0nat
        },
        max_q_emitted ==> max_q_latched_after(max_q_emitted, frames),
    decreases frames.len(),
{
    if frames.len() > 0 {
        let rest = frames.drop_last();
        let latched = max_q_latched_after(max_q_emitted, rest);
        let (altitude, velocity) = frames.last();
        lemma_max_q_reported_once(max_q_emitted, rest);
        let max_q = max_q_report(latched, altitude);
        let deviation = deviation_report(altitude, velocity);
        lemma_max_q_reports_concat(navigation_output(max_q_emitted, rest), max_q + deviation);
        lemma_max_q_reports_concat(max_q, deviation);
        assert(max_q_reports(deviation) == 0) by {
            reveal_with_fuel(max_q_reports, 2);
        }
        assert(max_q_reports(max_q) == if !latched && altitude >= MAX_Q_ALTITUDE_MM {
            1nat
        } else {
            0nat
        }) by {
            reveal_with_fuel(max_q_reports, 2);
        }
        assert(navigation_output(max_q_emitted, frames) == navigation_output(max_q_emitted, rest) + (
        max_q + deviation));
    }
}

/// The reference points, by increasing altitude, with velocities between
/// zero and the cruise velocity.
proof fn lemma_profile_shape()
    ensures
        reference_profile().len() == 9,
        reference_profile()[0].0 == 0,
        reference_profile()[8].0 == 10_000_000,
        forall|i: int|
            0 <= i < 9 ==> 0 <= #[trigger] reference_profile()[i].0 <= 10_000_000 && 0
                <= reference_profile()[i].1 <= 150_000,
        forall|a: int, b: int|
            0 <= a < b < 9 ==> #[trigger] reference_profile()[a].0 < #[trigger] reference_profile()[b].0,
{
    let p = reference_profile();
    assert(p[0] == (0i64, 0i64));
    assert(p[1] == (150_000i64, 150_000i64));
    assert(p[2] == (500_000i64, 80_000i64));
    assert(p[3] == (1_000_000i64, 150_000i64));
    assert(p[4] == (2_000_000i64, 150_000i64));
    assert(p[5] == (3_000_000i64, 150_000i64));
    assert(p[6] == (5_000_000i64, 150_000i64));
    assert(p[7] == (8_000_000i64, 150_000i64));
    assert(p[8] == (10_000_000i64, 150_000i64));
}

/// Searching the segments from the `j`-th on finds the straight-line value
/// of segment `i` whenever segment `i` encloses the altitude and `j <= i`.
proof fn lemma_segment_search(altitude: int, j: int, i: int)
    requires
        0 <= j <= i < 8,
        reference_profile()[i].0 <= altitude <= reference_profile()[i + 1].0,
    ensures
        velocity_from_segment(reference_profile(), altitude, j) == Some(
            segment_velocity(reference_profile()[i], reference_profile()[i + 1], altitude),
        ),
    decreases i - j,
{
    let p = reference_profile();
    lemma_profile_shape();
    if j < i {
        if p[j].0 <= altitude <= p[j + 1].0 {
            // The two segments touch at the altitude: the line of the earlier
            // one ends where the line of the later one starts.
            assert(j + 1 == i);
            assert(p[i].0 < p[i + 1].0);
            assert(p[j].0 < p[i].0);
            let span_j = p[i].0 - p[j].0;
            let span_i = p[i + 1].0 - p[i].0;
            assert(altitude == p[i].0);
            lemma_div_multiples_vanish(p[i].1 - p[j].1, span_j);
            assert((altitude - p[j].0) * (p[i].1 - p[j].1) == span_j * (p[i].1 - p[j].1));
            let rise_i = p[i + 1].1 - p[i].1;
            assert((altitude - p[i].0) * rise_i == 0) by (nonlinear_arith)
                requires
                    altitude - p[i].0 == 0,
            ;
            lemma_div_multiples_vanish(0, span_i);
            assert(0int / span_i == 0) by {
                assert(span_i * 0 == 0);
            }
        } else {
            lemma_segment_search(altitude, j + 1, i);
        }
    }
}

/// Inside the reference trajectory there is always an expected velocity: the
/// straight line through the two reference points of any segment that
/// encloses the altitude.
pub proof fn lemma_expected_velocity_on_segment(altitude: int, i: int)
    requires
        0 <= i < 8,
        reference_profile()[i].0 <= altitude <= reference_profile()[i + 1].0,
    ensures
        expected_velocity(altitude) == Some(
            segment_velocity(reference_profile()[i], reference_profile()[i + 1], altitude),
        ),
{
    lemma_profile_shape();
    lemma_segment_search(altitude, 0, i);
}

/// The expected velocity on a segment is the straight line through its two
/// reference points rounded down: the velocity `v` with
/// `span · (v - low velocity) <= (altitude - low altitude) · rise < span · (v - low velocity + 1)`,
/// and it lies between the two reference velocities.
pub proof fn lemma_expected_velocity_rounds_down(altitude: int, i: int)
    requires
        0 <= i < 8,
        reference_profile()[i].0 <= altitude <= reference_profile()[i + 1].0,
    ensures
        expected_velocity(altitude) is Some,
        ({
            let low = reference_profile()[i];
            let high = reference_profile()[i + 1];
            let v = expected_velocity(altitude)->0;
            let span = high.0 - low.0;
            let rise = high.1 - low.1;
            &&& span * (v - low.1) <= (altitude - low.0) * rise < span * (v - low.1 + 1)
            &&& (low.1 <= v <= high.1 || high.1 <= v <= low.1)
        }),
{
    let p = reference_profile();
    lemma_profile_shape();
    lemma_expected_velocity_on_segment(altitude, i);
    let low = p[i];
    let high = p[i + 1];
    let span = high.0 - low.0;
    let rise = high.1 - low.1;
    let climb = (altitude - low.0) * rise;
    assert(p[i].0 < p[i + 1].0);
    lemma_floor_bracket(climb, span as int);
    let q = climb / span;
    assert(expected_velocity(altitude)->0 == low.1 + q);
    assert(span * (q + 1) == span * q + span) by (nonlinear_arith);
    assert(0 <= altitude - low.0 <= span);
    if rise >= 0 {
        assert(0 <= climb <= span * rise) by (nonlinear_arith)
            requires
                climb == (altitude - low.0) * rise,
                0 <= altitude - low.0 <= span,
                rise >= 0,
        ;
        assert(0 <= q <= rise) by (nonlinear_arith)
            requires
                span * q <= climb < span * q + span,
                0 <= climb <= span * rise,
                span > 0,
        ;
    } else {
        assert(span * rise <= climb <= 0) by (nonlinear_arith)
            requires
                climb == (altitude - low.0) * rise,
                0 <= altitude - low.0 <= span,
                rise < 0,
        ;
        assert(rise <= q <= 0) by (nonlinear_arith)
            requires
                span * q <= climb < span * q + span,
                span * rise <= climb <= 0,
                span > 0,
        ;
    }
}

/// At each reference point the expected velocity is that point's velocity.
pub proof fn lemma_reference_points_exact(k: int)
    requires
        0 <= k < 9,
    ensures
        expected_velocity(reference_profile()[k].0 as int) == Some(reference_profile()[k].1 as int),
{
    let p = reference_profile();
    lemma_profile_shape();
    if k < 8 {
        lemma_expected_velocity_on_segment(p[k].0 as int, k);
        assert(p[k].0 < p[k + 1].0);
        let span = p[k + 1].0 - p[k].0;
        let rise = p[k + 1].1 - p[k].1;
        assert((p[k].0 - p[k].0) * rise == 0) by (nonlinear_arith);
        lemma_div_multiples_vanish(0, span);
    } else {
        lemma_expected_velocity_on_segment(p[8].0 as int, 7);
        assert(p[7].0 < p[8].0);
        let span = p[8].0 - p[7].0;
        assert((p[8].0 - p[7].0) * (p[8].1 - p[7].1) == span * (p[8].1 - p[7].1));
        lemma_div_multiples_vanish(p[8].1 - p[7].1, span);
    }
}

/// There is an expected velocity exactly at the altitudes the reference
/// trajectory covers, from the ground to 10 km.
pub proof fn lemma_expected_velocity_in_range(altitude: int)
    ensures
        expected_velocity(altitude) is Some <==> 0 <= altitude <= 10_000_000,
{
    let p = reference_profile();
    lemma_profile_shape();
    if 0 <= altitude <= 10_000_000 {
        let i: int = if altitude <= p[1].0 {
            0
        } else if altitude <= p[2].0 {
            1
        } else if altitude <= p[3].0 {
            2
        } else if altitude <= p[4].0 {
            3
        } else if altitude <= p[5].0 {
            4
        } else if altitude <= p[6].0 {
            5
        } else if altitude <= p[7].0 {
            6
        } else {
            7
        };
        lemma_expected_velocity_on_segment(altitude, i);
    }
}

/// The reference trajectory as a vector.
fn trajectory_profile() -> (profile: Vec<(i64, i64)>)
    ensures
        profile@ == reference_profile(),
{
    let mut profile = Vec::new();
    profile.push((0, 0));
    profile.push((150_000, 150_000));
    profile.push((500_000, 80_000));
    profile.push((1_000_000, 150_000));
    profile.push((2_000_000, 150_000));
    profile.push((3_000_000, 150_000));
    profile.push((5_000_000, 150_000));
    profile.push((8_000_000, 150_000));
    profile.push((10_000_000, 150_000));
    assert(profile@ =~= reference_profile());
    profile
}

/// The expected velocity at `altitude_mm`, by linear interpolation on the
/// reference trajectory; none outside it.
pub fn interpolate_expected_velocity(altitude_mm: i64) -> (expected: Option<i64>)
    ensures
        match expected {
            Some(v) => expected_velocity(altitude_mm as int) == Some(v as int) && 0 <= v <= 150_000,
            None => expected_velocity(altitude_mm as int) is None,
        },
        expected is Some <==> 0 <= altitude_mm <= 10_000_000,
{
    proof {
        lemma_expected_velocity_in_range(altitude_mm as int);
    }
    let profile = trajectory_profile();
    proof {
        lemma_profile_shape();
    }
    let last = profile.len() - 1;
    if altitude_mm < profile[0].0 || altitude_mm > profile[last].0 {
        return None;
    }
    let mut i: usize = 0;
    while i + 1 < profile.len()
        invariant
            profile@ == reference_profile(),
            profile@.len() == 9,
            0 <= i < 9,
            0 <= altitude_mm <= 10_000_000,
            forall|k: int|
                0 <= k < 9 ==> 0 <= #[trigger] profile@[k].0 <= 10_000_000 && 0 <= profile@[k].1
                    <= 150_000,
            forall|a: int, b: int| 0 <= a < b < 9 ==> #[trigger] profile@[a].0 < #[trigger] profile@[b].0,
            expected_velocity(altitude_mm as int) == velocity_from_segment(
                profile@,
                altitude_mm as int,
                i as int,
            ),
        decreases profile.len() - i,
    {
        let (alt_low, vel_low) = profile[i];
        let (alt_high, vel_high) = profile[i + 1];
        if altitude_mm >= alt_low && altitude_mm <= alt_high {
            let span = alt_high - alt_low;
            let offset = altitude_mm - alt_low;
            let rise = vel_high - vel_low;
            assert(-1_500_000_000_000 <= offset * rise <= 1_500_000_000_000) by (nonlinear_arith)
                requires
                    0 <= offset <= 10_000_000,
                    -150_000 <= rise <= 150_000,
            ;
            let climb = offset * rise;
            assert(-1_500_000_000_000 <= climb as int / span as int <= 1_500_000_000_000)
                by (nonlinear_arith)
                requires
                    -1_500_000_000_000 <= climb <= 1_500_000_000_000,
                    span >= 1,
            ;
            assert(0 <= vel_low + climb as int / span as int <= 150_000) by (nonlinear_arith)
                requires
                    climb == offset * rise,
                    0 <= offset <= span,
                    span >= 1,
                    0 <= vel_low <= 150_000,
                    0 <= vel_low + rise <= 150_000,
            {
                if rise >= 0 {
                    assert(0 <= climb <= span * rise);
                    assert(climb as int / span as int <= rise);
                } else {
                    assert(span * rise <= climb <= 0);
                    assert(climb as int / span as int >= rise);
                }
            }
            let step = climb.checked_div_euclid(span).unwrap();
            return Some(vel_low + step);
        }
        i = i + 1;
    }
    None
}

/// Navigation's memory across frames: whether Max-Q has been reported.
pub struct NavigationMonitor {
    pub max_q_emitted: bool,
}

impl NavigationMonitor {
    /// A monitor that has not reported Max-Q yet.
    pub fn new() -> (monitor: Self)
        ensures
            !monitor.max_q_emitted,
    {
        NavigationMonitor { max_q_emitted: false }
    }

    /// Examines one frame and returns the events to send, in order.
    pub fn observe(&mut self, altitude_mm: i64, velocity_mm_s: i64) -> (events: Vec<FlightEvent>)
        ensures
            events@ == navigation_events(old(self).max_q_emitted, altitude_mm, velocity_mm_s),
            final(self).max_q_emitted == (old(self).max_q_emitted || altitude_mm >= MAX_Q_ALTITUDE_MM),
            events@.len() <= 2,
            events@.contains(FlightEvent::MaxQDetected) <==> (!old(self).max_q_emitted && altitude_mm
                >= MAX_Q_ALTITUDE_MM),
            !old(self).max_q_emitted && altitude_mm >= MAX_Q_ALTITUDE_MM ==> events@[0]
                == FlightEvent::MaxQDetected,
            (events@.len() > 0 && events@.last() is SubsystemFault) <==> match expected_velocity(
                altitude_mm as int,
            ) {
                Some(expected) => 10 * velocity_mm_s < 7 * expected || 10 * velocity_mm_s > 13 * expected,
                None => false,
            },
            events@.len() > 0 && events@.last() is SubsystemFault ==> {
                &&& events@.last()->SubsystemFault_0 is NavigationDeviation
                &&& events@.last()->SubsystemFault_0->NavigationDeviation_altitude_mm == altitude_mm
                &&& events@.last()->SubsystemFault_0->NavigationDeviation_actual_mm_s == velocity_mm_s
                &&& expected_velocity(altitude_mm as int) == Some(
                    events@.last()->SubsystemFault_0->NavigationDeviation_expected_mm_s as int,
                )
            },
    {
        let mut events = Vec::new();
        if !self.max_q_emitted && altitude_mm >= MAX_Q_ALTITUDE_MM {
            events.push(FlightEvent::MaxQDetected);
            self.max_q_emitted = true;
        }
        match interpolate_expected_velocity(altitude_mm) {
            Some(expected) => {
                if exceeds_tolerance(velocity_mm_s, expected) {
                    let fault = FlightError::NavigationDeviation {
                        altitude_mm,
                        actual_mm_s: velocity_mm_s,
                        expected_mm_s: expected,
                        deviation_bp: deviation_bp(velocity_mm_s, expected),
                    };
                    events.push(FlightEvent::SubsystemFault(fault));
                }
            },
            None => {},
        }
        assert(events@ =~= navigation_events(old(self).max_q_emitted, altitude_mm, velocity_mm_s));
        proof {
            if !old(self).max_q_emitted && altitude_mm >= MAX_Q_ALTITUDE_MM {
                assert(events@[0] == FlightEvent::MaxQDetected);
            } else if events@.contains(FlightEvent::MaxQDetected) {
                let k = choose|k: int| 0 <= k < events@.len() && events@[k] == FlightEvent::MaxQDetected;
                assert(events@ == deviation_report(altitude_mm, velocity_mm_s));
            }
        }
        events
    }
}

impl NavigationMonitor {
    /// Examines a run of frames (altitude, velocity) in order and returns
    /// everything navigation sends for them, in order.
    pub fn observe_all(&mut self, frames: &Vec<(i64, i64)>) -> (events: Vec<FlightEvent>)
        ensures
            events@ == navigation_output(old(self).max_q_emitted, frames@),
            final(self).max_q_emitted == max_q_latched_after(old(self).max_q_emitted, frames@),
    {
        let ghost start = self.max_q_emitted;
        let mut events: Vec<FlightEvent> = Vec::new();
        let mut i: usize = 0;
        while i < frames.len()
            invariant
                0 <= i <= frames@.len(),
                events@ == navigation_output(start, frames@.take(i as int)),
                self.max_q_emitted == max_q_latched_after(start, frames@.take(i as int)),
            decreases frames@.len() - i,
        {
            let (altitude_mm, velocity_mm_s) = frames[i];
            let mut frame_events = self.observe(altitude_mm, velocity_mm_s);
            events.append(&mut frame_events);
            proof {
                let taken = frames@.take(i + 1);
                assert(taken.drop_last() =~= frames@.take(i as int));
                assert(taken.last() == frames@[i as int]);
            }
            i = i + 1;
        }
        assert(frames@.take(frames@.len() as int) =~= frames@);
        events
    }
}

/// Whether `actual` leaves the tolerance band around `expected`.
fn exceeds_tolerance(actual: i64, expected: i64) -> (outside: bool)
    requires
        0 <= expected <= 150_000,
    ensures
        outside == deviates(actual as int, expected as int),
{
    let gap: i128 = if actual >= expected {
        actual as i128 - expected as i128
    } else {
        expected as i128 - actual as i128
    };
    let tolerance: i128 = DEVIATION_TOLERANCE_PCT as i128;
    assert(0 <= tolerance * expected <= 100 * 150_000) by (nonlinear_arith)
        requires
            tolerance == 30,
            0 <= expected <= 150_000,
    ;
    100 * gap > tolerance * (expected as i128)
}

/// The relative deviation of `actual` from `expected`, in basis points.
fn deviation_bp(actual: i64, expected: i64) -> (bp: i64)
    requires
        0 <= expected <= 150_000,
    ensures
        bp == deviation_basis_points(actual as int, expected as int),
{
    if expected == 0 {
        if actual > 0 {
            i64::MAX
        } else {
            i64::MIN
        }
    } else {
        let gap: i128 = actual as i128 - expected as i128;
        assert(-0x1_0000_0000_0000_0000 * 10_000 <= gap * 10_000 <= 0x1_0000_0000_0000_0000
            * 10_000) by (nonlinear_arith)
            requires
                -0x1_0000_0000_0000_0000 <= gap <= 0x1_0000_0000_0000_0000,
        ;
        let scaled: i128 = gap * 10_000;
        let quotient = scaled.checked_div(expected as i128).unwrap();
        if quotient > i64::MAX as i128 {
            i64::MAX
        } else if quotient < i64::MIN as i128 {
            i64::MIN
        } else {
            quotient as i64
        }
    }
}

} // verus!
