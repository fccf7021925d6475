//! Telemetry: the velocity estimate sent with each frame, and the watchdog
//! that declares loss of signal when the telemetry clock stalls.
use vstd::prelude::*;

use crate::errors::FlightError;
use vstd::arithmetic::div_mod::{lemma_fundamental_div_mod, lemma_mod_bound};

verus! {

/// Period of the telemetry clock, in milliseconds.
pub const TELEMETRY_RATE_MS: u64 = 1_000;

/// A wake-up later than this after one telemetry period is loss of signal, in milliseconds.
pub const WATCHDOG_TIMEOUT_MS: u64 = 5_000;

/// Below this time since the previous frame the velocity is not estimated, in microseconds.
pub const MIN_VELOCITY_WINDOW_US: u64 = 100_000;

/// `x / d` rounded toward zero, for a positive `d`.
pub open spec fn quotient_toward_zero(x: int, d: int) -> int
    recommends
        d > 0,
{
    if x >= 0 {
        x / d
    } else {
        -((-x) / d)
    }
}

/// `x` limited to the range of an `i64`.
pub open spec fn clamp_to_i64(x: int) -> int {
    if x > i64::MAX {
        i64::MAX as int
    } else if x < i64::MIN {
        i64::MIN as int
    } else {
        x
    }
}

/// The velocity reported with a frame, in millimetres per second: the climb
/// since the previous frame over the time since the previous frame, rounded
/// toward zero, or zero when that time is not above `MIN_VELOCITY_WINDOW_US`
/// (the first frame, or frames too close together). An estimate beyond the
/// range of an `i64` is limited to it.
pub open spec fn velocity_estimate(altitude_mm: int, last_altitude_mm: int, elapsed_us: int) -> int {
    if elapsed_us > MIN_VELOCITY_WINDOW_US {
        clamp_to_i64(quotient_toward_zero((altitude_mm - last_altitude_mm) * 1_000_000, elapsed_us))
    } else {
        0
    }
}

/// The size of `x`, whatever its sign.
pub open spec fn magnitude(x: int) -> int {
    if x >= 0 {
        x
    } else {
        -x
    }
}

/// `x / d` lies on the integer below or at `x` over `d`, for a positive `d`.
pub(crate) proof fn lemma_floor_bracket(x: int, d: int)
    requires
        d > 0,
    ensures
        d * (x / d) <= x < d * (x / d) + d,
{
    lemma_fundamental_div_mod(x, d);
    lemma_mod_bound(x, d);
}

/// What a velocity estimate is: zero when the frames are not more than
/// `MIN_VELOCITY_WINDOW_US` apart; otherwise a velocity `v` with the sign of
/// the climb whose size, over the elapsed time, is the climb's size rounded
/// down (`elapsed · |v| <= |climb · 10^6| < elapsed · (|v| + 1)`), and at the
/// end of the `i64` range when the true value lies beyond it.
pub proof fn lemma_velocity_estimate_meaning(altitude_mm: int, last_altitude_mm: int, elapsed_us: int)
    requires
        elapsed_us >= 0,
    ensures
        ({
            let v = velocity_estimate(altitude_mm, last_altitude_mm, elapsed_us);
            let climb = (altitude_mm - last_altitude_mm) * 1_000_000;
            &&& elapsed_us <= MIN_VELOCITY_WINDOW_US ==> v == 0
            &&& elapsed_us > MIN_VELOCITY_WINDOW_US ==> {
                &&& i64::MIN <= v <= i64::MAX
                &&& climb >= 0 ==> v >= 0
                &&& climb <= 0 ==> v <= 0
                &&& i64::MIN < v < i64::MAX ==> elapsed_us * magnitude(v) <= magnitude(climb)
                    < elapsed_us * (magnitude(v) + 1)
                &&& v == i64::MAX ==> elapsed_us * (i64::MAX as int) <= climb
                &&& v == i64::MIN ==> elapsed_us * magnitude(i64::MIN as int) <= magnitude(climb)
            }
        }),
{
    let climb = (altitude_mm - last_altitude_mm) * 1_000_000;
    let e = elapsed_us;
    if e > MIN_VELOCITY_WINDOW_US {
        if climb >= 0 {
            let q = climb / e;
            lemma_floor_bracket(climb, e);
            assert(e * (q + 1) == e * q + e) by (nonlinear_arith);
            assert(q >= 0) by (nonlinear_arith)
                requires
                    climb >= 0,
                    e > 0,
                    e * q + e > climb,
            ;
            if q > i64::MAX {
                assert(e * (i64::MAX as int) <= e * q) by (nonlinear_arith)
                    requires
                        e > 0,
                        q > i64::MAX,
                ;
            }
        } else {
            let m = (-climb) / e;
            lemma_floor_bracket(-climb, e);
            assert(e * (m + 1) == e * m + e) by (nonlinear_arith);
            assert(m >= 0) by (nonlinear_arith)
                requires
                    -climb > 0,
                    e > 0,
                    e * m + e > -climb,
            ;
            if -m < i64::MIN {
                assert(e * magnitude(i64::MIN as int) <= e * m) by (nonlinear_arith)
                    requires
                        e > 0,
                        m > magnitude(i64::MIN as int),
                ;
            }
        }
    }
}

/// Estimates the velocity from two successive altitudes, `elapsed_us`
/// microseconds apart: zero when they are not more than
/// `MIN_VELOCITY_WINDOW_US` apart, otherwise the climb over the elapsed time
/// rounded toward zero and limited to the `i64` range.
pub fn estimate_velocity(altitude_mm: i64, last_altitude_mm: i64, elapsed_us: u64) -> (velocity_mm_s: i64)
    ensures
        velocity_mm_s == velocity_estimate(altitude_mm as int, last_altitude_mm as int, elapsed_us as int),
        elapsed_us <= MIN_VELOCITY_WINDOW_US ==> velocity_mm_s == 0,
        elapsed_us > MIN_VELOCITY_WINDOW_US ==> {
            let climb = (altitude_mm - last_altitude_mm) * 1_000_000;
            &&& climb >= 0 ==> velocity_mm_s >= 0
            &&& climb <= 0 ==> velocity_mm_s <= 0
            &&& i64::MIN < velocity_mm_s < i64::MAX ==> elapsed_us * magnitude(velocity_mm_s as int)
                <= magnitude(climb) < elapsed_us * (magnitude(velocity_mm_s as int) + 1)
            &&& velocity_mm_s == i64::MAX ==> elapsed_us * (i64::MAX as int) <= climb
            &&& velocity_mm_s == i64::MIN ==> elapsed_us * magnitude(i64::MIN as int) <= magnitude(
                climb,
            )
        },
{
    proof {
        lemma_velocity_estimate_meaning(altitude_mm as int, last_altitude_mm as int, elapsed_us as int);
    }
    if elapsed_us > MIN_VELOCITY_WINDOW_US {
        let climb: i128 = altitude_mm as i128 - last_altitude_mm as i128;
        assert(-0x1_0000_0000_0000_0000 <= climb <= 0x1_0000_0000_0000_0000);
        assert(-0x1_0000_0000_0000_0000 * 1_000_000 <= climb * 1_000_000 <= 0x1_0000_0000_0000_0000
            * 1_000_000) by (nonlinear_arith)
            requires
                -0x1_0000_0000_0000_0000 <= climb <= 0x1_0000_0000_0000_0000,
        ;
        let scaled: i128 = climb * 1_000_000;
        let quotient = scaled.checked_div(elapsed_us as i128).unwrap();
        if quotient > i64::MAX as i128 {
            i64::MAX
        } else if quotient < i64::MIN as i128 {
            i64::MIN
        } else {
            quotient as i64
        }
    } else {
        0
    }
}

/// The telemetry clock's memory across frames: the altitude of the previous
/// frame and when it was taken, in microseconds on a monotonic clock; no time
/// before the first frame.
pub struct TelemetryClock {
    pub last_altitude_mm: i64,
    pub last_tick_us: Option<u64>,
}

/// Microseconds from `earlier` to `now`, or zero when `now` is not later.
pub open spec fn elapsed_since(earlier: Option<u64>, now_us: u64) -> int {
    match earlier {
        Some(tick) => if now_us >= tick {
            now_us - tick
        } else {
            0
        },
        None => 0,
    }
}

/// The velocities reported for a run of frames (altitude in millimetres,
/// time in microseconds), given the clock's state before them.
pub open spec fn run_velocities(
    last_altitude_mm: i64,
    last_tick_us: Option<u64>,
    frames: Seq<(i64, u64)>,
) -> Seq<int>
    decreases frames.len(),
{
    if frames.len() == 0 {
        Seq::empty()
    } else {
        let rest = frames.drop_last();
        let (last_alt, last_tick) = if rest.len() == 0 {
            (last_altitude_mm, last_tick_us)
        } else {
            (rest.last().0, Some(rest.last().1))
        };
        run_velocities(last_altitude_mm, last_tick_us, rest).push(
            velocity_estimate(
                frames.last().0 as int,
                last_alt as int,
                elapsed_since(last_tick, frames.last().1),
            ),
        )
    }
}

impl TelemetryClock {
    /// A clock that has not seen a frame: the previous altitude is the ground.
    pub fn new() -> (clock: Self)
        ensures
            clock.last_altitude_mm == 0,
            clock.last_tick_us is None,
    {
        TelemetryClock { last_altitude_mm: 0, last_tick_us: None }
    }

    /// Takes the frame at `altitude_mm`, read at `now_us`, and returns its
    /// velocity estimate: zero on the first frame, otherwise the estimate
    /// from the previous frame over the time since it. The frame becomes the
    /// previous one.
    pub fn frame(&mut self, altitude_mm: i64, now_us: u64) -> (velocity_mm_s: i64)
        ensures
            velocity_mm_s == velocity_estimate(
                altitude_mm as int,
                old(self).last_altitude_mm as int,
                elapsed_since(old(self).last_tick_us, now_us),
            ),
            old(self).last_tick_us is None ==> velocity_mm_s == 0,
            final(self).last_altitude_mm == altitude_mm,
            final(self).last_tick_us == Some(now_us),
    {
        let elapsed_us = match self.last_tick_us {
            Some(tick) => if now_us >= tick {
                now_us - tick
            } else {
                0
            },
            None => 0,
        };
        let velocity_mm_s = estimate_velocity(altitude_mm, self.last_altitude_mm, elapsed_us);
        self.last_altitude_mm = altitude_mm;
        self.last_tick_us = Some(now_us);
        velocity_mm_s
    }

    /// Takes a run of frames in order and returns their velocity estimates.
    pub fn frames(&mut self, frames: &Vec<(i64, u64)>) -> (velocities: Vec<i64>)
        ensures
            velocities@.map_values(|v: i64| v as int) == run_velocities(
                old(self).last_altitude_mm,
                old(self).last_tick_us,
                frames@,
            ),
            frames@.len() > 0 ==> final(self).last_altitude_mm == frames@.last().0,
            frames@.len() > 0 ==> final(self).last_tick_us == Some(frames@.last().1),
            frames@.len() == 0 ==> *final(self) == *old(self),
            velocities@.len() == frames@.len(),
            forall|k: int|
                0 <= k < frames@.len() ==> #[trigger] velocities@[k] as int == velocity_estimate(
                    frames@[k].0 as int,
                    previous_frame(old(self).last_altitude_mm, old(self).last_tick_us, frames@, k).0 as int,
                    elapsed_since(
                        previous_frame(old(self).last_altitude_mm, old(self).last_tick_us, frames@, k).1,
                        frames@[k].1,
                    ),
                ),
    {
        let ghost start_altitude = self.last_altitude_mm;
        let ghost start_tick = self.last_tick_us;
        let mut velocities: Vec<i64> = Vec::new();
        let mut i: usize = 0;
        while i < frames.len()
            invariant
                0 <= i <= frames@.len(),
                velocities@.map_values(|v: i64| v as int) == run_velocities(
                    start_altitude,
                    start_tick,
                    frames@.take(i as int),
                ),
                i == 0 ==> self.last_altitude_mm == start_altitude && self.last_tick_us == start_tick,
                i > 0 ==> self.last_altitude_mm == frames@[i - 1].0 && self.last_tick_us == Some(
                    frames@[i - 1].1,
                ),
            decreases frames@.len() - i,
        {
            let (altitude_mm, now_us) = frames[i];
            let velocity_mm_s = self.frame(altitude_mm, now_us);
            velocities.push(velocity_mm_s);
            proof {
                let taken = frames@.take(i + 1);
                assert(taken.drop_last() =~= frames@.take(i as int));
                assert(taken.last() == frames@[i as int]);
                if i > 0 {
                    assert(frames@.take(i as int).last() == frames@[i - 1]);
                }
                assert(velocities@.map_values(|v: i64| v as int) =~= run_velocities(
                    start_altitude,
                    start_tick,
                    taken,
                ));
            }
            i = i + 1;
        }
        assert(frames@.take(frames@.len() as int) =~= frames@);
        proof {
            lemma_run_is_frame_by_frame(start_altitude, start_tick, frames@);
            let run = run_velocities(start_altitude, start_tick, frames@);
            assert(velocities@.map_values(|v: i64| v as int) == run);
            assert(velocities@.len() == run.len());
            assert forall|k: int| 0 <= k < frames@.len() implies #[trigger] velocities@[k] as int
                == velocity_estimate(
                frames@[k].0 as int,
                previous_frame(start_altitude, start_tick, frames@, k).0 as int,
                elapsed_since(previous_frame(start_altitude, start_tick, frames@, k).1, frames@[k].1),
            ) by {
                assert(velocities@.map_values(|v: i64| v as int)[k] == velocities@[k] as int);
            }
        }
        velocities
    }
}

/// The clock state a frame of a run is estimated against: the state before
/// the run for its first frame, otherwise the frame before it.
pub open spec fn previous_frame(
    last_altitude_mm: i64,
    last_tick_us: Option<u64>,
    frames: Seq<(i64, u64)>,
    k: int,
) -> (i64, Option<u64>) {
    if k == 0 {
        (last_altitude_mm, last_tick_us)
    } else {
        (frames[k - 1].0, Some(frames[k - 1].1))
    }
}

/// A run of frames is estimated frame by frame: one velocity per frame, and
/// the `k`-th is the estimate of frame `k` against the frame before it, or,
/// for the first frame, against the clock's state before the run; nothing
/// resets the clock inside a run.
pub proof fn lemma_run_is_frame_by_frame(
    last_altitude_mm: i64,
    last_tick_us: Option<u64>,
    frames: Seq<(i64, u64)>,
)
    ensures
        run_velocities(last_altitude_mm, last_tick_us, frames).len() == frames.len(),
        frames.len() > 0 ==> run_velocities(last_altitude_mm, last_tick_us, frames)[0]
            == velocity_estimate(
            frames[0].0 as int,
            last_altitude_mm as int,
            elapsed_since(last_tick_us, frames[0].1),
        ),
        forall|k: int|
            0 < k < frames.len() ==> #[trigger] run_velocities(last_altitude_mm, last_tick_us, frames)[k]
                == velocity_estimate(
                frames[k].0 as int,
                frames[k - 1].0 as int,
                elapsed_since(Some(frames[k - 1].1), frames[k].1),
            ),
    decreases frames.len(),
{
    lemma_run_prefix(last_altitude_mm, last_tick_us, frames);
    if frames.len() > 0 {
        let rest = frames.drop_last();
        lemma_run_is_frame_by_frame(last_altitude_mm, last_tick_us, rest);
        lemma_run_prefix(last_altitude_mm, last_tick_us, rest);
        let run = run_velocities(last_altitude_mm, last_tick_us, frames);
        assert(run.drop_last() == run_velocities(last_altitude_mm, last_tick_us, rest));
        if frames.len() > 1 {
            assert(run[0] == run.drop_last()[0]);
            assert(rest[0] == frames[0]);
        }
        assert forall|k: int| 0 < k < frames.len() implies #[trigger] run[k] == velocity_estimate(
            frames[k].0 as int,
            frames[k - 1].0 as int,
            elapsed_since(Some(frames[k - 1].1), frames[k].1),
        ) by {
            if k < frames.len() - 1 {
                assert(run[k] == run.drop_last()[k]);
                assert(rest[k] == frames[k]);
                assert(rest[k - 1] == frames[k - 1]);
            } else {
                assert(rest.last() == frames[k - 1]);
            }
        }
    }
}

/// The first frame a fresh clock sees is reported at zero velocity, and each
/// later frame at the estimate from the frame before it.
pub proof fn lemma_run_from_fresh_clock(frames: Seq<(i64, u64)>)
    requires
        frames.len() > 0,
    ensures
        run_velocities(0, None, frames)[0] == 0,
        forall|k: int|
            0 < k < frames.len() ==> #[trigger] run_velocities(0, None, frames)[k] == velocity_estimate(
                frames[k].0 as int,
                frames[k - 1].0 as int,
                elapsed_since(Some(frames[k - 1].1), frames[k].1),
            ),
{
    lemma_run_is_frame_by_frame(0, None, frames);
}

/// A run of frames reports one velocity per frame, and the run's first
/// velocities are those of its prefix.
proof fn lemma_run_prefix(last_altitude_mm: i64, last_tick_us: Option<u64>, frames: Seq<(i64, u64)>)
    ensures
        run_velocities(last_altitude_mm, last_tick_us, frames).len() == frames.len(),
        frames.len() > 0 ==> run_velocities(last_altitude_mm, last_tick_us, frames).drop_last()
            == run_velocities(last_altitude_mm, last_tick_us, frames.drop_last()),
    decreases frames.len(),
{
    if frames.len() > 0 {
        lemma_run_prefix(last_altitude_mm, last_tick_us, frames.drop_last());
        assert(run_velocities(last_altitude_mm, last_tick_us, frames).drop_last()
            =~= run_velocities(last_altitude_mm, last_tick_us, frames.drop_last()));
    }
}

/// The fault the watchdog raises after a wake-up `actual_sleep_ms`
/// milliseconds late: loss of signal when it exceeds the timeout, none otherwise.
pub fn watchdog_fault(actual_sleep_ms: u64) -> (fault: Option<FlightError>)
    ensures
        fault == if actual_sleep_ms > WATCHDOG_TIMEOUT_MS {
            Some(FlightError::LossOfSignal(actual_sleep_ms))
        } else {
            None
        },
{
    if actual_sleep_ms > WATCHDOG_TIMEOUT_MS {
        Some(FlightError::LossOfSignal(actual_sleep_ms))
    } else {
        None
    }
}

} // verus!
