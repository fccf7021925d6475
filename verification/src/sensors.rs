use rand::Rng;
use vstd::prelude::*;

verus! {

/// Climb of the simulated rocket between two altimeter readings, in millimetres.
pub const CLIMB_PER_READING_MM: i64 = 150_000;

/// Bound of the altimeter's measurement noise, in millimetres: every reading
/// lies in `[altitude - NOISE_BOUND_MM, altitude + NOISE_BOUND_MM)`.
pub const NOISE_BOUND_MM: i64 = 2_500;

/// A sensor that produces one reading, in millimetres, each time it is read.
pub trait Sensor {
    /// Whether a reading can be taken without leaving the range of an `i64`.
    spec fn can_read(&self) -> bool;

    /// Takes one reading.
    fn read(&mut self) -> i64
        requires
            old(self).can_read(),
    ;
}

/// A simulated altimeter: the rocket climbs a fixed distance between two
/// readings, and each reading carries bounded random noise.
pub struct Altimeter {
    /// True altitude of the rocket, in millimetres.
    pub current_altitude_mm: i64,
}

impl Altimeter {
    /// An altimeter on the ground.
    pub fn new() -> (altimeter: Self)
        ensures
            altimeter.current_altitude_mm == 0,
    {
        Altimeter { current_altitude_mm: 0 }
    }

    /// Advances the rocket by one climb step and returns the new altitude
    /// disturbed by `noise_mm`.
    pub fn read_with_noise(&mut self, noise_mm: i64) -> (reading: i64)
        requires
            -NOISE_BOUND_MM <= noise_mm < NOISE_BOUND_MM,
            old(self).current_altitude_mm <= i64::MAX - CLIMB_PER_READING_MM - NOISE_BOUND_MM,
        ensures
            final(self).current_altitude_mm == old(self).current_altitude_mm + CLIMB_PER_READING_MM,
            reading == final(self).current_altitude_mm + noise_mm,
    {
        self.current_altitude_mm = self.current_altitude_mm + CLIMB_PER_READING_MM;
        self.current_altitude_mm + noise_mm
    }
}

/// Draws a value with `rand::thread_rng()` and `rand::Rng::gen_range` over
/// the half-open range `low..high`. The contract claims only what
/// `gen_range` documents for a non-empty range: the value lies in it. Which
/// value comes out is left open.
#[verifier::external_body]
fn uniform_i64(low: i64, high: i64) -> (x: i64)
    requires
        low < high,
    ensures
        low <= x < high,
{
    rand::thread_rng().gen_range(low..high)
}

impl Sensor for Altimeter {
    open spec fn can_read(&self) -> bool {
        self.current_altitude_mm <= i64::MAX - CLIMB_PER_READING_MM - NOISE_BOUND_MM
    }

    fn read(&mut self) -> (reading: i64)
        ensures
            final(self).current_altitude_mm == old(self).current_altitude_mm + CLIMB_PER_READING_MM,
            final(self).current_altitude_mm - NOISE_BOUND_MM <= reading,
            reading < final(self).current_altitude_mm + NOISE_BOUND_MM,
    {
        let noise_mm = uniform_i64(-NOISE_BOUND_MM, NOISE_BOUND_MM);
        self.read_with_noise(noise_mm)
    }
}

/// Successive readings from an altimeter that starts on the ground: when the
/// true altitudes and the readings follow `Altimeter::new` and then each
/// `Altimeter::read` in turn (each read climbs one step and reads within the
/// noise bound of the new altitude), the `k`-th altitude is `k` climb steps,
/// the `k`-th reading lies within the noise bound of it, and the readings
/// strictly increase, by more than one climb step less twice the noise bound
/// and less than one climb step plus twice the noise bound each time.
pub proof fn lemma_readings_from_the_ground(altitudes: Seq<int>, readings: Seq<int>)
    requires
        altitudes.len() == readings.len() + 1,
        altitudes[0] == 0,
        forall|k: int|
            0 <= k < readings.len() ==> #[trigger] altitudes[k + 1] == altitudes[k] + CLIMB_PER_READING_MM,
        forall|k: int|
            0 <= k < readings.len() ==> altitudes[k + 1] - NOISE_BOUND_MM <= #[trigger] readings[k]
                < altitudes[k + 1] + NOISE_BOUND_MM,
    ensures
        forall|k: int| 0 <= k <= readings.len() ==> #[trigger] altitudes[k] == CLIMB_PER_READING_MM * k,
        forall|k: int|
            0 <= k < readings.len() ==> CLIMB_PER_READING_MM * (k + 1) - NOISE_BOUND_MM
                <= #[trigger] readings[k] < CLIMB_PER_READING_MM * (k + 1) + NOISE_BOUND_MM,
        forall|j: int, k: int| 0 <= j < k < readings.len() ==> #[trigger] readings[j] < #[trigger] readings[k],
        forall|k: int|
            0 <= k < readings.len() - 1 ==> CLIMB_PER_READING_MM - 2 * NOISE_BOUND_MM < #[trigger] readings[k
                + 1] - readings[k] < CLIMB_PER_READING_MM + 2 * NOISE_BOUND_MM,
    decreases readings.len(),
{
    if readings.len() > 0 {
        let n = readings.len() - 1;
        lemma_readings_from_the_ground(altitudes.drop_last(), readings.drop_last());
        assert forall|k: int| 0 <= k <= readings.len() implies #[trigger] altitudes[k] == CLIMB_PER_READING_MM * k by {
            if k < readings.len() {
                assert(altitudes.drop_last()[k] == altitudes[k]);
            } else {
                assert(altitudes.drop_last()[k - 1] == altitudes[k - 1]);
                assert(altitudes[k] == altitudes[k - 1] + CLIMB_PER_READING_MM);
            }
        }
        assert forall|k: int|
            0 <= k < readings.len() implies CLIMB_PER_READING_MM * (k + 1) - NOISE_BOUND_MM
                <= #[trigger] readings[k] < CLIMB_PER_READING_MM * (k + 1) + NOISE_BOUND_MM by {
            assert(altitudes[k + 1] == CLIMB_PER_READING_MM * (k + 1));
        }
        assert forall|j: int, k: int| 0 <= j < k < readings.len() implies #[trigger] readings[j] < #[trigger] readings[k] by {
            assert(CLIMB_PER_READING_MM * (j + 1) - NOISE_BOUND_MM <= readings[j] < CLIMB_PER_READING_MM * (j + 1) + NOISE_BOUND_MM);
            assert(CLIMB_PER_READING_MM * (k + 1) - NOISE_BOUND_MM <= readings[k] < CLIMB_PER_READING_MM * (k + 1) + NOISE_BOUND_MM);
        }
        assert forall|k: int|
            0 <= k < readings.len() - 1 implies CLIMB_PER_READING_MM - 2 * NOISE_BOUND_MM < #[trigger] readings[k
                + 1] - readings[k] < CLIMB_PER_READING_MM + 2 * NOISE_BOUND_MM by {
            assert(CLIMB_PER_READING_MM * (k + 1) - NOISE_BOUND_MM <= readings[k] < CLIMB_PER_READING_MM * (k + 1) + NOISE_BOUND_MM);
            assert(CLIMB_PER_READING_MM * (k + 2) - NOISE_BOUND_MM <= readings[k + 1] < CLIMB_PER_READING_MM * (k + 2) + NOISE_BOUND_MM);
        }
    }
}

} // verus!
