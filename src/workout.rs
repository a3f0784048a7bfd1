//! Planning a workout around an expensive calculation that is made at most once.
use vstd::prelude::*;

verus! {

/// Remembers the result of `calculation` after its first call.
pub struct Cacher<T: Fn(u32) -> u32> {
    calculation: T,
    value: Option<u32>,
}

impl<T: Fn(u32) -> u32> Cacher<T> {
    /// The calculation being cached.
    pub closed spec fn calculation(&self) -> T {
        self.calculation
    }

    /// The remembered result, once there is one.
    pub closed spec fn cached(&self) -> Option<u32> {
        self.value
    }

    /// A cache that has remembered nothing yet.
    pub fn new(calculation: T) -> (r: Cacher<T>)
        ensures
            r.calculation() == calculation,
            r.cached() is None,
    {
        Cacher { calculation, value: None }
    }

    /// The result of the calculation on the first `arg` ever asked for: the
    /// first call computes it, every later call returns it unchanged, whatever
    /// its argument.
    pub fn value(&mut self, arg: u32) -> (r: u32)
        requires
            old(self).cached() is None ==> old(self).calculation().requires((arg,)),
        ensures
            final(self).calculation() == old(self).calculation(),
            final(self).cached() == Some(r),
            old(self).cached() matches Some(v) ==> r == v,
            old(self).cached() is None ==> old(self).calculation().ensures((arg,), r),
    {
        match self.value {
            Some(v) => v,
            None => {
                let v = (self.calculation)(arg);
                self.value = Some(v);
                v
            },
        }
    }
}

/// Intensities below this call for strength exercises.
pub const STRENGTH_LIMIT: u32 = 25;

/// The random draw that calls for a day of rest.
pub const REST_DRAW: u32 = 3;

/// The day's exercise.
#[derive(Clone, Copy, Debug, PartialEq, Eq, Structural)]
pub enum Workout {
    Strength { pushups: u32, situps: u32 },
    Rest,
    Run { minutes: u32 },
}

/// Plans the day's workout. `calculation` turns the intensity into a number
/// of repetitions or minutes; it is called at most once.
pub fn generate_workout<F: Fn(u32) -> u32>(intensity: u32, random_number: u32, calculation: F) -> (r:
    Workout)
    requires
        calculation.requires((intensity,)),
    ensures
        intensity < STRENGTH_LIMIT ==> (r matches Workout::Strength { pushups, situps } && pushups
            == situps && calculation.ensures((intensity,), pushups)),
        intensity >= STRENGTH_LIMIT && random_number == REST_DRAW ==> r == Workout::Rest,
        intensity >= STRENGTH_LIMIT && random_number != REST_DRAW ==> (r matches Workout::Run {
            minutes,
        } && calculation.ensures((intensity,), minutes)),
{
    let mut expensive_result = Cacher::new(calculation);
    if intensity < STRENGTH_LIMIT {
        let pushups = expensive_result.value(intensity);
        let situps = expensive_result.value(intensity);
        Workout::Strength { pushups, situps }
    } else if random_number == REST_DRAW {
        Workout::Rest
    } else {
        Workout::Run { minutes: expensive_result.value(intensity) }
    }
}

} // verus!
