//! Memoized computation: a cache that runs its calculation at most once
//! per distinct argument, and the workout advisor built on top of it.

use std::collections::HashMap;
use vstd::prelude::*;

verus! {

broadcast use vstd::std_specs::hash::group_hash_axioms;

/// Caches the results of `calculation`, keyed by argument, so that the
/// calculation runs at most once per distinct argument.
pub struct Cacher<T: Fn(u32) -> u32> {
    calculation: T,
    value: HashMap<u32, u32>,
}

impl<T: Fn(u32) -> u32> Cacher<T> {
    /// The stored calculation.
    pub closed spec fn calculation_fn(&self) -> T {
        self.calculation
    }

    /// The results cached so far, keyed by argument.
    pub closed spec fn cached(&self) -> Map<u32, u32> {
        self.value@
    }

    /// Every cached result is one the calculation could have returned for
    /// its key.
    pub open spec fn inv(&self) -> bool {
        forall|k: u32| #[trigger]
            self.cached().contains_key(k) ==> call_ensures(
                self.calculation_fn(),
                (k,),
                self.cached()[k],
            )
    }

    /// A fresh cache around `calculation`, with nothing computed yet.
    pub fn new(calculation: T) -> (r: Cacher<T>)
        ensures
            r.inv(),
            r.calculation_fn() == calculation,
            r.cached() == Map::<u32, u32>::empty(),
    {
        Cacher { calculation, value: HashMap::new() }
    }

    /// The calculation's result for `arg`: taken from the cache when
    /// present, computed (and cached) exactly once otherwise.
    pub fn value(&mut self, arg: u32) -> (r: u32)
        requires
            old(self).inv(),
            call_requires(old(self).calculation_fn(), (arg,)),
        ensures
            final(self).inv(),
            final(self).calculation_fn() == old(self).calculation_fn(),
            old(self).cached().contains_key(arg) ==> {
                &&& r == old(self).cached()[arg]
                &&& final(self).cached() == old(self).cached()
            },
            !old(self).cached().contains_key(arg) ==> {
                &&& call_ensures(old(self).calculation_fn(), (arg,), r)
                &&& final(self).cached() == old(self).cached().insert(arg, r)
            },
            final(self).cached().contains_key(arg),
            r == final(self).cached()[arg],
    {
        let cached = self.value.get(&arg);
        match cached {
            Some(v) => *v,
            None => {
                let v = (self.calculation)(arg);
                self.value.insert(arg, v);
                proof {
                    assert forall|k: u32| self.cached().contains_key(k) implies call_ensures(
                        self.calculation_fn(),
                        (k,),
                        self.cached()[k],
                    ) by {
                        if k != arg {
                            assert(old(self).cached().contains_key(k));
                        }
                    }
                    assert(self.inv());
                }
                v
            },
        }
    }
}

/// The advice the workout generator hands out for one session.
#[derive(Clone, Copy, Debug, PartialEq, Eq, Structural)]
pub enum WorkoutAdvice {
    PushupsAndSitups(u32),
    TakeABreak,
    Run(u32),
}

/// The expensive part of planning a workout. The caller that wants to
/// simulate its cost pauses around it; the calculation itself just hands
/// the intensity through.
pub fn simulated_expensive_calculation(intensity: u32) -> (r: u32)
    ensures
        r == intensity,
{
    intensity
}

/// Decide a workout from the user's intensity and the day's random number.
/// The expensive intensity calculation is consulted through a cache, so
/// even the branch that needs it twice runs it only once.
pub fn generate_workout_plan(intensity: u32, random_number: u32) -> (r: WorkoutAdvice)
    ensures
        intensity < 25 ==> r == WorkoutAdvice::PushupsAndSitups(intensity),
        intensity >= 25 && random_number == 3 ==> r == WorkoutAdvice::TakeABreak,
        intensity >= 25 && random_number != 3 ==> r == WorkoutAdvice::Run(intensity),
{
    let mut expensive_result = Cacher::new(simulated_expensive_calculation);
    if intensity < 25 {
        let pushups = expensive_result.value(intensity);
        let situps = expensive_result.value(intensity);
        WorkoutAdvice::PushupsAndSitups(situps)
    } else if random_number == 3 {
        WorkoutAdvice::TakeABreak
    } else {
        let minutes = expensive_result.value(intensity);
        WorkoutAdvice::Run(minutes)
    }
}

} // verus!
