//! A single-slot memoizing wrapper around an expensive function.
//!
//! A `Cacher` holds at most one remembered (argument, result) pair. A call
//! with the remembered argument is served from the slot without invoking the
//! wrapped function again; any other call invokes the function once and
//! overwrites the slot. A ghost counter records how often the wrapped
//! function has been invoked, so the contracts can speak about recomputation.

use vstd::prelude::*;

verus! {

/// The single remembered slot: the argument the wrapped function was last
/// invoked with, and the result it returned. Either both are present or
/// neither is.
struct CacheMap<T> {
    key: Option<T>,
    value: Option<T>,
}

/// Memoizes a function of one `u32` argument, remembering the most recent
/// (argument, result) pair.
pub struct Cacher<T> where T: Fn(u32) -> u32 {
    calculation: T,
    value: CacheMap<u32>,
    calls: Ghost<nat>,
}

/// Whether a cache holding `stored` serves argument `a` without invoking the
/// wrapped function: the remembered argument must equal `a`.
pub open spec fn cache_hit(stored: Option<(u32, u32)>, a: u32) -> bool {
    stored matches Some(p) && p.0 == a
}

/// The remembered pair after a call with argument `a` that returned `r`:
/// a hit leaves the slot alone, a miss overwrites it with `(a, r)`.
pub open spec fn step_pair(stored: Option<(u32, u32)>, a: u32, r: u32) -> Option<(u32, u32)> {
    if cache_hit(stored, a) {
        stored
    } else {
        Some((a, r))
    }
}

/// The invocation count after a call with argument `a`: a hit invokes the
/// wrapped function not at all, a miss invokes it exactly once.
pub open spec fn step_calls(stored: Option<(u32, u32)>, a: u32, calls: nat) -> nat {
    if cache_hit(stored, a) {
        calls
    } else {
        calls + 1
    }
}

impl<T> Cacher<T> where T: Fn(u32) -> u32 {
    /// The remembered (argument, result) pair, if any.
    pub closed spec fn stored(&self) -> Option<(u32, u32)> {
        match (self.value.key, self.value.value) {
            (Some(k), Some(v)) => Some((k, v)),
            _ => None,
        }
    }

    /// How often the wrapped function has been invoked so far.
    pub closed spec fn calls(&self) -> nat {
        self.calls@
    }

    /// The wrapped function.
    pub closed spec fn func(&self) -> T {
        self.calculation
    }

    /// Internal consistency: the slot is all-or-nothing, and a remembered
    /// result is one the wrapped function actually returned for the
    /// remembered argument.
    pub closed spec fn wf(&self) -> bool {
        &&& (self.value.key is Some <==> self.value.value is Some)
        &&& (self.stored() matches Some(p) ==> call_ensures(self.calculation, (p.0,), p.1))
    }

    /// Wraps `calculation` with an empty slot and no invocations yet.
    pub fn new(calculation: T) -> (c: Cacher<T>)
        ensures
            c.wf(),
            c.stored() is None,
            c.calls() == 0,
            c.func() == calculation,
    {
        Cacher {
            calculation,
            value: CacheMap { key: None, value: None },
            calls: Ghost(0nat),
        }
    }

    /// Returns `calculation(arg)`, invoking the wrapped function only when
    /// the remembered argument differs from `arg` (or nothing is remembered
    /// yet). The result of a miss is remembered together with `arg`; a hit
    /// leaves the cache exactly as it was.
    pub fn value(&mut self, arg: u32) -> (result: u32)
        requires
            old(self).wf(),
            call_requires(old(self).func(), (arg,)),
        ensures
            final(self).wf(),
            final(self).func() == old(self).func(),
            final(self).stored() == step_pair(old(self).stored(), arg, result),
            final(self).stored() == Some((arg, result)),
            final(self).calls() == step_calls(old(self).stored(), arg, old(self).calls()),
            call_ensures(old(self).func(), (arg,), result),
            cache_hit(old(self).stored(), arg) ==> *final(self) == *old(self),
    {
        match self.value.key {
            Some(k) => {
                if k == arg {
                    self.value.value.unwrap()
                } else {
                    let v = (self.calculation)(arg);
                    self.value = CacheMap { key: Some(arg), value: Some(v) };
                    self.calls = Ghost(self.calls@ + 1);
                    v
                }
            }
            None => {
                let v = (self.calculation)(arg);
                self.value = CacheMap { key: Some(arg), value: Some(v) };
                self.calls = Ghost(self.calls@ + 1);
                v
            }
        }
    }
}

/// Law: two consecutive calls with the same argument invoke the wrapped
/// function at most once, whatever was remembered beforehand. The first call
/// leaves the slot holding `a`, so the second is a hit and costs nothing.
pub proof fn lemma_repeat_same_argument(stored: Option<(u32, u32)>, a: u32, r: u32, calls: nat)
    ensures
        step_calls(step_pair(stored, a, r), a, step_calls(stored, a, calls)) <= calls + 1,
{
}

/// Law: starting from a cache with nothing remembered, calls with two
/// distinct arguments invoke the wrapped function exactly twice.
pub proof fn lemma_two_distinct_arguments(a1: u32, r1: u32, a2: u32, calls: nat)
    requires
        a1 != a2,
    ensures
        step_calls(step_pair(None, a1, r1), a2, step_calls(None::<(u32, u32)>, a1, calls))
            == calls + 2,
{
}

/// The compute part of the simulated expensive calculation: the work it
/// stands for just hands the intensity back.
pub fn simulated_expensive_calculations(intensity: u32) -> (r: u32)
    ensures
        r == intensity,
{
    intensity
}

/// What a generated workout recommends, before any numbers are filled in.
pub enum WorkoutAdvice {
    PushupsAndSitups,
    TakeABreak,
    Run,
}

/// Picks the workout for the day: low intensity asks for pushups and situps,
/// high intensity asks for a run, except that a random number of three earns
/// a break.
pub fn workout_plan(intensity: u32, random_number: u32) -> (advice: WorkoutAdvice)
    ensures
        intensity < 25 ==> advice is PushupsAndSitups,
        intensity >= 25 && random_number == 3 ==> advice is TakeABreak,
        intensity >= 25 && random_number != 3 ==> advice is Run,
{
    if intensity < 25 {
        WorkoutAdvice::PushupsAndSitups
    } else if random_number == 3 {
        WorkoutAdvice::TakeABreak
    } else {
        WorkoutAdvice::Run
    }
}

} // verus!
