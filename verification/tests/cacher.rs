use std::cell::Cell;

use exercises::cacher::simulated_expensive_calculations;
use exercises::cacher::workout_plan;
use exercises::cacher::Cacher;
use exercises::cacher::WorkoutAdvice;

#[test]
fn test_generate_workout() {
    assert_eq!(25, simulated_expensive_calculations(25));
}

#[test]
fn call_with_different_value() {
    let mut c = Cacher::new(|x| x);

    let v1 = c.value(1);
    let v2 = c.value(2);
    println!("V1: {}\nV2: {}", v1, v2);
    assert_eq!(2, v2);
}

#[test]
fn identity_scenario_counts_invocations() {
    let invocations = Cell::new(0u32);
    let mut c = Cacher::new(|x| {
        invocations.set(invocations.get() + 1);
        x
    });

    assert_eq!(1, c.value(1));
    assert_eq!(1, invocations.get());
    assert_eq!(2, c.value(2));
    assert_eq!(2, invocations.get());
    assert_eq!(2, c.value(2));
    assert_eq!(2, invocations.get());
}

#[test]
fn repeated_argument_skips_recomputation() {
    let invocations = Cell::new(0u32);
    let mut c = Cacher::new(|x| {
        invocations.set(invocations.get() + 1);
        x * 2
    });

    assert_eq!(6, c.value(3));
    assert_eq!(6, c.value(3));
    assert_eq!(1, invocations.get());
}

#[test]
fn returns_result_not_argument_on_hit() {
    // A slot that compared against the stored result instead of the stored
    // argument would go wrong here: the first result equals the second
    // argument.
    let mut c = Cacher::new(|x| x + 1);
    assert_eq!(2, c.value(1));
    assert_eq!(3, c.value(2));
}

#[test]
fn workout_plan_cases() {
    assert!(matches!(workout_plan(10, 7), WorkoutAdvice::PushupsAndSitups));
    assert!(matches!(workout_plan(30, 3), WorkoutAdvice::TakeABreak));
    assert!(matches!(workout_plan(30, 4), WorkoutAdvice::Run));
}
