use exercises::adder_internal::add_two;
use exercises::adder_internal::internal_adder;

#[test]
fn lib_it_works() {
    let result = add_two(2);
    assert_eq!(result, 4);
}

#[test]
fn test_internal_adder() {
    let result = internal_adder(4, 2);
    assert_eq!(6, result)
}

#[test]
fn internal_adder_negative() {
    assert_eq!(-3, internal_adder(-5, 2));
}
