use std::rc::Rc;

use exercises::coins::plus_one;
use exercises::coins::values_in_cents;
use exercises::coins::Coin;
use exercises::cycle_list;
use exercises::drop_list;
use exercises::drop_list::CustomSmartPointer;
use exercises::generics::find_largest;
use exercises::generics::longest;
use exercises::generics::Point;
use exercises::generics::Pointy;
use exercises::ip::IpAddrKindV1;
use exercises::ip::IpAddrKindV2;
use exercises::rect_holds;
use exercises::rect_methods;
use exercises::rectangles::rect_area;
use exercises::rectangles::Rectangle;
use exercises::restaurant::add_to_waitlist;
use exercises::restaurant::Appetizer;
use exercises::restaurant::Breakfast;
use exercises::users::activating_a_user;
use exercises::users::build_a_user;
use exercises::users::signed_in;
use exercises::words::alters_using_reference;
use exercises::words::first_word;
use exercises::words::first_word_literal_string;

#[test]
fn coin_values() {
    assert_eq!(1, values_in_cents(Coin::Penny));
    assert_eq!(5, values_in_cents(Coin::Nikel));
    assert_eq!(10, values_in_cents(Coin::Dime));
    assert_eq!(25, values_in_cents(Coin::Quarter));
}

#[test]
fn plus_one_on_both_variants() {
    assert_eq!(Some(5), plus_one(Some(4)));
    assert_eq!(None, plus_one(None));
}

#[test]
fn areas_of_rectangles() {
    let r = Rectangle {
        width: 20,
        height: 10,
    };
    assert_eq!(200, rect_area(&r));

    let big = Rectangle {
        width: 4_000_000_000,
        height: 3_000_000_000,
    };
    assert_eq!(12_000_000_000_000_000_000u64, rect_area(&big));

    let r = rect_methods::Rectangle {
        width: 15,
        height: 20,
    };
    assert_eq!(300, r.area());
    assert!(r.width());
}

#[test]
fn strictly_smaller_fits() {
    let r1 = rect_holds::Rectangle {
        width: 20,
        height: 15,
    };
    let r2 = rect_holds::Rectangle {
        width: 10,
        height: 20,
    };
    let r3 = rect_holds::Rectangle {
        width: 22,
        height: 16,
    };
    assert!(!r1.can_hold(&r2));
    assert!(r1.can_hold(&r3));
    assert!(!r3.can_hold(&r1));

    let r4 = rect_holds::Rectangle::square(4);
    assert_eq!(4, r4.width);
    assert_eq!(4, r4.height);
    assert_eq!(16, r4.area());
}

#[test]
fn user_sign_in_flow() {
    let mut user = build_a_user("JaneDOE".to_string(), "JaneDOE@example.com".to_string());
    assert_eq!(0, user.sign_in_count);
    assert!(!user.active);
    assert_eq!(0, signed_in(&mut user));
    activating_a_user(&mut user);
    assert!(user.active);
    assert_eq!(1, signed_in(&mut user));
    assert_eq!(2, signed_in(&mut user));
    assert_eq!("JaneDOE", user.username);
}

#[test]
fn summer_breakfast() {
    let meal = Breakfast::summer("Rye");
    assert_eq!("Rye", meal.toast);
    assert_eq!("peaches", meal.seasonal_fruit().as_str());
    let _starter = Appetizer::Soup;
    let _other = Appetizer::Salad;
    add_to_waitlist();
}

#[test]
fn first_words() {
    assert_eq!("Hello,", first_word(&String::from("Hello, Rust!")));
    assert_eq!("using", first_word_literal_string("using literal strings"));
    assert_eq!("nospace", first_word_literal_string("nospace"));
    assert_eq!("", first_word_literal_string(" leading"));
}

#[test]
fn appending_reports_new_length() {
    let mut msg = String::from("Lorem ipsum");
    let count = alters_using_reference(&mut msg);
    assert_eq!("Lorem ipsum!", msg);
    assert_eq!(12, count);
}

#[test]
fn largest_of_the_list() {
    let number_list = vec![1, 2, 3, 4, 5, 10, 1, 20, 2, 3, 12];
    assert_eq!(20, find_largest(&number_list));
    assert_eq!(-1, find_largest(&vec![-5, -1, -3]));
}

#[test]
fn longer_of_two_strings() {
    let hello = String::from("Hello");
    let string2 = "Hi".to_string();
    assert_eq!("Hello", longest(&hello, &string2).as_str());
    assert_eq!("Hello", longest(&string2, &hello).as_str());
}

#[test]
fn longest_counts_bytes() {
    // One character of two bytes outweighs one character of one byte.
    let accented = String::from("\u{e9}");
    let plain = String::from("a");
    assert_eq!("\u{e9}", longest(&accented, &plain).as_str());
    // Equal byte lengths give the second string.
    let left = String::from("ab");
    let right = String::from("cd");
    assert_eq!("cd", longest(&left, &right).as_str());
}

#[test]
fn points_mix_and_tell() {
    let p = Point { x: 1, y: 2 };
    assert_eq!(&1, p.x());

    let p1 = Pointy { x: 5, y: 10.4 };
    let p2 = Pointy { x: "Hello", y: 'c' };
    let mixed = p1.mixup(p2);
    assert_eq!(5, mixed.x);
    assert_eq!('c', mixed.y);
}

#[test]
fn address_kinds_do_not_collide() {
    let home = IpAddrKindV2::V4(192, 168, 2, 3);
    assert!(!home.collision(&IpAddrKindV1::V4));
    home.ping();
    let loopback = IpAddrKindV2::V6(String::from("::1"));
    assert!(!loopback.collision(&IpAddrKindV1::V6));
}

#[test]
fn cons_lists_link_up() {
    let a = Rc::new(drop_list::List::Cons(
        5,
        Rc::new(drop_list::List::Cons(10, Rc::new(drop_list::List::Nil))),
    ));
    assert_eq!(1, Rc::strong_count(&a));
    let _b = drop_list::List::Cons(3, Rc::clone(&a));
    assert_eq!(2, Rc::strong_count(&a));

    let pointer = CustomSmartPointer {
        data: String::from("Some String"),
    };
    assert_eq!("Some String", pointer.data);
}

#[test]
fn tail_of_a_cycle_list() {
    let list = cycle_list::List::Cons(5, Rc::new(cycle_list::List::Nil));
    let rest = list.tail();
    assert!(rest.is_some());
    assert!(matches!(**rest.unwrap(), cycle_list::List::Nil));
    assert!(cycle_list::List::Nil.tail().is_none());
}
