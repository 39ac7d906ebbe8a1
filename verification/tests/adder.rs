use mt_server::adder::Guess;
use mt_server::adder::Rectangle;
use mt_server::adder::add_two;
use mt_server::adder::greeting;

#[test]
fn larger_can_hold_smaller() {
    let larger = Rectangle { length: 8, width: 7 };
    let smaller = Rectangle { length: 5, width: 1 };
    assert!(larger.can_hold(&smaller));
}

#[test]
fn smaller_cannot_hold_larger() {
    let larger = Rectangle { length: 8, width: 7 };
    let smaller = Rectangle { length: 5, width: 1 };
    assert!(!smaller.can_hold(&larger));
}

#[test]
fn it_adds_two() {
    assert_eq!(4, add_two(2));
}

#[test]
fn greeting_contains_name() {
    let result = greeting("Carol");
    assert!(result.contains("Carol"), "Greeting did not contain name, value was `{}`", result);
}

#[test]
fn guesses_in_range_are_kept() {
    let _ = Guess::new(1);
    let _ = Guess::new(100);
    let _ = Guess::new(50);
}
