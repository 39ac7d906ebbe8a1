//! Functions as values: an increment, a combinator that applies its
//! argument twice, and a function that hands a callable back.

use vstd::prelude::*;

verus! {

/// One more than the argument.
pub fn add_one(x: i32) -> (r: i32)
    requires
        x < i32::MAX,
    ensures
        r == x + 1,
{
    x + 1
}

/// The sum of two applications of `f` to `arg`. The callable's outputs
/// must stay in half range so the sum fits.
pub fn do_twice(f: impl Fn(i32) -> i32, arg: i32) -> (r: i32)
    requires
        call_requires(f, (arg,)),
        forall|y: i32| call_ensures(f, (arg,), y) ==> i32::MIN / 2 <= y <= i32::MAX / 2,
    ensures
        exists|y1: i32, y2: i32|
            call_ensures(f, (arg,), y1) && call_ensures(f, (arg,), y2) && r == y1 + y2,
{
    let a = f(arg);
    let b = f(arg);
    a + b
}

/// A callable that increments: whatever it returns is one more than what
/// it was given, and it accepts everything below the maximum.
pub fn returns_closure() -> (r: impl Fn(i32) -> i32)
    ensures
        forall|x: i32| x < i32::MAX ==> #[trigger] call_requires(r, (x,)),
        forall|x: i32, y: i32| call_ensures(r, (x,), y) ==> y == x + 1,
{
    add_one
}

} // verus!
