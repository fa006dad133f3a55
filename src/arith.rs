//! Integer helpers used to show unit tests.
use vstd::prelude::*;

verus! {

/// The sum of `*x` and `*y`.
pub fn add(x: &i32, y: &i32) -> (r: i32)
    requires
        i32::MIN <= *x + *y <= i32::MAX,
    ensures
        r == *x + *y,
{
    adder(x, y)
}

/// The sum of `*x` and `*y`.
pub fn adder(x: &i32, y: &i32) -> (r: i32)
    requires
        i32::MIN <= *x + *y <= i32::MAX,
    ensures
        r == *x + *y,
{
    *x + *y
}

/// The difference of `*x` and `*y`.
pub fn sub(x: &i32, y: &i32) -> (r: i32)
    requires
        i32::MIN <= *x - *y <= i32::MAX,
    ensures
        r == *x - *y,
{
    *x - *y
}

} // verus!
