//! Functions that take values and return one, with and without `return`.
use vstd::prelude::*;

verus! {

/// The sum of `x` and `y`, as the block's last expression.
pub fn add(x: i32, y: i32) -> (r: i32)
    requires
        i32::MIN <= x + y <= i32::MAX,
    ensures
        r == x + y,
{
    x + y
}

/// The sum of `x` and `y`, by an explicit `return`.
pub fn add_ret(x: i32, y: i32) -> (r: i32)
    requires
        i32::MIN <= x + y <= i32::MAX,
    ensures
        r == x + y,
{
    return x + y;
}

/// `i` less three; `i` must be at least three.
pub fn fn_plain(i: u32) -> (r: u32)
    requires
        i >= 3,
    ensures
        r == i - 3,
{
    i - 3
}

} // verus!
