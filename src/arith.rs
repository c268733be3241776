//! Integer division helpers from `num_integer`.

use vstd::prelude::*;

verus! {

/// Relies on `num_integer::div_rem`: on unsigned integers it returns
/// `(x / y, x % y)`, and panics only when `y` is zero.
#[verifier::external_body]
pub(crate) fn div_rem_usize(x: usize, y: usize) -> (r: (usize, usize))
    requires
        y > 0,
    ensures
        r.0 == x / y,
        r.1 == x % y,
{
    num_integer::div_rem(x, y)
}

/// Relies on `num_integer::div_ceil`: on unsigned integers it returns
/// `x / y`, plus one when `x % y` is not zero, and panics only when `y` is zero.
#[verifier::external_body]
pub(crate) fn div_ceil_usize(x: usize, y: usize) -> (r: usize)
    requires
        y > 0,
    ensures
        r == x / y + (if x % y == 0 { 0int } else { 1int }),
{
    num_integer::div_ceil(x, y)
}

} // verus!
