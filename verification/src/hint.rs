//! Branch hints that work on stable Rust.

use vstd::prelude::*;

verus! {

/// A call that the optimizer treats as rarely reached.
#[inline]
pub fn cold() {
}

/// Tells the compiler that `b` is expected to be `true`. Returns `b`.
#[inline]
#[must_use]
pub fn likely(b: bool) -> (r: bool)
    ensures
        r == b,
{
    if !b {
        cold();
    }
    b
}

/// Tells the compiler that `b` is expected to be `false`. Returns `b`.
#[inline]
#[must_use]
pub fn unlikely(b: bool) -> (r: bool)
    ensures
        r == b,
{
    if b {
        cold();
    }
    b
}

} // verus!
