//! Generic building blocks: a function that hands its argument back, a
//! function that pairs two values in reversed order, and a record of two
//! fields of one type.
//!
//! Every function is parametric: it holds for each type it is instantiated
//! with, and its contract says so once, for all of them.

use vstd::prelude::*;

verus! {

/// A record of two fields that share one type.
///
/// The type parameter fixes the type of both fields, so `GenericStruct<u8>`
/// and `GenericStruct<u32>` are different types that never mix.
pub struct GenericStruct<T> {
    pub one: T,
    pub two: T,
}

/// Returns its argument unchanged, whatever the type.
pub fn identity<T>(x: T) -> (r: T)
    ensures
        r == x,
{
    x
}

/// Pairs two values in reversed order: the second argument comes first in
/// the result, the first argument second. The two types may differ.
pub fn tupleize<T, U>(x: T, y: U) -> (r: (U, T))
    ensures
        r == (y, x),
{
    (y, x)
}

} // verus!
