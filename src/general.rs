//! Helpers for combining coefficient sequences of different lengths.

use vstd::prelude::*;
use vstd::std_specs::cmp::{PartialOrdIs, PartialOrdSpec};

verus! {

/// Returns the greater of two values, `second` when they compare equal or
/// are unordered.
pub fn larger<T: PartialOrd>(first: T, second: T) -> (r: T)
    ensures
        r == first || r == second,
        T::obeys_partial_cmp_spec() ==> r == (if first.is_gt(&second) {
            first
        } else {
            second
        }),
{
    if first > second {
        first
    } else {
        second
    }
}

/// Tells whether `index` names an element of `vec`.
pub fn inbounds<T>(index: usize, vec: &Vec<T>) -> (r: bool)
    ensures
        r == (index < vec@.len()),
{
    index < vec.len()
}

} // verus!
