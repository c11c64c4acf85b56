//! Sequences of values seen through their views.

use vstd::prelude::*;

verus! {

/// The views of a sequence of values, in order: the rows that records stand
/// for, the texts of strings.
pub open spec fn views<T: View>(items: Seq<T>) -> Seq<T::V> {
    items.map_values(|t: T| t@)
}

} // verus!
