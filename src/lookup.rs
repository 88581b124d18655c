//! Indexed access that signals a missing element by absence instead of failing.
use vstd::prelude::*;

verus! {

/// Returns a view of the element at `index` when it lies within bounds, and
/// `None` otherwise. It never fails on an index past the end.
pub fn get_at<T>(items: &[T], index: usize) -> (r: Option<&T>)
    ensures
        r is Some <==> index < items@.len(),
        index < items@.len() ==> r == Some(&items@[index as int]),
{
    if index < items.len() {
        Some(&items[index])
    } else {
        None
    }
}

} // verus!
