//! Merge strategies for boolean values.

use vstd::prelude::*;

verus! {

/// Overwrite `left` with `right` if the value of `left` is `false`; the
/// result is the disjunction of the two values.
pub fn overwrite_false(left: &mut bool, right: &mut bool)
    ensures
        *final(left) == (*old(left) || *old(right)),
        *final(right) == *old(right),
{
    if !*left {
        *left = *right;
    }
}

/// Overwrite `left` with `right` if the value of `left` is `true`; the
/// result is the conjunction of the two values.
pub fn overwrite_true(left: &mut bool, right: &mut bool)
    ensures
        *final(left) == (*old(left) && *old(right)),
        *final(right) == *old(right),
{
    if *left {
        *left = *right;
    }
}

} // verus!
