//! Merge strategies for values that form a total order.

use core::cmp::Ordering;
use vstd::prelude::*;
use vstd::std_specs::cmp::PartialOrdSpec;

verus! {

/// Keep the greater of the two values in `left`; on a tie, keep `left`'s own
/// value.  The losing value is replaced by the type's default.
///
/// The exact outcome is pinned down when `T`'s comparison obeys its
/// specification (`T::obeys_partial_cmp_spec()`); either way `left` ends up
/// holding one of the two original values.
pub fn max_def<T: PartialOrd + Default>(left: &mut T, right: &mut T)
    ensures
        *final(left) == *old(left) || *final(left) == *old(right),
        T::obeys_partial_cmp_spec() ==> (if (*old(left)).partial_cmp_spec(old(right)) == Some(
            Ordering::Less,
        ) {
            &&& *final(left) == *old(right)
            &&& exists|d: T|
                #[trigger] call_ensures(<T as Default>::default, (), d) && *final(right) == d
        } else {
            &&& *final(left) == *old(left)
            &&& *final(right) == *old(right)
        }),
{
    if let Some(Ordering::Less) = PartialOrd::partial_cmp(left, right) {
        let mut drained = T::default();
        core::mem::swap(right, &mut drained);
        core::mem::swap(left, &mut drained);
    }
}

/// Keep the lesser of the two values in `left`; on a tie, keep `left`'s own
/// value.  The losing value is replaced by the type's default.
///
/// The exact outcome is pinned down when `T`'s comparison obeys its
/// specification (`T::obeys_partial_cmp_spec()`); either way `left` ends up
/// holding one of the two original values.
pub fn min_def<T: PartialOrd + Default>(left: &mut T, right: &mut T)
    ensures
        *final(left) == *old(left) || *final(left) == *old(right),
        T::obeys_partial_cmp_spec() ==> (if (*old(left)).partial_cmp_spec(old(right)) == Some(
            Ordering::Greater,
        ) {
            &&& *final(left) == *old(right)
            &&& exists|d: T|
                #[trigger] call_ensures(<T as Default>::default, (), d) && *final(right) == d
        } else {
            &&& *final(left) == *old(left)
            &&& *final(right) == *old(right)
        }),
{
    if let Some(Ordering::Greater) = PartialOrd::partial_cmp(left, right) {
        let mut drained = T::default();
        core::mem::swap(right, &mut drained);
        core::mem::swap(left, &mut drained);
    }
}

/// Swap the two values if `left` is less than `right`, so that `left` keeps
/// the greater value; on a tie, both values stay where they are.
///
/// The exact outcome is pinned down when `T`'s comparison obeys its
/// specification (`T::obeys_partial_cmp_spec()`); either way the call does
/// nothing beyond possibly swapping the two values.
pub fn max_swap<T: PartialOrd>(left: &mut T, right: &mut T)
    ensures
        (*final(left) == *old(left) && *final(right) == *old(right)) || (*final(left) == *old(
            right,
        ) && *final(right) == *old(left)),
        T::obeys_partial_cmp_spec() ==> (if (*old(left)).partial_cmp_spec(old(right)) == Some(
            Ordering::Less,
        ) {
            *final(left) == *old(right) && *final(right) == *old(left)
        } else {
            *final(left) == *old(left) && *final(right) == *old(right)
        }),
{
    if let Some(Ordering::Less) = PartialOrd::partial_cmp(left, right) {
        core::mem::swap(left, right);
    }
}

/// Swap the two values if `left` is greater than `right`, so that `left`
/// keeps the lesser value; on a tie, both values stay where they are.
///
/// The exact outcome is pinned down when `T`'s comparison obeys its
/// specification (`T::obeys_partial_cmp_spec()`); either way the call does
/// nothing beyond possibly swapping the two values.
pub fn min_swap<T: PartialOrd>(left: &mut T, right: &mut T)
    ensures
        (*final(left) == *old(left) && *final(right) == *old(right)) || (*final(left) == *old(
            right,
        ) && *final(right) == *old(left)),
        T::obeys_partial_cmp_spec() ==> (if (*old(left)).partial_cmp_spec(old(right)) == Some(
            Ordering::Greater,
        ) {
            *final(left) == *old(right) && *final(right) == *old(left)
        } else {
            *final(left) == *old(left) && *final(right) == *old(right)
        }),
{
    if let Some(Ordering::Greater) = PartialOrd::partial_cmp(left, right) {
        core::mem::swap(left, right);
    }
}

} // verus!
