//! Merge strategies applicable to values of any type.

use vstd::prelude::*;
use vstd::std_specs::cmp::PartialEqSpec;

verus! {

/// Overwrite `left` with `right` regardless of their values.
///
/// `right` is drained: it is left holding a value that `T::default()` could
/// have returned.
pub fn overwrite<T: Default>(left: &mut T, right: &mut T)
    ensures
        *final(left) == *old(right),
        exists|d: T|
            #[trigger] call_ensures(<T as Default>::default, (), d) && *final(right) == d,
{
    let mut drained = T::default();
    core::mem::swap(right, &mut drained);
    core::mem::swap(left, &mut drained);
}

/// Overwrite `left` with `right` if the value of `left` is equal to the
/// default for the type; otherwise both values are unchanged.
///
/// The exact outcome is pinned down when `T`'s equality obeys its
/// specification (`T::obeys_eq_spec()`); either way the call does nothing
/// beyond possibly swapping the two values.
pub fn overwrite_default<T: Default + PartialEq>(left: &mut T, right: &mut T)
    ensures
        (*final(left) == *old(left) && *final(right) == *old(right)) || (*final(left) == *old(
            right,
        ) && *final(right) == *old(left)),
        T::obeys_eq_spec() ==> exists|d: T|
            #[trigger] call_ensures(<T as Default>::default, (), d) && (if (*old(left)).eq_spec(&d) {
                *final(left) == *old(right) && *final(right) == *old(left)
            } else {
                *final(left) == *old(left) && *final(right) == *old(right)
            }),
{
    let default_value = T::default();
    if *left == default_value {
        core::mem::swap(left, right);
    }
}

/// Swap `left` and `right` regardless of their values.
pub fn swap<T>(left: &mut T, right: &mut T)
    ensures
        *final(left) == *old(right),
        *final(right) == *old(left),
{
    core::mem::swap(left, right);
}

} // verus!
