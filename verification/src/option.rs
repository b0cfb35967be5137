//! Merge strategies for optional values.

use crate::Merge;
use vstd::prelude::*;

verus! {

/// The specification of [`recursive`]: whether `post` is a correct result of
/// recursively merging `incoming` into `target`.
///
/// If `incoming` holds a value and `target` is empty, `target` adopts it; if
/// both hold a value, the inner values are merged by the inner type's own
/// [`Merge`]; if `incoming` is empty, `target` is unchanged.
pub open spec fn recursive_rel<T: Merge>(target: Option<T>, incoming: Option<T>, post: Option<
    T,
>) -> bool {
    match incoming {
        Some(new) => match target {
            Some(original) => match post {
                Some(p) => original.merge_rel(new, p),
                None => false,
            },
            None => post == Some(new),
        },
        None => post == target,
    }
}

/// On conflict, recursively merge the inner values.
///
/// `right` is drained to `None` in every case.
pub fn recursive<T: Merge>(left: &mut Option<T>, right: &mut Option<T>)
    ensures
        recursive_rel(*old(left), *old(right), *final(left)),
        *final(right) is None,
{
    if let Some(mut new) = right.take() {
        match left {
            Some(original) => {
                original.merge(&mut new);
            },
            None => {
                *left = Some(new);
            },
        }
    }
}

} // verus!
