//! Merge strategies for vectors.

use vstd::prelude::*;

verus! {

/// Append the contents of `right` to `left`, order-preserving: afterwards
/// `left` holds its own elements followed by `right`'s, so its length is the
/// sum of both lengths; an empty operand is an identity.
///
/// `right` is drained to the empty vector.
pub fn append<T>(left: &mut Vec<T>, right: &mut Vec<T>)
    ensures
        final(left)@ == old(left)@ + old(right)@,
        final(left)@.len() == old(left)@.len() + old(right)@.len(),
        final(right)@ == Seq::<T>::empty(),
{
    if left.is_empty() {
        core::mem::swap(left, right);
        proof {
            assert(left@ =~= old(left)@ + old(right)@);
            assert(right@ =~= Seq::<T>::empty());
        }
    } else {
        left.append(right);
    }
}

/// Prepend the contents of `right` to `left`, order-preserving: afterwards
/// `left` holds `right`'s elements followed by its own, so its length is the
/// sum of both lengths; an empty operand is an identity.
///
/// `right` is drained to the empty vector.
pub fn prepend<T>(left: &mut Vec<T>, right: &mut Vec<T>)
    ensures
        final(left)@ == old(right)@ + old(left)@,
        final(left)@.len() == old(left)@.len() + old(right)@.len(),
        final(right)@ == Seq::<T>::empty(),
{
    right.append(left);
    core::mem::swap(left, right);
}

} // verus!
