//! Merge strategies for strings.

use vstd::prelude::*;

verus! {

/// Relies on `String::push_str`: appends the slice's characters onto the end
/// of the string.
#[verifier::external_body]
fn push_str(target: &mut String, addition: &str)
    ensures
        final(target)@ == old(target)@ + addition@,
{
    target.push_str(addition);
}

/// Append the contents of `right` to `left`; an empty operand is an identity.
///
/// `right` is drained to the empty string.
pub fn append(left: &mut String, right: &mut String)
    ensures
        final(left)@ == old(left)@ + old(right)@,
        final(left)@.len() == old(left)@.len() + old(right)@.len(),
        final(right)@ == Seq::<char>::empty(),
{
    let mut drained = String::new();
    core::mem::swap(right, &mut drained);
    push_str(left, drained.as_str());
}

/// Prepend the contents of `right` to `left`: afterwards `left` holds
/// `right`'s characters followed by `left`'s; an empty operand is an identity.
///
/// `right` is drained to the empty string.
pub fn prepend(left: &mut String, right: &mut String)
    ensures
        final(left)@ == old(right)@ + old(left)@,
        final(left)@.len() == old(left)@.len() + old(right)@.len(),
        final(right)@ == Seq::<char>::empty(),
{
    push_str(right, left.as_str());
    core::mem::swap(left, right);
    let mut drained = String::new();
    core::mem::swap(right, &mut drained);
}

} // verus!
