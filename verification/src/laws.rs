//! Laws of the merge rules, stated and proved once and for all inputs.

use crate::num::SaturatingAdd;
use crate::record::{PairSkip, PairSkipPlain, TuplePairSkip, User};
use crate::Merge;
use core::cmp::Ordering;
use vstd::prelude::*;
use vstd::std_specs::cmp::PartialOrdSpec;

verus! {

/// Idempotence of the default rule on primitive values: for every primitive
/// type, the only permitted result of merging a value `v` with itself is `v`
/// unchanged.
pub proof fn lemma_primitive_merge_idempotent()
    ensures
        forall|v: bool, post: bool| #[trigger] v.merge_rel(v, post) <==> post == v,
        forall|v: u8, post: u8| #[trigger] v.merge_rel(v, post) <==> post == v,
        forall|v: u16, post: u16| #[trigger] v.merge_rel(v, post) <==> post == v,
        forall|v: u32, post: u32| #[trigger] v.merge_rel(v, post) <==> post == v,
        forall|v: u64, post: u64| #[trigger] v.merge_rel(v, post) <==> post == v,
        forall|v: u128, post: u128| #[trigger] v.merge_rel(v, post) <==> post == v,
        forall|v: usize, post: usize| #[trigger] v.merge_rel(v, post) <==> post == v,
        forall|v: i8, post: i8| #[trigger] v.merge_rel(v, post) <==> post == v,
        forall|v: i16, post: i16| #[trigger] v.merge_rel(v, post) <==> post == v,
        forall|v: i32, post: i32| #[trigger] v.merge_rel(v, post) <==> post == v,
        forall|v: i64, post: i64| #[trigger] v.merge_rel(v, post) <==> post == v,
        forall|v: i128, post: i128| #[trigger] v.merge_rel(v, post) <==> post == v,
        forall|v: isize, post: isize| #[trigger] v.merge_rel(v, post) <==> post == v,
{
}

/// Skip purity: a skipped field of the merge result always equals the
/// target's pre-merge field, whatever the incoming record holds.
pub proof fn lemma_skip_purity()
    ensures
        forall|target: PairSkip, incoming: PairSkip, post: PairSkip|
            #[trigger] target.merge_rel(incoming, post) ==> post.field2 == target.field2,
        forall|target: PairSkipPlain, incoming: PairSkipPlain, post: PairSkipPlain|
            #[trigger] target.merge_rel(incoming, post) ==> post.field2 == target.field2,
        forall|target: TuplePairSkip, incoming: TuplePairSkip, post: TuplePairSkip|
            #[trigger] target.merge_rel(incoming, post) ==> post.1 == target.1,
        forall|target: User, incoming: User, post: User|
            #[trigger] target.merge_rel(incoming, post) ==> post.name == target.name,
{
}

/// The default rule for optional values, case by case: an empty target adopts
/// the incoming value wholesale, and a non-empty target is kept, whatever the
/// incoming value holds.
pub proof fn lemma_option_overwrite_if_empty<T>()
    ensures
        forall|x: T, post: Option<T>|
            #[trigger] None::<T>.merge_rel(Some(x), post) <==> post == Some(x),
        forall|x: T, y: T, post: Option<T>|
            #[trigger] Some(x).merge_rel(Some(y), post) <==> post == Some(x),
        forall|x: T, post: Option<T>|
            #[trigger] Some(x).merge_rel(None::<T>, post) <==> post == Some(x),
        forall|post: Option<T>|
            #[trigger] None::<T>.merge_rel(None::<T>, post) <==> post == None::<T>,
{
}

/// Mapping-merge precedence: on a key present in both inputs,
/// [`crate::hashmap::merge`] keeps the target's value and
/// [`crate::hashmap::replace`] keeps the incoming value.
pub proof fn lemma_hashmap_precedence<K, V>(target: Map<K, V>, incoming: Map<K, V>, k: K)
    requires
        target.contains_key(k),
        incoming.contains_key(k),
    ensures
        incoming.union_prefer_right(target)[k] == target[k],
        target.union_prefer_right(incoming)[k] == incoming[k],
{
}

/// Saturating-add boundary: at each integer type's maximum, adding one more
/// saturates to the maximum instead of overflowing.
pub proof fn lemma_saturating_add_boundary()
    ensures
        u8::MAX.sat_add(1u8) == u8::MAX,
        u16::MAX.sat_add(1u16) == u16::MAX,
        u32::MAX.sat_add(1u32) == u32::MAX,
        u64::MAX.sat_add(1u64) == u64::MAX,
        u128::MAX.sat_add(1u128) == u128::MAX,
        usize::MAX.sat_add(1usize) == usize::MAX,
        i8::MAX.sat_add(1i8) == i8::MAX,
        i16::MAX.sat_add(1i16) == i16::MAX,
        i32::MAX.sat_add(1i32) == i32::MAX,
        i64::MAX.sat_add(1i64) == i64::MAX,
        i128::MAX.sat_add(1i128) == i128::MAX,
        isize::MAX.sat_add(1isize) == isize::MAX,
{
}

/// Total-order tie-break: a value compared with itself is never strictly less
/// or strictly greater, so the ordering strategies leave both operands
/// unchanged on a tie.
pub proof fn lemma_ord_tie_keeps_target<T: PartialOrd>(x: T)
    requires
        vstd::laws_cmp::obeys_partial_cmp_spec_properties::<T>(),
    ensures
        x.partial_cmp_spec(&x) != Some(Ordering::Less),
        x.partial_cmp_spec(&x) != Some(Ordering::Greater),
{
    reveal(vstd::laws_cmp::obeys_partial_cmp_spec_properties);
}

} // verus!
