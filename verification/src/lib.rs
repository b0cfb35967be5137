//! Merging two values of the same shape into one, field by field.
//!
//! The [`Merge`] trait is the capability of combining an `incoming` value into
//! a `target` value in place.  It is meant for configuration assembled from
//! layered sources (hardcoded defaults, environment, files, command-line
//! flags): values of lower precedence are merged into values of higher
//! precedence, and each field independently chooses its conflict-resolution
//! rule.
//!
//! The built-in implementations all follow one policy: keep `target` unless it
//! is the type's empty value, in which case adopt `incoming` wholesale.  The
//! submodules provide a catalog of alternative merge strategies — pure, total,
//! two-argument functions `fn(&mut T, &mut T)` — for the most common types.
//! A compound record implements [`Merge`] by applying, to each field in
//! declaration order, either the field's own [`Merge`] implementation, a
//! chosen strategy function, or nothing at all (a skipped field); the
//! [`record`] module holds worked examples of such compositions.

pub mod any;
pub mod bool;
pub mod hashmap;
pub mod laws;
pub mod num;
pub mod option;
pub mod ord;
pub mod record;
pub mod string;
pub mod vec;

use std::collections::HashMap;
use vstd::prelude::*;

verus! {

/// A value that can be merged with another value of the same type.
pub trait Merge: Sized {
    /// The specification of [`Merge::merge`]: whether `post` is a correct
    /// result of merging `incoming` into `self`.
    ///
    /// For most implementations this pins `post` down to a single value; for
    /// types holding collections it pins down everything observable about
    /// `post` (such as the sequence of elements).
    spec fn merge_rel(self, incoming: Self, post: Self) -> bool;

    /// Merge `other` into `self`, in place.
    ///
    /// `other` is conceptually consumed: after the call it holds an
    /// unspecified (but valid) leftover value and must not be relied upon.
    fn merge(&mut self, other: &mut Self)
        ensures
            (*old(self)).merge_rel(*old(other), *final(self)),
    ;
}

impl Merge for bool {
    /// Primitive values merge by keeping the target unchanged.
    open spec fn merge_rel(self, incoming: Self, post: Self) -> bool {
        post == self
    }

    #[inline(always)]
    fn merge(&mut self, _other: &mut Self) {
    }
}

impl Merge for u8 {
    /// Primitive values merge by keeping the target unchanged.
    open spec fn merge_rel(self, incoming: Self, post: Self) -> bool {
        post == self
    }

    #[inline(always)]
    fn merge(&mut self, _other: &mut Self) {
    }
}

impl Merge for u16 {
    /// Primitive values merge by keeping the target unchanged.
    open spec fn merge_rel(self, incoming: Self, post: Self) -> bool {
        post == self
    }

    #[inline(always)]
    fn merge(&mut self, _other: &mut Self) {
    }
}

impl Merge for u32 {
    /// Primitive values merge by keeping the target unchanged.
    open spec fn merge_rel(self, incoming: Self, post: Self) -> bool {
        post == self
    }

    #[inline(always)]
    fn merge(&mut self, _other: &mut Self) {
    }
}

impl Merge for u64 {
    /// Primitive values merge by keeping the target unchanged.
    open spec fn merge_rel(self, incoming: Self, post: Self) -> bool {
        post == self
    }

    #[inline(always)]
    fn merge(&mut self, _other: &mut Self) {
    }
}

impl Merge for u128 {
    /// Primitive values merge by keeping the target unchanged.
    open spec fn merge_rel(self, incoming: Self, post: Self) -> bool {
        post == self
    }

    #[inline(always)]
    fn merge(&mut self, _other: &mut Self) {
    }
}

impl Merge for usize {
    /// Primitive values merge by keeping the target unchanged.
    open spec fn merge_rel(self, incoming: Self, post: Self) -> bool {
        post == self
    }

    #[inline(always)]
    fn merge(&mut self, _other: &mut Self) {
    }
}

impl Merge for i8 {
    /// Primitive values merge by keeping the target unchanged.
    open spec fn merge_rel(self, incoming: Self, post: Self) -> bool {
        post == self
    }

    #[inline(always)]
    fn merge(&mut self, _other: &mut Self) {
    }
}

impl Merge for i16 {
    /// Primitive values merge by keeping the target unchanged.
    open spec fn merge_rel(self, incoming: Self, post: Self) -> bool {
        post == self
    }

    #[inline(always)]
    fn merge(&mut self, _other: &mut Self) {
    }
}

impl Merge for i32 {
    /// Primitive values merge by keeping the target unchanged.
    open spec fn merge_rel(self, incoming: Self, post: Self) -> bool {
        post == self
    }

    #[inline(always)]
    fn merge(&mut self, _other: &mut Self) {
    }
}

impl Merge for i64 {
    /// Primitive values merge by keeping the target unchanged.
    open spec fn merge_rel(self, incoming: Self, post: Self) -> bool {
        post == self
    }

    #[inline(always)]
    fn merge(&mut self, _other: &mut Self) {
    }
}

impl Merge for i128 {
    /// Primitive values merge by keeping the target unchanged.
    open spec fn merge_rel(self, incoming: Self, post: Self) -> bool {
        post == self
    }

    #[inline(always)]
    fn merge(&mut self, _other: &mut Self) {
    }
}

impl Merge for isize {
    /// Primitive values merge by keeping the target unchanged.
    open spec fn merge_rel(self, incoming: Self, post: Self) -> bool {
        post == self
    }

    #[inline(always)]
    fn merge(&mut self, _other: &mut Self) {
    }
}

impl<T> Merge for Option<T> {
    /// An empty target adopts `incoming`; a non-empty target is kept.
    open spec fn merge_rel(self, incoming: Self, post: Self) -> bool {
        post == (if self is None {
            incoming
        } else {
            self
        })
    }

    #[inline]
    fn merge(&mut self, other: &mut Self) {
        if self.is_none() {
            core::mem::swap(self, other);
        }
    }
}

impl<'a> Merge for &'a str {
    /// An empty target adopts `incoming`; a non-empty target is kept.
    open spec fn merge_rel(self, incoming: Self, post: Self) -> bool {
        post == (if self@.len() == 0 {
            incoming
        } else {
            self
        })
    }

    #[inline]
    fn merge(&mut self, other: &mut Self) {
        if self.is_empty() {
            core::mem::swap(self, other);
        }
    }
}

impl Merge for String {
    /// An empty target adopts `incoming`; a non-empty target is kept.
    open spec fn merge_rel(self, incoming: Self, post: Self) -> bool {
        post == (if self@.len() == 0 {
            incoming
        } else {
            self
        })
    }

    #[inline]
    fn merge(&mut self, other: &mut Self) {
        if self.as_str().is_empty() {
            core::mem::swap(self, other);
        }
    }
}

impl<T> Merge for Vec<T> {
    /// An empty target adopts `incoming`; a non-empty target is kept.
    open spec fn merge_rel(self, incoming: Self, post: Self) -> bool {
        post == (if self@.len() == 0 {
            incoming
        } else {
            self
        })
    }

    #[inline]
    fn merge(&mut self, other: &mut Self) {
        if self.is_empty() {
            core::mem::swap(self, other);
        }
    }
}

impl<K, V> Merge for HashMap<K, V> {
    /// An empty target adopts `incoming`; a non-empty target is kept.
    open spec fn merge_rel(self, incoming: Self, post: Self) -> bool {
        post == (if self@.is_empty() {
            incoming
        } else {
            self
        })
    }

    #[inline]
    fn merge(&mut self, other: &mut Self) {
        if self.is_empty() {
            core::mem::swap(self, other);
        }
    }
}

} // verus!
