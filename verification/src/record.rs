//! Compound records that implement [`Merge`] by composition.
//!
//! A record merges by applying exactly one action to each field, in
//! declaration order: skip the field, call a chosen strategy function on it,
//! or recurse into the field's own [`Merge`] implementation.  The types in
//! this module are worked examples of that composition rule, written out by
//! hand; their `merge_rel` specifications record, field by field, which
//! policy each field uses.

use crate::Merge;
use vstd::prelude::*;

verus! {

/// A record with a skipped text field, an optional field merged by the
/// default rule, and a sequence field merged by [`crate::vec::append`].
#[derive(Debug, PartialEq)]
pub struct User {
    /// Skipped by merge: the target's name is always retained.
    pub name: &'static str,
    pub location: Option<&'static str>,
    pub groups: Vec<&'static str>,
}

impl Merge for User {
    open spec fn merge_rel(self, incoming: Self, post: Self) -> bool {
        &&& post.name == self.name
        &&& self.location.merge_rel(incoming.location, post.location)
        &&& post.groups@ == self.groups@ + incoming.groups@
    }

    fn merge(&mut self, other: &mut Self) {
        self.location.merge(&mut other.location);
        crate::vec::append(&mut self.groups, &mut other.groups);
    }
}

/// A record with a single optional field, merged by the default rule.
#[derive(Debug, PartialEq)]
pub struct Single {
    pub field1: Option<usize>,
}

impl Merge for Single {
    open spec fn merge_rel(self, incoming: Self, post: Self) -> bool {
        self.field1.merge_rel(incoming.field1, post.field1)
    }

    fn merge(&mut self, other: &mut Self) {
        self.field1.merge(&mut other.field1);
    }
}

/// A record with two optional fields, each merged independently by the
/// default rule.
#[derive(Debug, PartialEq)]
pub struct Pair {
    pub field1: Option<usize>,
    pub field2: Option<usize>,
}

impl Merge for Pair {
    open spec fn merge_rel(self, incoming: Self, post: Self) -> bool {
        &&& self.field1.merge_rel(incoming.field1, post.field1)
        &&& self.field2.merge_rel(incoming.field2, post.field2)
    }

    fn merge(&mut self, other: &mut Self) {
        self.field1.merge(&mut other.field1);
        self.field2.merge(&mut other.field2);
    }
}

/// A record whose second optional field is skipped by merge.
#[derive(Debug, PartialEq)]
pub struct PairSkip {
    pub field1: Option<usize>,
    /// Skipped by merge: the target's value is always retained.
    pub field2: Option<usize>,
}

impl Merge for PairSkip {
    open spec fn merge_rel(self, incoming: Self, post: Self) -> bool {
        &&& self.field1.merge_rel(incoming.field1, post.field1)
        &&& post.field2 == self.field2
    }

    fn merge(&mut self, other: &mut Self) {
        self.field1.merge(&mut other.field1);
    }
}

/// A record whose second field is skipped by merge; because the field is
/// skipped, its type need not implement [`Merge`] at all.
#[derive(Debug, PartialEq)]
pub struct PairSkipPlain {
    pub field1: Option<usize>,
    /// Skipped by merge: the target's value is always retained.
    pub field2: usize,
}

impl Merge for PairSkipPlain {
    open spec fn merge_rel(self, incoming: Self, post: Self) -> bool {
        &&& self.field1.merge_rel(incoming.field1, post.field1)
        &&& post.field2 == self.field2
    }

    fn merge(&mut self, other: &mut Self) {
        self.field1.merge(&mut other.field1);
    }
}

/// A record whose numeric field is merged by an explicit strategy,
/// [`crate::num::saturating_add`], instead of the identity rule its type
/// would use by default.
#[derive(Debug, PartialEq)]
pub struct Counter {
    pub field1: usize,
}

impl Merge for Counter {
    open spec fn merge_rel(self, incoming: Self, post: Self) -> bool {
        post.field1 == crate::num::SaturatingAdd::sat_add(self.field1, incoming.field1)
    }

    fn merge(&mut self, other: &mut Self) {
        crate::num::saturating_add(&mut self.field1, &mut other.field1);
    }
}

/// A record whose sequence field is merged by an explicit strategy,
/// [`crate::vec::append`], instead of the overwrite-if-empty rule its type
/// would use by default.
#[derive(Debug, PartialEq)]
pub struct Groups {
    pub field1: Vec<usize>,
}

impl Merge for Groups {
    open spec fn merge_rel(self, incoming: Self, post: Self) -> bool {
        post.field1@ == self.field1@ + incoming.field1@
    }

    fn merge(&mut self, other: &mut Self) {
        crate::vec::append(&mut self.field1, &mut other.field1);
    }
}

/// A record with unnamed fields, each merged independently by the default
/// rule.
#[derive(Debug, PartialEq)]
pub struct TuplePair(pub Option<usize>, pub Option<usize>);

impl Merge for TuplePair {
    open spec fn merge_rel(self, incoming: Self, post: Self) -> bool {
        &&& self.0.merge_rel(incoming.0, post.0)
        &&& self.1.merge_rel(incoming.1, post.1)
    }

    fn merge(&mut self, other: &mut Self) {
        self.0.merge(&mut other.0);
        self.1.merge(&mut other.1);
    }
}

/// A record with unnamed fields whose second field is skipped by merge.
#[derive(Debug, PartialEq)]
pub struct TuplePairSkip(pub Option<usize>, pub Option<usize>);

impl Merge for TuplePairSkip {
    open spec fn merge_rel(self, incoming: Self, post: Self) -> bool {
        &&& self.0.merge_rel(incoming.0, post.0)
        &&& post.1 == self.1
    }

    fn merge(&mut self, other: &mut Self) {
        self.0.merge(&mut other.0);
    }
}

/// A record combining every kind of field policy at once: two optional
/// fields merged by the default rule, a numeric field merged by
/// [`crate::num::saturating_add`], and a nested record merged by its own
/// [`Merge`] implementation.
#[derive(Debug, PartialEq)]
pub struct Mixed(pub Option<usize>, pub Option<usize>, pub u8, pub Saturated);

/// A record whose numeric field is merged by [`crate::num::saturating_add`].
#[derive(Debug, PartialEq)]
pub struct Saturated(pub u8);

impl Merge for Saturated {
    open spec fn merge_rel(self, incoming: Self, post: Self) -> bool {
        post.0 == crate::num::SaturatingAdd::sat_add(self.0, incoming.0)
    }

    fn merge(&mut self, other: &mut Self) {
        crate::num::saturating_add(&mut self.0, &mut other.0);
    }
}

impl Merge for Mixed {
    open spec fn merge_rel(self, incoming: Self, post: Self) -> bool {
        &&& self.0.merge_rel(incoming.0, post.0)
        &&& self.1.merge_rel(incoming.1, post.1)
        &&& post.2 == crate::num::SaturatingAdd::sat_add(self.2, incoming.2)
        &&& self.3.merge_rel(incoming.3, post.3)
    }

    fn merge(&mut self, other: &mut Self) {
        self.0.merge(&mut other.0);
        self.1.merge(&mut other.1);
        crate::num::saturating_add(&mut self.2, &mut other.2);
        self.3.merge(&mut other.3);
    }
}

/// A generic record: composition needs nothing from the type parameters
/// beyond what the fields' own merge rules use.
#[derive(Debug, PartialEq)]
pub struct PairGeneric<A, B>(pub Option<A>, pub Option<B>);

impl<A, B> Merge for PairGeneric<A, B> {
    open spec fn merge_rel(self, incoming: Self, post: Self) -> bool {
        &&& self.0.merge_rel(incoming.0, post.0)
        &&& self.1.merge_rel(incoming.1, post.1)
    }

    fn merge(&mut self, other: &mut Self) {
        self.0.merge(&mut other.0);
        self.1.merge(&mut other.1);
    }
}

/// A record with three independent optional fields, each merged by the
/// default overwrite-if-empty rule.
#[derive(Debug, PartialEq)]
pub struct Triple {
    pub option1: Option<usize>,
    pub option2: Option<usize>,
    pub option3: Option<usize>,
}

impl Merge for Triple {
    open spec fn merge_rel(self, incoming: Self, post: Self) -> bool {
        &&& self.option1.merge_rel(incoming.option1, post.option1)
        &&& self.option2.merge_rel(incoming.option2, post.option2)
        &&& self.option3.merge_rel(incoming.option3, post.option3)
    }

    fn merge(&mut self, other: &mut Self) {
        self.option1.merge(&mut other.option1);
        self.option2.merge(&mut other.option2);
        self.option3.merge(&mut other.option3);
    }
}

} // verus!
