//! Merge strategies for numeric values.

use vstd::prelude::*;

verus! {

/// An integer type whose values can be added with saturation at the bounds of
/// the representable range.
pub trait SaturatingAdd: Sized {
    /// The sum of `self` and `other`, clamped to the representable range.
    spec fn sat_add(self, other: Self) -> Self;

    /// Add `other` to `self`, clamping to the type's range instead of
    /// overflowing.
    fn saturating_add(&self, other: &Self) -> (r: Self)
        ensures
            r == self.sat_add(*other),
    ;
}

impl SaturatingAdd for u8 {
    open spec fn sat_add(self, other: Self) -> Self {
        if self + other > u8::MAX {
            u8::MAX
        } else {
            (self + other) as u8
        }
    }

    #[inline]
    fn saturating_add(&self, other: &Self) -> (r: Self) {
        u8::saturating_add(*self, *other)
    }
}

impl SaturatingAdd for u16 {
    open spec fn sat_add(self, other: Self) -> Self {
        if self + other > u16::MAX {
            u16::MAX
        } else {
            (self + other) as u16
        }
    }

    #[inline]
    fn saturating_add(&self, other: &Self) -> (r: Self) {
        u16::saturating_add(*self, *other)
    }
}

impl SaturatingAdd for u32 {
    open spec fn sat_add(self, other: Self) -> Self {
        if self + other > u32::MAX {
            u32::MAX
        } else {
            (self + other) as u32
        }
    }

    #[inline]
    fn saturating_add(&self, other: &Self) -> (r: Self) {
        u32::saturating_add(*self, *other)
    }
}

impl SaturatingAdd for u64 {
    open spec fn sat_add(self, other: Self) -> Self {
        if self + other > u64::MAX {
            u64::MAX
        } else {
            (self + other) as u64
        }
    }

    #[inline]
    fn saturating_add(&self, other: &Self) -> (r: Self) {
        u64::saturating_add(*self, *other)
    }
}

impl SaturatingAdd for u128 {
    open spec fn sat_add(self, other: Self) -> Self {
        if self + other > u128::MAX {
            u128::MAX
        } else {
            (self + other) as u128
        }
    }

    #[inline]
    fn saturating_add(&self, other: &Self) -> (r: Self) {
        u128::saturating_add(*self, *other)
    }
}

impl SaturatingAdd for usize {
    open spec fn sat_add(self, other: Self) -> Self {
        if self + other > usize::MAX {
            usize::MAX
        } else {
            (self + other) as usize
        }
    }

    #[inline]
    fn saturating_add(&self, other: &Self) -> (r: Self) {
        usize::saturating_add(*self, *other)
    }
}

impl SaturatingAdd for i8 {
    open spec fn sat_add(self, other: Self) -> Self {
        if self + other > i8::MAX {
            i8::MAX
        } else if self + other < i8::MIN {
            i8::MIN
        } else {
            (self + other) as i8
        }
    }

    #[inline]
    fn saturating_add(&self, other: &Self) -> (r: Self) {
        match i8::checked_add(*self, *other) {
            Some(sum) => sum,
            None => if *other > 0 {
                i8::MAX
            } else {
                i8::MIN
            },
        }
    }
}

impl SaturatingAdd for i16 {
    open spec fn sat_add(self, other: Self) -> Self {
        if self + other > i16::MAX {
            i16::MAX
        } else if self + other < i16::MIN {
            i16::MIN
        } else {
            (self + other) as i16
        }
    }

    #[inline]
    fn saturating_add(&self, other: &Self) -> (r: Self) {
        match i16::checked_add(*self, *other) {
            Some(sum) => sum,
            None => if *other > 0 {
                i16::MAX
            } else {
                i16::MIN
            },
        }
    }
}

impl SaturatingAdd for i32 {
    open spec fn sat_add(self, other: Self) -> Self {
        if self + other > i32::MAX {
            i32::MAX
        } else if self + other < i32::MIN {
            i32::MIN
        } else {
            (self + other) as i32
        }
    }

    #[inline]
    fn saturating_add(&self, other: &Self) -> (r: Self) {
        match i32::checked_add(*self, *other) {
            Some(sum) => sum,
            None => if *other > 0 {
                i32::MAX
            } else {
                i32::MIN
            },
        }
    }
}

impl SaturatingAdd for i64 {
    open spec fn sat_add(self, other: Self) -> Self {
        if self + other > i64::MAX {
            i64::MAX
        } else if self + other < i64::MIN {
            i64::MIN
        } else {
            (self + other) as i64
        }
    }

    #[inline]
    fn saturating_add(&self, other: &Self) -> (r: Self) {
        match i64::checked_add(*self, *other) {
            Some(sum) => sum,
            None => if *other > 0 {
                i64::MAX
            } else {
                i64::MIN
            },
        }
    }
}

impl SaturatingAdd for i128 {
    open spec fn sat_add(self, other: Self) -> Self {
        if self + other > i128::MAX {
            i128::MAX
        } else if self + other < i128::MIN {
            i128::MIN
        } else {
            (self + other) as i128
        }
    }

    #[inline]
    fn saturating_add(&self, other: &Self) -> (r: Self) {
        match i128::checked_add(*self, *other) {
            Some(sum) => sum,
            None => if *other > 0 {
                i128::MAX
            } else {
                i128::MIN
            },
        }
    }
}

impl SaturatingAdd for isize {
    open spec fn sat_add(self, other: Self) -> Self {
        if self + other > isize::MAX {
            isize::MAX
        } else if self + other < isize::MIN {
            isize::MIN
        } else {
            (self + other) as isize
        }
    }

    #[inline]
    fn saturating_add(&self, other: &Self) -> (r: Self) {
        match isize::checked_add(*self, *other) {
            Some(sum) => sum,
            None => if *other > 0 {
                isize::MAX
            } else {
                isize::MIN
            },
        }
    }
}

/// Set `left` to the saturated sum of `left` and `right`.
pub fn saturating_add<T: SaturatingAdd>(left: &mut T, right: &mut T)
    ensures
        *final(left) == (*old(left)).sat_add(*old(right)),
        *final(right) == *old(right),
{
    *left = SaturatingAdd::saturating_add(left, right);
}

} // verus!
