use vstd::prelude::*;

verus! {

/// An unsigned integer able to hold an amount of money counted in minor units.
///
/// Balances and prices may each be backed by a different width; settlement
/// moves amounts between widths through `u128`, which holds every width.
pub trait MinorValue: Sized {
    /// The number of minor units this value stands for.
    spec fn units(&self) -> nat;

    /// The largest number of minor units a value of this width can hold.
    spec fn max_units() -> nat;

    proof fn lemma_units_bounded(&self)
        ensures
            self.units() <= Self::max_units(),
            Self::max_units() <= u128::MAX,
    ;

    /// The additive identity.
    fn zero() -> (r: Self)
        ensures
            r.units() == 0,
    ;

    /// The largest value of this width.
    fn max_value() -> (r: Self)
        ensures
            r.units() == Self::max_units(),
    ;

    /// Total order on the amounts.
    fn compare(&self, other: &Self) -> (r: core::cmp::Ordering)
        ensures
            (r == core::cmp::Ordering::Less) == (self.units() < other.units()),
            (r == core::cmp::Ordering::Equal) == (self.units() == other.units()),
            (r == core::cmp::Ordering::Greater) == (self.units() > other.units()),
    ;

    /// Subtraction that reports an underflow instead of wrapping.
    fn checked_sub(&self, other: &Self) -> (r: Option<Self>)
        ensures
            r is Some <==> other.units() <= self.units(),
            r matches Some(d) ==> d.units() == self.units() - other.units(),
    ;

    /// The same amount, widened to `u128`.
    fn to_u128(&self) -> (r: u128)
        ensures
            r as nat == self.units(),
    ;

    /// The same amount in this width, if it fits.
    fn from_u128(n: u128) -> (r: Option<Self>)
        ensures
            r is Some <==> n <= Self::max_units(),
            r matches Some(v) ==> v.units() == n,
    ;
}

impl MinorValue for u8 {
    open spec fn units(&self) -> nat {
        *self as nat
    }

    open spec fn max_units() -> nat {
        u8::MAX as nat
    }

    proof fn lemma_units_bounded(&self) {
    }

    fn zero() -> (r: u8) {
        0
    }

    fn max_value() -> (r: u8) {
        u8::MAX
    }

    fn compare(&self, other: &u8) -> (r: core::cmp::Ordering) {
        if *self < *other {
            core::cmp::Ordering::Less
        } else if *self == *other {
            core::cmp::Ordering::Equal
        } else {
            core::cmp::Ordering::Greater
        }
    }

    fn checked_sub(&self, other: &u8) -> (r: Option<u8>) {
        u8::checked_sub(*self, *other)
    }

    fn to_u128(&self) -> (r: u128) {
        *self as u128
    }

    fn from_u128(n: u128) -> (r: Option<u8>) {
        if n <= u8::MAX as u128 {
            Some(n as u8)
        } else {
            None
        }
    }
}

impl MinorValue for u16 {
    open spec fn units(&self) -> nat {
        *self as nat
    }

    open spec fn max_units() -> nat {
        u16::MAX as nat
    }

    proof fn lemma_units_bounded(&self) {
    }

    fn zero() -> (r: u16) {
        0
    }

    fn max_value() -> (r: u16) {
        u16::MAX
    }

    fn compare(&self, other: &u16) -> (r: core::cmp::Ordering) {
        if *self < *other {
            core::cmp::Ordering::Less
        } else if *self == *other {
            core::cmp::Ordering::Equal
        } else {
            core::cmp::Ordering::Greater
        }
    }

    fn checked_sub(&self, other: &u16) -> (r: Option<u16>) {
        u16::checked_sub(*self, *other)
    }

    fn to_u128(&self) -> (r: u128) {
        *self as u128
    }

    fn from_u128(n: u128) -> (r: Option<u16>) {
        if n <= u16::MAX as u128 {
            Some(n as u16)
        } else {
            None
        }
    }
}

impl MinorValue for u32 {
    open spec fn units(&self) -> nat {
        *self as nat
    }

    open spec fn max_units() -> nat {
        u32::MAX as nat
    }

    proof fn lemma_units_bounded(&self) {
    }

    fn zero() -> (r: u32) {
        0
    }

    fn max_value() -> (r: u32) {
        u32::MAX
    }

    fn compare(&self, other: &u32) -> (r: core::cmp::Ordering) {
        if *self < *other {
            core::cmp::Ordering::Less
        } else if *self == *other {
            core::cmp::Ordering::Equal
        } else {
            core::cmp::Ordering::Greater
        }
    }

    fn checked_sub(&self, other: &u32) -> (r: Option<u32>) {
        u32::checked_sub(*self, *other)
    }

    fn to_u128(&self) -> (r: u128) {
        *self as u128
    }

    fn from_u128(n: u128) -> (r: Option<u32>) {
        if n <= u32::MAX as u128 {
            Some(n as u32)
        } else {
            None
        }
    }
}

impl MinorValue for u64 {
    open spec fn units(&self) -> nat {
        *self as nat
    }

    open spec fn max_units() -> nat {
        u64::MAX as nat
    }

    proof fn lemma_units_bounded(&self) {
    }

    fn zero() -> (r: u64) {
        0
    }

    fn max_value() -> (r: u64) {
        u64::MAX
    }

    fn compare(&self, other: &u64) -> (r: core::cmp::Ordering) {
        if *self < *other {
            core::cmp::Ordering::Less
        } else if *self == *other {
            core::cmp::Ordering::Equal
        } else {
            core::cmp::Ordering::Greater
        }
    }

    fn checked_sub(&self, other: &u64) -> (r: Option<u64>) {
        u64::checked_sub(*self, *other)
    }

    fn to_u128(&self) -> (r: u128) {
        *self as u128
    }

    fn from_u128(n: u128) -> (r: Option<u64>) {
        if n <= u64::MAX as u128 {
            Some(n as u64)
        } else {
            None
        }
    }
}

impl MinorValue for u128 {
    open spec fn units(&self) -> nat {
        *self as nat
    }

    open spec fn max_units() -> nat {
        u128::MAX as nat
    }

    proof fn lemma_units_bounded(&self) {
    }

    fn zero() -> (r: u128) {
        0
    }

    fn max_value() -> (r: u128) {
        u128::MAX
    }

    fn compare(&self, other: &u128) -> (r: core::cmp::Ordering) {
        if *self < *other {
            core::cmp::Ordering::Less
        } else if *self == *other {
            core::cmp::Ordering::Equal
        } else {
            core::cmp::Ordering::Greater
        }
    }

    fn checked_sub(&self, other: &u128) -> (r: Option<u128>) {
        u128::checked_sub(*self, *other)
    }

    fn to_u128(&self) -> (r: u128) {
        *self
    }

    fn from_u128(n: u128) -> (r: Option<u128>) {
        Some(n)
    }
}

} // verus!
