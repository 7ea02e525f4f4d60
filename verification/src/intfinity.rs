//! The two extended-number types, with their equality, order and rendering.

use core::cmp::Ordering;
use core::fmt::Display;
use vstd::prelude::*;
use vstd::std_specs::cmp::{PartialEqSpec, PartialEqSpecImpl, PartialOrdSpec, PartialOrdSpecImpl};
use vstd::string::to_string_from_display_ensures;

use crate::traits::{Negate, Unsigned, Zero};

verus! {

/// A value of `T`, or one of two infinities that bound every value of `T`.
///
/// The variants are declared from least to greatest.
#[derive(Debug, Clone, Copy, Eq, Ord)]
pub enum DoubleInfiniteNumber<T> {
    /// Below every finite value.
    NegInfinity,
    /// A value of the wrapped type.
    Finite(T),
    /// Above every finite value.
    PosInfinity,
}

/// A value of a type without negative values, or the infinity above all of
/// them.
///
/// The variants are declared from least to greatest.
#[derive(Debug, Clone, Copy, Eq, Ord)]
pub enum SingleInfiniteNumber<T: Unsigned> {
    /// A value of the wrapped type.
    Finite(T),
    /// Above every finite value.
    Infinity,
}

impl<T> DoubleInfiniteNumber<T> where T: Copy {
    /// The finite number `value`.
    pub fn new(value: T) -> (number: Self)
        ensures
            number == DoubleInfiniteNumber::Finite(value),
    {
        DoubleInfiniteNumber::Finite(value)
    }
}

impl<T> DoubleInfiniteNumber<T> where T: Zero + PartialEq {
    /// Whether `self` is finite and its value counts as zero for `T`.
    pub open spec fn is_zero_spec(&self) -> bool {
        match self {
            DoubleInfiniteNumber::Finite(value) => value.is_zero_spec(),
            _ => false,
        }
    }

    /// Whether the number is zero. No infinity is.
    pub fn is_zero(&self) -> (b: bool)
        ensures
            b == self.is_zero_spec(),
    {
        match self {
            DoubleInfiniteNumber::Finite(value) => value.is_zero(),
            _ => false,
        }
    }
}

impl<T> DoubleInfiniteNumber<T> where T: Copy + Negate {
    /// The number mirrored at zero: a finite value is negated by `T`, and the
    /// two infinities change places.
    pub open spec fn negate_spec(self) -> Self {
        match self {
            DoubleInfiniteNumber::Finite(value) => DoubleInfiniteNumber::Finite(
                value.negate_spec(),
            ),
            DoubleInfiniteNumber::PosInfinity => DoubleInfiniteNumber::NegInfinity,
            DoubleInfiniteNumber::NegInfinity => DoubleInfiniteNumber::PosInfinity,
        }
    }

    /// The additive inverse of the number.
    pub fn negate_double_bounded_infinity(self) -> (negated: Self)
        ensures
            negated == self.negate_spec(),
    {
        match self {
            DoubleInfiniteNumber::Finite(value) => DoubleInfiniteNumber::Finite(value.negate()),
            DoubleInfiniteNumber::PosInfinity => DoubleInfiniteNumber::NegInfinity,
            DoubleInfiniteNumber::NegInfinity => DoubleInfiniteNumber::PosInfinity,
        }
    }
}

impl<T> DoubleInfiniteNumber<T> where T: Display {
    /// The number as text: a finite value as `T` displays it, the infinities
    /// as `+infinity` and `-infinity`.
    pub fn to_string(&self) -> (text: String)
        ensures
            match self {
                DoubleInfiniteNumber::Finite(value) => to_string_from_display_ensures::<T>(
                    value,
                    text,
                ),
                DoubleInfiniteNumber::PosInfinity => text@ == "+infinity"@,
                DoubleInfiniteNumber::NegInfinity => text@ == "-infinity"@,
            },
    {
        match self {
            DoubleInfiniteNumber::Finite(value) => value.to_string(),
            DoubleInfiniteNumber::PosInfinity => "+infinity".to_owned(),
            DoubleInfiniteNumber::NegInfinity => "-infinity".to_owned(),
        }
    }
}

impl<T: PartialEq> PartialEq for DoubleInfiniteNumber<T> {
    /// Two numbers are equal if both are finite with equal values, or both are
    /// the same infinity.
    fn eq(&self, other: &Self) -> (b: bool) {
        match (self, other) {
            (DoubleInfiniteNumber::Finite(a), DoubleInfiniteNumber::Finite(b)) => *a == *b,
            (DoubleInfiniteNumber::PosInfinity, DoubleInfiniteNumber::PosInfinity) => true,
            (DoubleInfiniteNumber::NegInfinity, DoubleInfiniteNumber::NegInfinity) => true,
            _ => false,
        }
    }
}

impl<T: PartialEq> PartialEqSpecImpl for DoubleInfiniteNumber<T> {
    open spec fn obeys_eq_spec() -> bool {
        T::obeys_eq_spec()
    }

    open spec fn eq_spec(&self, other: &Self) -> bool {
        match (self, other) {
            (DoubleInfiniteNumber::Finite(a), DoubleInfiniteNumber::Finite(b)) => a.eq_spec(b),
            (DoubleInfiniteNumber::PosInfinity, DoubleInfiniteNumber::PosInfinity) => true,
            (DoubleInfiniteNumber::NegInfinity, DoubleInfiniteNumber::NegInfinity) => true,
            _ => false,
        }
    }
}

impl<T: PartialOrd> PartialOrd for DoubleInfiniteNumber<T> {
    /// The order of the variants, and within `Finite` the order of `T`: negative
    /// infinity is least, positive infinity greatest, and each infinity equals
    /// itself.
    fn partial_cmp(&self, other: &Self) -> (order: Option<Ordering>) {
        match (self, other) {
            (DoubleInfiniteNumber::Finite(a), DoubleInfiniteNumber::Finite(b)) => a.partial_cmp(b),
            (DoubleInfiniteNumber::NegInfinity, DoubleInfiniteNumber::NegInfinity) => Some(
                Ordering::Equal,
            ),
            (DoubleInfiniteNumber::PosInfinity, DoubleInfiniteNumber::PosInfinity) => Some(
                Ordering::Equal,
            ),
            (DoubleInfiniteNumber::NegInfinity, _) => Some(Ordering::Less),
            (_, DoubleInfiniteNumber::PosInfinity) => Some(Ordering::Less),
            _ => Some(Ordering::Greater),
        }
    }
}

impl<T: PartialOrd> PartialOrdSpecImpl for DoubleInfiniteNumber<T> {
    open spec fn obeys_partial_cmp_spec() -> bool {
        T::obeys_partial_cmp_spec()
    }

    open spec fn partial_cmp_spec(&self, other: &Self) -> Option<Ordering> {
        match (self, other) {
            (DoubleInfiniteNumber::Finite(a), DoubleInfiniteNumber::Finite(b)) => a.partial_cmp_spec(
                b,
            ),
            (DoubleInfiniteNumber::NegInfinity, DoubleInfiniteNumber::NegInfinity) => Some(
                Ordering::Equal,
            ),
            (DoubleInfiniteNumber::PosInfinity, DoubleInfiniteNumber::PosInfinity) => Some(
                Ordering::Equal,
            ),
            (DoubleInfiniteNumber::NegInfinity, _) => Some(Ordering::Less),
            (_, DoubleInfiniteNumber::PosInfinity) => Some(Ordering::Less),
            _ => Some(Ordering::Greater),
        }
    }
}

impl<T> SingleInfiniteNumber<T> where T: Copy + Unsigned {
    /// The finite number `value`.
    pub fn new(value: T) -> (number: Self)
        ensures
            number == SingleInfiniteNumber::Finite(value),
    {
        SingleInfiniteNumber::Finite(value)
    }
}

impl<T> SingleInfiniteNumber<T> where T: Zero + PartialEq + Unsigned {
    /// Whether `self` is finite and its value counts as zero for `T`.
    pub open spec fn is_zero_spec(&self) -> bool {
        match self {
            SingleInfiniteNumber::Finite(value) => value.is_zero_spec(),
            SingleInfiniteNumber::Infinity => false,
        }
    }

    /// Whether the number is zero. Infinity is not.
    pub fn is_zero(&self) -> (b: bool)
        ensures
            b == self.is_zero_spec(),
    {
        match self {
            SingleInfiniteNumber::Finite(value) => value.is_zero(),
            SingleInfiniteNumber::Infinity => false,
        }
    }
}

impl<T> SingleInfiniteNumber<T> where T: Display + Unsigned {
    /// The number as text: a finite value as `T` displays it, infinity as
    /// `+infinity`.
    pub fn to_string(&self) -> (text: String)
        ensures
            match self {
                SingleInfiniteNumber::Finite(value) => to_string_from_display_ensures::<T>(
                    value,
                    text,
                ),
                SingleInfiniteNumber::Infinity => text@ == "+infinity"@,
            },
    {
        match self {
            SingleInfiniteNumber::Finite(value) => value.to_string(),
            SingleInfiniteNumber::Infinity => "+infinity".to_owned(),
        }
    }
}

impl<T: PartialEq + Unsigned> PartialEq for SingleInfiniteNumber<T> {
    /// Two numbers are equal if both are finite with equal values, or both are
    /// infinity.
    fn eq(&self, other: &Self) -> (b: bool) {
        match (self, other) {
            (SingleInfiniteNumber::Finite(a), SingleInfiniteNumber::Finite(b)) => *a == *b,
            (SingleInfiniteNumber::Infinity, SingleInfiniteNumber::Infinity) => true,
            _ => false,
        }
    }
}

impl<T: PartialEq + Unsigned> PartialEqSpecImpl for SingleInfiniteNumber<T> {
    open spec fn obeys_eq_spec() -> bool {
        T::obeys_eq_spec()
    }

    open spec fn eq_spec(&self, other: &Self) -> bool {
        match (self, other) {
            (SingleInfiniteNumber::Finite(a), SingleInfiniteNumber::Finite(b)) => a.eq_spec(b),
            (SingleInfiniteNumber::Infinity, SingleInfiniteNumber::Infinity) => true,
            _ => false,
        }
    }
}

impl<T: PartialOrd + Unsigned> PartialOrd for SingleInfiniteNumber<T> {
    /// The order of the variants, and within `Finite` the order of `T`:
    /// infinity is greatest and equals itself.
    fn partial_cmp(&self, other: &Self) -> (order: Option<Ordering>) {
        match (self, other) {
            (SingleInfiniteNumber::Finite(a), SingleInfiniteNumber::Finite(b)) => a.partial_cmp(b),
            (SingleInfiniteNumber::Infinity, SingleInfiniteNumber::Infinity) => Some(
                Ordering::Equal,
            ),
            (SingleInfiniteNumber::Finite(_), SingleInfiniteNumber::Infinity) => Some(
                Ordering::Less,
            ),
            (SingleInfiniteNumber::Infinity, SingleInfiniteNumber::Finite(_)) => Some(
                Ordering::Greater,
            ),
        }
    }
}

impl<T: PartialOrd + Unsigned> PartialOrdSpecImpl for SingleInfiniteNumber<T> {
    open spec fn obeys_partial_cmp_spec() -> bool {
        T::obeys_partial_cmp_spec()
    }

    open spec fn partial_cmp_spec(&self, other: &Self) -> Option<Ordering> {
        match (self, other) {
            (SingleInfiniteNumber::Finite(a), SingleInfiniteNumber::Finite(b)) => a.partial_cmp_spec(
                b,
            ),
            (SingleInfiniteNumber::Infinity, SingleInfiniteNumber::Infinity) => Some(
                Ordering::Equal,
            ),
            (SingleInfiniteNumber::Finite(_), SingleInfiniteNumber::Infinity) => Some(
                Ordering::Less,
            ),
            (SingleInfiniteNumber::Infinity, SingleInfiniteNumber::Finite(_)) => Some(
                Ordering::Greater,
            ),
        }
    }
}

} // verus!
