//! Capabilities a numeric type must offer before it can be extended with
//! infinities.
//!
//! Every executable method is paired with a specification function of the
//! implementing type, so that generic code can state exactly what it computes
//! without knowing the type behind it. A verified implementation overrides the
//! specification functions with what its methods compute. Their defaults leave
//! the value open, so that an implementation outside verification can do
//! without them.

use vstd::prelude::*;
use vstd::std_specs::cmp::PartialEqSpec;

verus! {

/// The additive identity of a type, and the test for it.
pub trait Zero: Sized {
    /// The value that `zero` returns.
    open spec fn zero_spec() -> Self {
        arbitrary()
    }

    /// Whether `self` counts as zero: unless an implementation says otherwise,
    /// whether it equals the value of `zero_spec`.
    open spec fn is_zero_spec(&self) -> bool where Self: PartialEq {
        self.eq_spec(&Self::zero_spec())
    }

    fn zero() -> (z: Self)
        ensures
            z == Self::zero_spec(),
    ;

    fn is_zero(&self) -> (b: bool) where Self: Sized, Self: PartialEq
        ensures
            b == self.is_zero_spec(),
    ;
}

/// The additive inverse.
pub trait Negate: Sized {
    /// The value that `negate` returns.
    open spec fn negate_spec(self) -> Self {
        arbitrary()
    }

    fn negate(self) -> (n: Self)
        ensures
            n == self.negate_spec(),
    ;
}

/// Addition that reports a sum that does not fit instead of wrapping.
pub trait CheckedAdd: Sized {
    /// `Some` of the exact sum, or `None` where the type cannot hold it.
    open spec fn checked_add_spec(self, other: Self) -> Option<Self> {
        arbitrary()
    }

    fn checked_add(self, other: Self) -> (sum: Option<Self>)
        ensures
            sum == self.checked_add_spec(other),
    ;
}

/// Subtraction that reports a difference that does not fit instead of wrapping.
pub trait CheckedSub: Sized {
    /// `Some` of the exact difference, or `None` where the type cannot hold it.
    open spec fn checked_sub_spec(self, other: Self) -> Option<Self> {
        arbitrary()
    }

    fn checked_sub(self, other: Self) -> (difference: Option<Self>)
        ensures
            difference == self.checked_sub_spec(other),
    ;
}

/// Multiplication that reports a product that does not fit instead of wrapping.
pub trait CheckedMul: Sized {
    /// `Some` of the exact product, or `None` where the type cannot hold it.
    open spec fn checked_mul_spec(self, other: Self) -> Option<Self> {
        arbitrary()
    }

    fn checked_mul(self, other: Self) -> (product: Option<Self>)
        ensures
            product == self.checked_mul_spec(other),
    ;
}

/// Division that reports a zero divisor, or a quotient that does not fit,
/// instead of failing.
pub trait CheckedDiv: Sized {
    /// `Some` of the quotient, or `None` where the divisor is zero or the type
    /// cannot hold the quotient.
    open spec fn checked_div_spec(self, other: Self) -> Option<Self> {
        arbitrary()
    }

    fn checked_div(self, other: Self) -> (quotient: Option<Self>)
        ensures
            quotient == self.checked_div_spec(other),
    ;
}

/// Marks a type none of whose values is negative.
pub trait Unsigned {
}

} // verus!
