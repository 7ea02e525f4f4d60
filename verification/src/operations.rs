//! Arithmetic on extended numbers, and the comparison that treats an
//! infinity as incomparable with itself.
//!
//! Each operation is a specification function of the type (`sum`,
//! `difference`, `product`, `quotient`) and an operator that is proved to
//! compute it. A companion (`sum_defined` and the like) says on which pairs the
//! operation has a value, and is the operator's precondition: the pairs it
//! leaves out are infinity minus infinity and the other combinations that mean
//! nothing. Code outside verification that passes one anyway is stopped with a
//! message instead of receiving a made-up result.
//!
//! Where an operation looks at the sign of a finite value, the operator
//! computes it for every `T` whose comparisons keep to their own
//! specification (`obeys_partial_cmp_spec`), as those of the built-in integers
//! do.

use core::cmp::Ordering;
use core::ops::{Add, Div, Mul, Sub};
use vstd::prelude::*;
use vstd::std_specs::cmp::PartialOrdSpec;
use vstd::std_specs::ops::{AddSpecImpl, DivSpecImpl, MulSpecImpl, SubSpecImpl};

use crate::intfinity::{DoubleInfiniteNumber, SingleInfiniteNumber};
use crate::traits::{CheckedAdd, CheckedDiv, CheckedMul, CheckedSub, Negate, Unsigned, Zero};

verus! {

/// Whether `value` is greater than the zero of its type.
pub open spec fn is_positive<T: PartialOrd + Zero>(value: T) -> bool {
    value.partial_cmp_spec(&T::zero_spec()) == Some(Ordering::Greater)
}

/// Whether `value` is less than the zero of its type.
pub open spec fn is_negative<T: PartialOrd + Zero>(value: T) -> bool {
    value.partial_cmp_spec(&T::zero_spec()) == Some(Ordering::Less)
}

/// Whether `a` and `b` lie strictly on the same side of zero, so that their
/// product and their quotient are positive.
pub open spec fn same_sign<T: PartialOrd + Zero>(a: T, b: T) -> bool {
    (is_positive(a) && is_positive(b)) || (is_negative(a) && is_negative(b))
}

/// The infinity on the side of zero where `value` lies: positive if `value` is
/// greater than zero, negative otherwise.
pub open spec fn infinity_toward<T: PartialOrd + Zero>(value: T) -> DoubleInfiniteNumber<T> {
    if is_positive(value) {
        DoubleInfiniteNumber::PosInfinity
    } else {
        DoubleInfiniteNumber::NegInfinity
    }
}

/// The infinity with the sign of the product of `a` and `b`: positive if both
/// lie on the same side of zero, negative otherwise.
pub open spec fn infinity_of_signs<T: PartialOrd + Zero>(a: T, b: T) -> DoubleInfiniteNumber<T> {
    if same_sign(a, b) {
        DoubleInfiniteNumber::PosInfinity
    } else {
        DoubleInfiniteNumber::NegInfinity
    }
}

impl<T> DoubleInfiniteNumber<T> where T: PartialOrd + Zero {
    /// Whether the number lies above zero: positive infinity does, negative
    /// infinity does not, and a finite value does if it is greater than the zero
    /// of `T`.
    pub open spec fn above_zero(self) -> bool {
        match self {
            DoubleInfiniteNumber::PosInfinity => true,
            DoubleInfiniteNumber::Finite(value) => is_positive(value),
            DoubleInfiniteNumber::NegInfinity => false,
        }
    }
}

impl<T> DoubleInfiniteNumber<T> where T: PartialOrd + Zero + CheckedAdd {
    /// Whether the sum of `self` and `other` is defined: on every pair but the
    /// two infinities of opposite sign.
    pub open spec fn sum_defined(self, other: Self) -> bool {
        match (self, other) {
            (DoubleInfiniteNumber::PosInfinity, DoubleInfiniteNumber::NegInfinity) => false,
            (DoubleInfiniteNumber::NegInfinity, DoubleInfiniteNumber::PosInfinity) => false,
            _ => true,
        }
    }

    /// The sum. Two finite values are added by `T`; a sum that does not fit
    /// becomes the infinity on the side of the left operand. An infinity
    /// absorbs everything but the opposite infinity.
    pub open spec fn sum(self, other: Self) -> Self {
        match (self, other) {
            (DoubleInfiniteNumber::Finite(a), DoubleInfiniteNumber::Finite(b)) => {
                match a.checked_add_spec(b) {
                    Some(value) => DoubleInfiniteNumber::Finite(value),
                    None => infinity_toward(a),
                }
            },
            (DoubleInfiniteNumber::PosInfinity, _) | (_, DoubleInfiniteNumber::PosInfinity) => {
                DoubleInfiniteNumber::PosInfinity
            },
            _ => DoubleInfiniteNumber::NegInfinity,
        }
    }
}

impl<T> Add for DoubleInfiniteNumber<T> where
    T: Copy + Add<Output = T> + PartialOrd + Zero + CheckedAdd,
 {
    type Output = Self;

    /// The sum of the two numbers.
    fn add(self, other: Self) -> (sum: Self)
        ensures
            T::obeys_partial_cmp_spec() ==> sum == self.sum(other),
            !(self is Finite && other is Finite) ==> sum == self.sum(other),
    {
        match (self, other) {
            (DoubleInfiniteNumber::Finite(a), DoubleInfiniteNumber::Finite(b)) => {
                match a.checked_add(b) {
                    Some(value) => DoubleInfiniteNumber::Finite(value),
                    None => if a > T::zero() {
                        DoubleInfiniteNumber::PosInfinity
                    } else {
                        DoubleInfiniteNumber::NegInfinity
                    },
                }
            },
            (DoubleInfiniteNumber::PosInfinity, DoubleInfiniteNumber::NegInfinity)
            | (DoubleInfiniteNumber::NegInfinity, DoubleInfiniteNumber::PosInfinity) => {
                // Ruled out by the precondition: only unverified code gets here.
                let undefined: Option<Self> = None;
                undefined.expect("indeterminate form: +inf + (-inf)")
            },
            (DoubleInfiniteNumber::PosInfinity, _) | (_, DoubleInfiniteNumber::PosInfinity) => {
                DoubleInfiniteNumber::PosInfinity
            },
            (DoubleInfiniteNumber::NegInfinity, _) | (_, DoubleInfiniteNumber::NegInfinity) => {
                DoubleInfiniteNumber::NegInfinity
            },
        }
    }
}

impl<T> AddSpecImpl for DoubleInfiniteNumber<T> where
    T: Copy + Add<Output = T> + PartialOrd + Zero + CheckedAdd,
 {
    open spec fn obeys_add_spec() -> bool {
        T::obeys_partial_cmp_spec()
    }

    open spec fn add_req(self, other: Self) -> bool {
        self.sum_defined(other)
    }

    open spec fn add_spec(self, other: Self) -> Self {
        self.sum(other)
    }
}

impl<T> DoubleInfiniteNumber<T> where T: PartialOrd + Zero + CheckedSub {
    /// Whether the difference of `self` and `other` is defined: on every pair
    /// but an infinity and itself.
    pub open spec fn difference_defined(self, other: Self) -> bool {
        match (self, other) {
            (DoubleInfiniteNumber::PosInfinity, DoubleInfiniteNumber::PosInfinity) => false,
            (DoubleInfiniteNumber::NegInfinity, DoubleInfiniteNumber::NegInfinity) => false,
            _ => true,
        }
    }

    /// The difference. Two finite values are subtracted by `T`; a difference
    /// that does not fit becomes the infinity on the side of the left operand.
    /// An infinity minus anything but itself stays, and a finite value minus an
    /// infinity is the opposite infinity.
    pub open spec fn difference(self, other: Self) -> Self {
        match (self, other) {
            (DoubleInfiniteNumber::Finite(a), DoubleInfiniteNumber::Finite(b)) => {
                match a.checked_sub_spec(b) {
                    Some(value) => DoubleInfiniteNumber::Finite(value),
                    None => infinity_toward(a),
                }
            },
            (DoubleInfiniteNumber::PosInfinity, _) | (_, DoubleInfiniteNumber::NegInfinity) => {
                DoubleInfiniteNumber::PosInfinity
            },
            _ => DoubleInfiniteNumber::NegInfinity,
        }
    }
}

impl<T> Sub for DoubleInfiniteNumber<T> where
    T: Copy + Sub<Output = T> + PartialOrd + Zero + CheckedSub,
 {
    type Output = Self;

    /// The difference of the two numbers.
    fn sub(self, other: Self) -> (difference: Self)
        ensures
            T::obeys_partial_cmp_spec() ==> difference == self.difference(other),
            !(self is Finite && other is Finite) ==> difference == self.difference(other),
    {
        match (self, other) {
            (DoubleInfiniteNumber::Finite(a), DoubleInfiniteNumber::Finite(b)) => {
                match a.checked_sub(b) {
                    Some(value) => DoubleInfiniteNumber::Finite(value),
                    None => if a > T::zero() {
                        DoubleInfiniteNumber::PosInfinity
                    } else {
                        DoubleInfiniteNumber::NegInfinity
                    },
                }
            },
            (DoubleInfiniteNumber::PosInfinity, DoubleInfiniteNumber::PosInfinity)
            | (DoubleInfiniteNumber::NegInfinity, DoubleInfiniteNumber::NegInfinity) => {
                // Ruled out by the precondition: only unverified code gets here.
                let undefined: Option<Self> = None;
                undefined.expect("indeterminate form: inf - inf")
            },
            (DoubleInfiniteNumber::PosInfinity, _) | (_, DoubleInfiniteNumber::NegInfinity) => {
                DoubleInfiniteNumber::PosInfinity
            },
            (DoubleInfiniteNumber::NegInfinity, _) | (_, DoubleInfiniteNumber::PosInfinity) => {
                DoubleInfiniteNumber::NegInfinity
            },
        }
    }
}

impl<T> SubSpecImpl for DoubleInfiniteNumber<T> where
    T: Copy + Sub<Output = T> + PartialOrd + Zero + CheckedSub,
 {
    open spec fn obeys_sub_spec() -> bool {
        T::obeys_partial_cmp_spec()
    }

    open spec fn sub_req(self, other: Self) -> bool {
        self.difference_defined(other)
    }

    open spec fn sub_spec(self, other: Self) -> Self {
        self.difference(other)
    }
}

impl<T> DoubleInfiniteNumber<T> where T: PartialOrd + Zero + CheckedMul {
    /// Whether the product of `self` and `other` is defined: on every pair but
    /// an infinity and a finite value that counts as zero, in either order.
    pub open spec fn product_defined(self, other: Self) -> bool {
        match (self, other) {
            (DoubleInfiniteNumber::Finite(_), DoubleInfiniteNumber::Finite(_)) => true,
            (DoubleInfiniteNumber::Finite(a), _) => !a.is_zero_spec(),
            (_, DoubleInfiniteNumber::Finite(b)) => !b.is_zero_spec(),
            _ => true,
        }
    }

    /// The product. Two finite values are multiplied by `T`; a product that
    /// does not fit becomes the infinity with the sign of the product. With an
    /// infinity among the factors the product is an infinity: the positive one
    /// if both factors lie on the same side of zero, the negative one if not.
    pub open spec fn product(self, other: Self) -> Self {
        match (self, other) {
            (DoubleInfiniteNumber::Finite(a), DoubleInfiniteNumber::Finite(b)) => {
                match a.checked_mul_spec(b) {
                    Some(value) => DoubleInfiniteNumber::Finite(value),
                    None => infinity_of_signs(a, b),
                }
            },
            _ => if self.above_zero() == other.above_zero() {
                DoubleInfiniteNumber::PosInfinity
            } else {
                DoubleInfiniteNumber::NegInfinity
            },
        }
    }
}

impl<T> Mul for DoubleInfiniteNumber<T> where
    T: Copy + Mul<Output = T> + PartialOrd + Zero + CheckedMul,
 {
    type Output = Self;

    /// The product of the two numbers.
    fn mul(self, other: Self) -> (product: Self)
        ensures
            T::obeys_partial_cmp_spec() ==> product == self.product(other),
            !(self is Finite || other is Finite) ==> product == self.product(other),
    {
        match (self, other) {
            (DoubleInfiniteNumber::Finite(a), DoubleInfiniteNumber::Finite(b)) => {
                match a.checked_mul(b) {
                    Some(value) => DoubleInfiniteNumber::Finite(value),
                    None => if (a > T::zero() && b > T::zero()) || (a < T::zero() && b
                        < T::zero()) {
                        DoubleInfiniteNumber::PosInfinity
                    } else {
                        DoubleInfiniteNumber::NegInfinity
                    },
                }
            },
            (DoubleInfiniteNumber::PosInfinity, DoubleInfiniteNumber::Finite(a))
            | (DoubleInfiniteNumber::Finite(a), DoubleInfiniteNumber::PosInfinity) => {
                if a.is_zero() {
                    // Ruled out by the precondition: only unverified code gets here.
                    let undefined: Option<Self> = None;
                    undefined.expect("indefinite form: 0 * inf")
                } else if a > T::zero() {
                    DoubleInfiniteNumber::PosInfinity
                } else {
                    DoubleInfiniteNumber::NegInfinity
                }
            },
            (DoubleInfiniteNumber::NegInfinity, DoubleInfiniteNumber::Finite(a))
            | (DoubleInfiniteNumber::Finite(a), DoubleInfiniteNumber::NegInfinity) => {
                if a.is_zero() {
                    // Ruled out by the precondition: only unverified code gets here.
                    let undefined: Option<Self> = None;
                    undefined.expect("indefinite form: 0 * -inf")
                } else if a > T::zero() {
                    DoubleInfiniteNumber::NegInfinity
                } else {
                    DoubleInfiniteNumber::PosInfinity
                }
            },
            (DoubleInfiniteNumber::PosInfinity, DoubleInfiniteNumber::PosInfinity)
            | (DoubleInfiniteNumber::NegInfinity, DoubleInfiniteNumber::NegInfinity) => {
                DoubleInfiniteNumber::PosInfinity
            },
            (DoubleInfiniteNumber::PosInfinity, DoubleInfiniteNumber::NegInfinity)
            | (DoubleInfiniteNumber::NegInfinity, DoubleInfiniteNumber::PosInfinity) => {
                DoubleInfiniteNumber::NegInfinity
            },
        }
    }
}

impl<T> MulSpecImpl for DoubleInfiniteNumber<T> where
    T: Copy + Mul<Output = T> + PartialOrd + Zero + CheckedMul,
 {
    open spec fn obeys_mul_spec() -> bool {
        T::obeys_partial_cmp_spec()
    }

    open spec fn mul_req(self, other: Self) -> bool {
        self.product_defined(other)
    }

    open spec fn mul_spec(self, other: Self) -> Self {
        self.product(other)
    }
}

impl<T> DoubleInfiniteNumber<T> where T: PartialOrd + Zero + CheckedDiv {
    /// Whether the quotient of `self` by `other` is defined: on every pair
    /// whose divisor is a finite value that does not count as zero, or an
    /// infinity under a finite dividend.
    pub open spec fn quotient_defined(self, other: Self) -> bool {
        match (self, other) {
            (_, DoubleInfiniteNumber::Finite(b)) => !b.is_zero_spec(),
            (DoubleInfiniteNumber::Finite(_), _) => true,
            _ => false,
        }
    }

    /// The quotient. Two finite values are divided by `T`; a quotient that does
    /// not fit becomes the infinity with the sign of the quotient. An infinity
    /// over a finite value is an infinity: the positive one if dividend and
    /// divisor lie on the same side of zero, the negative one if not. A finite
    /// value over an infinity is zero.
    pub open spec fn quotient(self, other: Self) -> Self {
        match (self, other) {
            (DoubleInfiniteNumber::Finite(a), DoubleInfiniteNumber::Finite(b)) => {
                match a.checked_div_spec(b) {
                    Some(value) => DoubleInfiniteNumber::Finite(value),
                    None => infinity_of_signs(a, b),
                }
            },
            (_, DoubleInfiniteNumber::Finite(_)) => if self.above_zero() == other.above_zero() {
                DoubleInfiniteNumber::PosInfinity
            } else {
                DoubleInfiniteNumber::NegInfinity
            },
            _ => DoubleInfiniteNumber::Finite(T::zero_spec()),
        }
    }
}

impl<T> Div for DoubleInfiniteNumber<T> where
    T: Copy + Div<Output = T> + PartialOrd + Zero + CheckedDiv + Negate,
 {
    type Output = Self;

    /// The quotient of the two numbers.
    fn div(self, other: Self) -> (quotient: Self)
        ensures
            T::obeys_partial_cmp_spec() ==> quotient == self.quotient(other),
            self is Finite && !(other is Finite) ==> quotient == self.quotient(other),
    {
        match (self, other) {
            (DoubleInfiniteNumber::Finite(a), DoubleInfiniteNumber::Finite(b)) => {
                if b.is_zero() {
                    // Ruled out by the precondition: only unverified code gets here.
                    let undefined: Option<Self> = None;
                    undefined.expect("division by zero")
                } else {
                    match a.checked_div(b) {
                        Some(value) => DoubleInfiniteNumber::Finite(value),
                        None => if (a > T::zero() && b > T::zero()) || (a < T::zero() && b
                            < T::zero()) {
                            DoubleInfiniteNumber::PosInfinity
                        } else {
                            DoubleInfiniteNumber::NegInfinity
                        },
                    }
                }
            },
            (DoubleInfiniteNumber::Finite(_), DoubleInfiniteNumber::PosInfinity)
            | (DoubleInfiniteNumber::Finite(_), DoubleInfiniteNumber::NegInfinity) => {
                DoubleInfiniteNumber::Finite(T::zero())
            },
            (DoubleInfiniteNumber::PosInfinity, DoubleInfiniteNumber::Finite(a))
            | (DoubleInfiniteNumber::NegInfinity, DoubleInfiniteNumber::Finite(a)) => {
                if a.is_zero() {
                    // Ruled out by the precondition: only unverified code gets here.
                    let undefined: Option<Self> = None;
                    undefined.expect("division by zero")
                } else if a > T::zero() {
                    self
                } else {
                    self.negate_double_bounded_infinity()
                }
            },
            (DoubleInfiniteNumber::PosInfinity, DoubleInfiniteNumber::PosInfinity)
            | (DoubleInfiniteNumber::NegInfinity, DoubleInfiniteNumber::NegInfinity) => {
                // Ruled out by the precondition: only unverified code gets here.
                let undefined: Option<Self> = None;
                undefined.expect("indeterminate form: inf / inf")
            },
            (DoubleInfiniteNumber::PosInfinity, DoubleInfiniteNumber::NegInfinity)
            | (DoubleInfiniteNumber::NegInfinity, DoubleInfiniteNumber::PosInfinity) => {
                // Ruled out by the precondition: only unverified code gets here.
                let undefined: Option<Self> = None;
                undefined.expect("indeterminate form: inf / -inf")
            },
        }
    }
}

impl<T> DivSpecImpl for DoubleInfiniteNumber<T> where
    T: Copy + Div<Output = T> + PartialOrd + Zero + CheckedDiv + Negate,
 {
    open spec fn obeys_div_spec() -> bool {
        T::obeys_partial_cmp_spec()
    }

    open spec fn div_req(self, other: Self) -> bool {
        self.quotient_defined(other)
    }

    open spec fn div_spec(self, other: Self) -> Self {
        self.quotient(other)
    }
}

impl<T> DoubleInfiniteNumber<T> where T: PartialEq + PartialOrd {
    /// The order of `self` and `other`, with no answer for an infinity against
    /// itself: otherwise negative infinity is least, positive infinity
    /// greatest, and finite values compare as `T` orders them.
    pub open spec fn indeterminate_cmp_spec(&self, other: &Self) -> Option<Ordering> {
        match (self, other) {
            (DoubleInfiniteNumber::Finite(a), DoubleInfiniteNumber::Finite(b)) => {
                a.partial_cmp_spec(b)
            },
            (DoubleInfiniteNumber::PosInfinity, DoubleInfiniteNumber::PosInfinity) => None,
            (DoubleInfiniteNumber::NegInfinity, DoubleInfiniteNumber::NegInfinity) => None,
            (DoubleInfiniteNumber::PosInfinity, _) => Some(Ordering::Greater),
            (_, DoubleInfiniteNumber::PosInfinity) => Some(Ordering::Less),
            (DoubleInfiniteNumber::NegInfinity, _) => Some(Ordering::Less),
            (_, DoubleInfiniteNumber::NegInfinity) => Some(Ordering::Greater),
        }
    }

    /// Compares two numbers, and answers `None` for an infinity against itself.
    pub fn indeterminate_cmp(&self, other: &Self) -> (order: Option<Ordering>)
        ensures
            T::obeys_partial_cmp_spec() ==> order == self.indeterminate_cmp_spec(other),
            !(self is Finite && other is Finite) ==> order == self.indeterminate_cmp_spec(other),
    {
        match (self, other) {
            (DoubleInfiniteNumber::Finite(a), DoubleInfiniteNumber::Finite(b)) => a.partial_cmp(b),
            (DoubleInfiniteNumber::PosInfinity, DoubleInfiniteNumber::PosInfinity) => None,
            (DoubleInfiniteNumber::NegInfinity, DoubleInfiniteNumber::NegInfinity) => None,
            (DoubleInfiniteNumber::PosInfinity, _) => Some(Ordering::Greater),
            (_, DoubleInfiniteNumber::PosInfinity) => Some(Ordering::Less),
            (DoubleInfiniteNumber::NegInfinity, _) => Some(Ordering::Less),
            (_, DoubleInfiniteNumber::NegInfinity) => Some(Ordering::Greater),
        }
    }
}

impl<T> SingleInfiniteNumber<T> where T: Unsigned + CheckedAdd {
    /// The sum. Two finite values are added by `T`; a sum that does not fit,
    /// and any sum with infinity, is infinity.
    pub open spec fn sum(self, other: Self) -> Self {
        match (self, other) {
            (SingleInfiniteNumber::Finite(a), SingleInfiniteNumber::Finite(b)) => {
                match a.checked_add_spec(b) {
                    Some(value) => SingleInfiniteNumber::Finite(value),
                    None => SingleInfiniteNumber::Infinity,
                }
            },
            _ => SingleInfiniteNumber::Infinity,
        }
    }
}

impl<T> Add for SingleInfiniteNumber<T> where
    T: Copy + Add<Output = T> + PartialOrd + Unsigned + CheckedAdd,
 {
    type Output = Self;

    /// The sum of the two numbers.
    fn add(self, other: Self) -> (sum: Self)
        ensures
            sum == self.sum(other),
    {
        match (self, other) {
            (SingleInfiniteNumber::Finite(a), SingleInfiniteNumber::Finite(b)) => {
                match a.checked_add(b) {
                    Some(value) => SingleInfiniteNumber::Finite(value),
                    None => SingleInfiniteNumber::Infinity,
                }
            },
            (SingleInfiniteNumber::Infinity, _) | (_, SingleInfiniteNumber::Infinity) => {
                SingleInfiniteNumber::Infinity
            },
        }
    }
}

impl<T> AddSpecImpl for SingleInfiniteNumber<T> where
    T: Copy + Add<Output = T> + PartialOrd + Unsigned + CheckedAdd,
 {
    open spec fn obeys_add_spec() -> bool {
        true
    }

    open spec fn add_req(self, other: Self) -> bool {
        true
    }

    open spec fn add_spec(self, other: Self) -> Self {
        self.sum(other)
    }
}

impl<T> SingleInfiniteNumber<T> where T: Unsigned + Zero + CheckedSub {
    /// The difference, never below zero. Two finite values are subtracted by
    /// `T`, and a difference that does not fit is zero. Infinity minus anything
    /// is infinity, and a finite value minus infinity is zero.
    pub open spec fn difference(self, other: Self) -> Self {
        match (self, other) {
            (SingleInfiniteNumber::Finite(a), SingleInfiniteNumber::Finite(b)) => {
                match a.checked_sub_spec(b) {
                    Some(value) => SingleInfiniteNumber::Finite(value),
                    None => SingleInfiniteNumber::Finite(T::zero_spec()),
                }
            },
            (SingleInfiniteNumber::Infinity, _) => SingleInfiniteNumber::Infinity,
            _ => SingleInfiniteNumber::Finite(T::zero_spec()),
        }
    }
}

impl<T> Sub for SingleInfiniteNumber<T> where
    T: Copy + Sub<Output = T> + PartialOrd + Unsigned + CheckedSub + Zero,
 {
    type Output = Self;

    /// The difference of the two numbers.
    fn sub(self, other: Self) -> (difference: Self)
        ensures
            difference == self.difference(other),
    {
        match (self, other) {
            (SingleInfiniteNumber::Finite(a), SingleInfiniteNumber::Finite(b)) => {
                match a.checked_sub(b) {
                    Some(value) => SingleInfiniteNumber::Finite(value),
                    None => SingleInfiniteNumber::Finite(T::zero()),
                }
            },
            (SingleInfiniteNumber::Infinity, _) => SingleInfiniteNumber::Infinity,
            (_, SingleInfiniteNumber::Infinity) => SingleInfiniteNumber::Finite(T::zero()),
        }
    }
}

impl<T> SubSpecImpl for SingleInfiniteNumber<T> where
    T: Copy + Sub<Output = T> + PartialOrd + Unsigned + CheckedSub + Zero,
 {
    open spec fn obeys_sub_spec() -> bool {
        true
    }

    open spec fn sub_req(self, other: Self) -> bool {
        true
    }

    open spec fn sub_spec(self, other: Self) -> Self {
        self.difference(other)
    }
}

impl<T> SingleInfiniteNumber<T> where T: PartialOrd + Unsigned + Zero + CheckedMul {
    /// Whether the product of `self` and `other` is defined: on every pair but
    /// infinity and a finite value that counts as zero, in either order.
    pub open spec fn product_defined(self, other: Self) -> bool {
        match (self, other) {
            (SingleInfiniteNumber::Finite(_), SingleInfiniteNumber::Finite(_)) => true,
            (SingleInfiniteNumber::Finite(a), _) => !a.is_zero_spec(),
            (_, SingleInfiniteNumber::Finite(b)) => !b.is_zero_spec(),
            _ => true,
        }
    }

    /// The product. Two finite values are multiplied by `T`; a product that
    /// does not fit is infinity, and so is infinity times anything but zero.
    pub open spec fn product(self, other: Self) -> Self {
        match (self, other) {
            (SingleInfiniteNumber::Finite(a), SingleInfiniteNumber::Finite(b)) => {
                match a.checked_mul_spec(b) {
                    Some(value) => SingleInfiniteNumber::Finite(value),
                    None => SingleInfiniteNumber::Infinity,
                }
            },
            _ => SingleInfiniteNumber::Infinity,
        }
    }
}

impl<T> Mul for SingleInfiniteNumber<T> where
    T: Copy + Mul<Output = T> + PartialOrd + Unsigned + CheckedMul + Zero,
 {
    type Output = Self;

    /// The product of the two numbers.
    fn mul(self, other: Self) -> (product: Self)
        ensures
            product == self.product(other),
    {
        match (self, other) {
            (SingleInfiniteNumber::Finite(a), SingleInfiniteNumber::Finite(b)) => {
                match a.checked_mul(b) {
                    Some(value) => SingleInfiniteNumber::Finite(value),
                    None => SingleInfiniteNumber::Infinity,
                }
            },
            (SingleInfiniteNumber::Infinity, SingleInfiniteNumber::Finite(a))
            | (SingleInfiniteNumber::Finite(a), SingleInfiniteNumber::Infinity) => {
                if a.is_zero() {
                    // Ruled out by the precondition: only unverified code gets here.
                    let undefined: Option<Self> = None;
                    undefined.expect("indeterminate form: 0 * inf")
                } else {
                    SingleInfiniteNumber::Infinity
                }
            },
            (SingleInfiniteNumber::Infinity, SingleInfiniteNumber::Infinity) => {
                SingleInfiniteNumber::Infinity
            },
        }
    }
}

impl<T> MulSpecImpl for SingleInfiniteNumber<T> where
    T: Copy + Mul<Output = T> + PartialOrd + Unsigned + CheckedMul + Zero,
 {
    open spec fn obeys_mul_spec() -> bool {
        true
    }

    open spec fn mul_req(self, other: Self) -> bool {
        self.product_defined(other)
    }

    open spec fn mul_spec(self, other: Self) -> Self {
        self.product(other)
    }
}

impl<T> SingleInfiniteNumber<T> where T: PartialOrd + Unsigned + Zero + CheckedDiv {
    /// Whether the quotient of `self` by `other` is defined: on every pair
    /// whose divisor is a finite value that does not count as zero, or infinity
    /// under a finite dividend.
    pub open spec fn quotient_defined(self, other: Self) -> bool {
        match (self, other) {
            (_, SingleInfiniteNumber::Finite(b)) => !b.is_zero_spec(),
            (SingleInfiniteNumber::Finite(_), _) => true,
            _ => false,
        }
    }

    /// The quotient. Two finite values are divided by `T`, and a quotient that
    /// does not fit is infinity. Infinity over a finite value is infinity, and a
    /// finite value over infinity is zero.
    pub open spec fn quotient(self, other: Self) -> Self {
        match (self, other) {
            (SingleInfiniteNumber::Finite(a), SingleInfiniteNumber::Finite(b)) => {
                match a.checked_div_spec(b) {
                    Some(value) => SingleInfiniteNumber::Finite(value),
                    None => SingleInfiniteNumber::Infinity,
                }
            },
            (SingleInfiniteNumber::Infinity, _) => SingleInfiniteNumber::Infinity,
            _ => SingleInfiniteNumber::Finite(T::zero_spec()),
        }
    }
}

impl<T> Div for SingleInfiniteNumber<T> where
    T: Copy + Div<Output = T> + PartialOrd + Unsigned + CheckedDiv + Zero,
 {
    type Output = Self;

    /// The quotient of the two numbers.
    fn div(self, other: Self) -> (quotient: Self)
        ensures
            quotient == self.quotient(other),
    {
        match (self, other) {
            (_, SingleInfiniteNumber::Finite(b)) if b.is_zero() => {
                // Ruled out by the precondition: only unverified code gets here.
                let undefined: Option<Self> = None;
                undefined.expect("division by zero")
            },
            (SingleInfiniteNumber::Finite(a), SingleInfiniteNumber::Finite(b)) => {
                match a.checked_div(b) {
                    Some(value) => SingleInfiniteNumber::Finite(value),
                    None => SingleInfiniteNumber::Infinity,
                }
            },
            (SingleInfiniteNumber::Infinity, SingleInfiniteNumber::Finite(_)) => {
                SingleInfiniteNumber::Infinity
            },
            (SingleInfiniteNumber::Finite(_), SingleInfiniteNumber::Infinity) => {
                SingleInfiniteNumber::Finite(T::zero())
            },
            (SingleInfiniteNumber::Infinity, SingleInfiniteNumber::Infinity) => {
                // Ruled out by the precondition: only unverified code gets here.
                let undefined: Option<Self> = None;
                undefined.expect("indeterminate form: inf / inf")
            },
        }
    }
}

impl<T> DivSpecImpl for SingleInfiniteNumber<T> where
    T: Copy + Div<Output = T> + PartialOrd + Unsigned + CheckedDiv + Zero,
 {
    open spec fn obeys_div_spec() -> bool {
        true
    }

    open spec fn div_req(self, other: Self) -> bool {
        self.quotient_defined(other)
    }

    open spec fn div_spec(self, other: Self) -> Self {
        self.quotient(other)
    }
}

impl<T> SingleInfiniteNumber<T> where T: PartialEq + PartialOrd + Unsigned {
    /// The order of `self` and `other`, with no answer for infinity against
    /// itself: otherwise infinity is greatest, and finite values compare as `T`
    /// orders them.
    pub open spec fn indeterminate_cmp_spec(&self, other: &Self) -> Option<Ordering> {
        match (self, other) {
            (SingleInfiniteNumber::Finite(a), SingleInfiniteNumber::Finite(b)) => {
                a.partial_cmp_spec(b)
            },
            (SingleInfiniteNumber::Infinity, SingleInfiniteNumber::Infinity) => None,
            (SingleInfiniteNumber::Infinity, _) => Some(Ordering::Greater),
            (_, SingleInfiniteNumber::Infinity) => Some(Ordering::Less),
        }
    }

    /// Compares two numbers, and answers `None` for infinity against itself.
    pub fn indeterminate_cmp(&self, other: &Self) -> (order: Option<Ordering>)
        ensures
            T::obeys_partial_cmp_spec() ==> order == self.indeterminate_cmp_spec(other),
            !(self is Finite && other is Finite) ==> order == self.indeterminate_cmp_spec(other),
    {
        match (self, other) {
            (SingleInfiniteNumber::Finite(a), SingleInfiniteNumber::Finite(b)) => a.partial_cmp(b),
            (SingleInfiniteNumber::Infinity, SingleInfiniteNumber::Infinity) => None,
            (SingleInfiniteNumber::Infinity, _) => Some(Ordering::Greater),
            (_, SingleInfiniteNumber::Infinity) => Some(Ordering::Less),
        }
    }
}

} // verus!
