//! What extended arithmetic means on the built-in integers.
//!
//! The operators are specified over the capabilities of the wrapped type.
//! [`SignedInteger`] and [`UnsignedInteger`] say what the capabilities of a
//! built-in integer type compute in terms of the integers, and the laws after
//! them say what that makes of the extended numbers: a finite result is the
//! exact result, and an infinity stands for a result beyond the bounds of the
//! type.

use core::ops::{Add, Div, Mul, Sub};
use vstd::prelude::*;
use vstd::std_specs::cmp::{PartialEqIs, PartialEqSpec, PartialOrdIs, PartialOrdSpec};
use vstd::std_specs::ops::{AddSpec, DivSpec, MulSpec, SubSpec};

use crate::intfinity::{DoubleInfiniteNumber, SingleInfiniteNumber};
use crate::laws::{
    exactly_one, lemma_negate_involution, lemma_order_total, lemma_single_order_total,
};
use crate::numeric_impls::{lemma_quotient_toward_zero_bounds, quotient_toward_zero};
use crate::traits::{CheckedAdd, CheckedDiv, CheckedMul, CheckedSub, Negate, Unsigned, Zero};

verus! {

/// Whether `value` lies between `least` and `greatest`.
pub open spec fn fits(value: int, least: int, greatest: int) -> bool {
    least <= value <= greatest
}

/// A built-in integer type, seen as the integers between its bounds.
pub trait BoundedInteger: Sized {
    /// The integer that `self` stands for.
    spec fn as_int(self) -> int;

    /// The least integer that the type holds.
    spec fn least() -> int;

    /// The greatest integer that the type holds.
    spec fn greatest() -> int;
}

/// A signed integer type whose capabilities compute what they compute on the
/// integers, as far as the bounds of the type allow.
pub trait SignedInteger: BoundedInteger + Copy + Add<Output = Self> + Sub<Output = Self> + Mul<
    Output = Self,
> + Div<Output = Self> + PartialOrd + Zero + Negate + CheckedAdd + CheckedSub + CheckedMul
    + CheckedDiv {
    /// Every value lies between the bounds, of which the least is one farther
    /// from zero than the greatest. Different values stand for different
    /// integers, and the values that count as zero are those that stand for 0.
    proof fn lemma_value(a: Self, b: Self)
        ensures
            fits(a.as_int(), Self::least(), Self::greatest()),
            Self::least() == -Self::greatest() - 1 < 0,
            a.as_int() == b.as_int() ==> a == b,
            Self::zero_spec().as_int() == 0,
            a.is_zero_spec() <==> a.as_int() == 0,
    ;

    /// Values are compared as the integers they stand for, and the comparison
    /// operators compute that.
    proof fn lemma_order(a: Self, b: Self)
        ensures
            Self::obeys_eq_spec(),
            Self::obeys_partial_cmp_spec(),
            a.is_lt(&b) <==> a.as_int() < b.as_int(),
            a.is_eq(&b) <==> a.as_int() == b.as_int(),
            a.is_gt(&b) <==> a.as_int() > b.as_int(),
    ;

    /// A value is mirrored at zero by negation, but for the least value, which
    /// stays. Negating twice gives every value back.
    proof fn lemma_negation(a: Self)
        ensures
            a.negate_spec().as_int() == (if a.as_int() == Self::least() {
                Self::least()
            } else {
                -a.as_int()
            }),
            a.negate_spec().negate_spec() == a,
    ;

    /// Checked addition gives the exact sum where it fits, and nothing where
    /// it does not.
    proof fn lemma_checked_add(a: Self, b: Self)
        ensures
            match a.checked_add_spec(b) {
                Some(sum) => sum.as_int() == a.as_int() + b.as_int(),
                None => !fits(a.as_int() + b.as_int(), Self::least(), Self::greatest()),
            },
    ;

    /// Checked subtraction gives the exact difference where it fits, and
    /// nothing where it does not.
    proof fn lemma_checked_sub(a: Self, b: Self)
        ensures
            match a.checked_sub_spec(b) {
                Some(difference) => difference.as_int() == a.as_int() - b.as_int(),
                None => !fits(a.as_int() - b.as_int(), Self::least(), Self::greatest()),
            },
    ;

    /// Checked multiplication gives the exact product where it fits, and
    /// nothing where it does not.
    proof fn lemma_checked_mul(a: Self, b: Self)
        ensures
            match a.checked_mul_spec(b) {
                Some(product) => product.as_int() == a.as_int() * b.as_int(),
                None => !fits(a.as_int() * b.as_int(), Self::least(), Self::greatest()),
            },
    ;

    /// Checked division by a divisor other than 0 gives the quotient rounded
    /// toward zero where it fits, and nothing where it does not.
    proof fn lemma_checked_div(a: Self, b: Self)
        requires
            b.as_int() != 0,
        ensures
            match a.checked_div_spec(b) {
                Some(quotient) => quotient.as_int() == quotient_toward_zero(
                    a.as_int(),
                    b.as_int(),
                ),
                None => !fits(
                    quotient_toward_zero(a.as_int(), b.as_int()),
                    Self::least(),
                    Self::greatest(),
                ),
            },
    ;
}

/// An unsigned integer type whose capabilities compute what they compute on
/// the integers, as far as the bounds of the type allow.
pub trait UnsignedInteger: BoundedInteger + Copy + Add<Output = Self> + Sub<Output = Self> + Mul<
    Output = Self,
> + Div<Output = Self> + PartialOrd + Unsigned + Zero + CheckedAdd + CheckedSub + CheckedMul
    + CheckedDiv {
    /// Every value lies between 0 and the greatest value. Different values
    /// stand for different integers, and the values that count as zero are
    /// those that stand for 0.
    proof fn lemma_value(a: Self, b: Self)
        ensures
            Self::least() == 0,
            fits(a.as_int(), Self::least(), Self::greatest()),
            a.as_int() == b.as_int() ==> a == b,
            Self::zero_spec().as_int() == 0,
            a.is_zero_spec() <==> a.as_int() == 0,
    ;

    /// Values are compared as the integers they stand for, and the comparison
    /// operators compute that.
    proof fn lemma_order(a: Self, b: Self)
        ensures
            Self::obeys_eq_spec(),
            Self::obeys_partial_cmp_spec(),
            a.is_lt(&b) <==> a.as_int() < b.as_int(),
            a.is_eq(&b) <==> a.as_int() == b.as_int(),
            a.is_gt(&b) <==> a.as_int() > b.as_int(),
    ;

    /// Checked addition gives the exact sum where it fits, and nothing where
    /// it does not.
    proof fn lemma_checked_add(a: Self, b: Self)
        ensures
            match a.checked_add_spec(b) {
                Some(sum) => sum.as_int() == a.as_int() + b.as_int(),
                None => !fits(a.as_int() + b.as_int(), Self::least(), Self::greatest()),
            },
    ;

    /// Checked subtraction gives the exact difference where it fits, and
    /// nothing where it does not.
    proof fn lemma_checked_sub(a: Self, b: Self)
        ensures
            match a.checked_sub_spec(b) {
                Some(difference) => difference.as_int() == a.as_int() - b.as_int(),
                None => !fits(a.as_int() - b.as_int(), Self::least(), Self::greatest()),
            },
    ;

    /// Checked multiplication gives the exact product where it fits, and
    /// nothing where it does not.
    proof fn lemma_checked_mul(a: Self, b: Self)
        ensures
            match a.checked_mul_spec(b) {
                Some(product) => product.as_int() == a.as_int() * b.as_int(),
                None => !fits(a.as_int() * b.as_int(), Self::least(), Self::greatest()),
            },
    ;

    /// Checked division by a divisor other than 0 gives the quotient rounded
    /// down, which always fits.
    proof fn lemma_checked_div(a: Self, b: Self)
        requires
            b.as_int() != 0,
        ensures
            match a.checked_div_spec(b) {
                Some(quotient) => quotient.as_int() == a.as_int() / b.as_int(),
                None => false,
            },
    ;
}

/// The sum of two finite numbers is the exact sum where it fits. Where it does
/// not, it is positive infinity if `a` is greater than 0 and negative infinity
/// otherwise, and that is the side on which the exact sum lies: positive
/// infinity beyond the greatest value, negative infinity below the least.
pub proof fn lemma_signed_sum<T: SignedInteger>(a: T, b: T)
    ensures
        DoubleInfiniteNumber::<T>::obeys_add_spec(),
        DoubleInfiniteNumber::Finite(a).sum_defined(DoubleInfiniteNumber::Finite(b)),
        fits(a.as_int() + b.as_int(), T::least(), T::greatest()) ==> (DoubleInfiniteNumber::Finite(
            a,
        ).sum(DoubleInfiniteNumber::Finite(b)) matches DoubleInfiniteNumber::Finite(sum)
            && sum.as_int() == a.as_int() + b.as_int()),
        !fits(a.as_int() + b.as_int(), T::least(), T::greatest()) ==> DoubleInfiniteNumber::Finite(
            a,
        ).sum(DoubleInfiniteNumber::Finite(b)) == (if a.as_int() > 0 {
            DoubleInfiniteNumber::<T>::PosInfinity
        } else {
            DoubleInfiniteNumber::<T>::NegInfinity
        }),
        a.as_int() + b.as_int() > T::greatest() ==> DoubleInfiniteNumber::Finite(a).sum(
            DoubleInfiniteNumber::Finite(b),
        ) is PosInfinity,
        a.as_int() + b.as_int() < T::least() ==> DoubleInfiniteNumber::Finite(a).sum(
            DoubleInfiniteNumber::Finite(b),
        ) is NegInfinity,
{
    T::lemma_checked_add(a, b);
    if let Some(sum) = a.checked_add_spec(b) {
        T::lemma_value(sum, a);
    }
    T::lemma_order(a, T::zero_spec());
    T::lemma_value(a, b);
    T::lemma_value(b, a);
}

/// The difference of two finite numbers is the exact difference where it fits.
/// Where it does not, it is positive infinity if `a` is greater than 0 and
/// negative infinity otherwise. That is the side on which the exact difference
/// lies unless `a` is 0: zero minus the least value is negative infinity, though
/// the exact difference lies beyond the greatest value.
pub proof fn lemma_signed_difference<T: SignedInteger>(a: T, b: T)
    ensures
        DoubleInfiniteNumber::<T>::obeys_sub_spec(),
        DoubleInfiniteNumber::Finite(a).difference_defined(DoubleInfiniteNumber::Finite(b)),
        fits(a.as_int() - b.as_int(), T::least(), T::greatest()) ==> (DoubleInfiniteNumber::Finite(
            a,
        ).difference(DoubleInfiniteNumber::Finite(b)) matches DoubleInfiniteNumber::Finite(
            difference,
        ) && difference.as_int() == a.as_int() - b.as_int()),
        !fits(a.as_int() - b.as_int(), T::least(), T::greatest()) ==> DoubleInfiniteNumber::Finite(
            a,
        ).difference(DoubleInfiniteNumber::Finite(b)) == (if a.as_int() > 0 {
            DoubleInfiniteNumber::<T>::PosInfinity
        } else {
            DoubleInfiniteNumber::<T>::NegInfinity
        }),
        a.as_int() - b.as_int() > T::greatest() && a.as_int() != 0
            ==> DoubleInfiniteNumber::Finite(a).difference(DoubleInfiniteNumber::Finite(b))
            is PosInfinity,
        a.as_int() - b.as_int() < T::least() ==> DoubleInfiniteNumber::Finite(a).difference(
            DoubleInfiniteNumber::Finite(b),
        ) is NegInfinity,
        a.as_int() == 0 && b.as_int() == T::least() ==> DoubleInfiniteNumber::Finite(
            a,
        ).difference(DoubleInfiniteNumber::Finite(b)) is NegInfinity,
{
    T::lemma_checked_sub(a, b);
    if let Some(difference) = a.checked_sub_spec(b) {
        T::lemma_value(difference, a);
    }
    T::lemma_order(a, T::zero_spec());
    T::lemma_value(a, b);
    T::lemma_value(b, a);
}

/// The product of two finite numbers is the exact product where it fits.
/// Beyond the greatest value it is positive infinity, below the least value
/// negative infinity.
pub proof fn lemma_signed_product<T: SignedInteger>(a: T, b: T)
    ensures
        DoubleInfiniteNumber::<T>::obeys_mul_spec(),
        DoubleInfiniteNumber::Finite(a).product_defined(DoubleInfiniteNumber::Finite(b)),
        fits(a.as_int() * b.as_int(), T::least(), T::greatest()) ==> (DoubleInfiniteNumber::Finite(
            a,
        ).product(DoubleInfiniteNumber::Finite(b)) matches DoubleInfiniteNumber::Finite(product)
            && product.as_int() == a.as_int() * b.as_int()),
        a.as_int() * b.as_int() > T::greatest() ==> DoubleInfiniteNumber::Finite(a).product(
            DoubleInfiniteNumber::Finite(b),
        ) is PosInfinity,
        a.as_int() * b.as_int() < T::least() ==> DoubleInfiniteNumber::Finite(a).product(
            DoubleInfiniteNumber::Finite(b),
        ) is NegInfinity,
{
    T::lemma_checked_mul(a, b);
    if let Some(product) = a.checked_mul_spec(b) {
        T::lemma_value(product, a);
    }
    T::lemma_order(a, T::zero_spec());
    T::lemma_order(b, T::zero_spec());
    T::lemma_value(a, b);
    let x = a.as_int();
    let y = b.as_int();
    assert(x * y > 0 <==> (x > 0 && y > 0) || (x < 0 && y < 0)) by (nonlinear_arith);
}

/// The quotient of two finite numbers, the divisor not 0, is the exact quotient
/// rounded toward zero. Only the least value over -1 does not fit: it is
/// positive infinity.
pub proof fn lemma_signed_quotient<T: SignedInteger>(a: T, b: T)
    requires
        b.as_int() != 0,
    ensures
        DoubleInfiniteNumber::<T>::obeys_div_spec(),
        DoubleInfiniteNumber::Finite(a).quotient_defined(DoubleInfiniteNumber::Finite(b)),
        a.as_int() == T::least() && b.as_int() == -1 ==> DoubleInfiniteNumber::Finite(a).quotient(
            DoubleInfiniteNumber::Finite(b),
        ) is PosInfinity,
        !(a.as_int() == T::least() && b.as_int() == -1) ==> (DoubleInfiniteNumber::Finite(
            a,
        ).quotient(DoubleInfiniteNumber::Finite(b)) matches DoubleInfiniteNumber::Finite(quotient)
            && quotient.as_int() == quotient_toward_zero(a.as_int(), b.as_int())),
{
    T::lemma_checked_div(a, b);
    if let Some(quotient) = a.checked_div_spec(b) {
        T::lemma_value(quotient, a);
    }
    T::lemma_order(a, T::zero_spec());
    T::lemma_order(b, T::zero_spec());
    T::lemma_value(a, b);
    T::lemma_value(b, a);
    lemma_quotient_toward_zero_bounds(a.as_int(), b.as_int());
}

/// Negating a signed integer extended with both infinities twice gives the
/// number back, whether it is finite or an infinity.
pub proof fn lemma_signed_negate_involution<T: SignedInteger>(x: DoubleInfiniteNumber<T>)
    ensures
        x.negate_spec().negate_spec() == x,
{
    if let DoubleInfiniteNumber::Finite(value) = x {
        T::lemma_negation(value);
    }
    lemma_negate_involution(x);
}

/// The order of the signed integers extended with both infinities is total: of
/// `a < b`, `a == b` and `a > b` exactly one holds, and the comparison operators
/// compute which. Equal numbers are the same number, negative infinity is least
/// and positive infinity greatest.
pub proof fn lemma_signed_order_total<T: SignedInteger>(
    a: DoubleInfiniteNumber<T>,
    b: DoubleInfiniteNumber<T>,
)
    ensures
        DoubleInfiniteNumber::<T>::obeys_eq_spec(),
        DoubleInfiniteNumber::<T>::obeys_partial_cmp_spec(),
        exactly_one(a.is_lt(&b), a.is_eq(&b), a.is_gt(&b)),
        a.is_eq(&b) <==> a == b,
        DoubleInfiniteNumber::NegInfinity.is_le(&a),
        a.is_le(&DoubleInfiniteNumber::PosInfinity),
{
    if let (DoubleInfiniteNumber::Finite(x), DoubleInfiniteNumber::Finite(y)) = (a, b) {
        T::lemma_order(x, y);
        T::lemma_value(x, y);
    } else {
        T::lemma_order(T::zero_spec(), T::zero_spec());
    }
    lemma_order_total(a, b);
}

/// The sum of two finite numbers is the exact sum where it fits, and infinity
/// beyond the greatest value.
pub proof fn lemma_unsigned_sum<T: UnsignedInteger>(a: T, b: T)
    ensures
        SingleInfiniteNumber::<T>::obeys_add_spec(),
        a.as_int() + b.as_int() <= T::greatest() ==> (SingleInfiniteNumber::Finite(a).sum(
            SingleInfiniteNumber::Finite(b),
        ) matches SingleInfiniteNumber::Finite(sum) && sum.as_int() == a.as_int() + b.as_int()),
        a.as_int() + b.as_int() > T::greatest() ==> SingleInfiniteNumber::Finite(a).sum(
            SingleInfiniteNumber::Finite(b),
        ) is Infinity,
{
    T::lemma_checked_add(a, b);
    if let Some(sum) = a.checked_add_spec(b) {
        T::lemma_value(sum, a);
    }
    T::lemma_value(a, b);
    T::lemma_value(b, a);
}

/// The difference of two finite numbers is finite: the exact difference, or 0
/// where that would be negative.
pub proof fn lemma_unsigned_difference<T: UnsignedInteger>(a: T, b: T)
    ensures
        SingleInfiniteNumber::<T>::obeys_sub_spec(),
        SingleInfiniteNumber::Finite(a).difference(SingleInfiniteNumber::Finite(b))
            matches SingleInfiniteNumber::Finite(difference) && difference.as_int() == (
        if a.as_int() >= b.as_int() {
            a.as_int() - b.as_int()
        } else {
            0
        }),
{
    T::lemma_checked_sub(a, b);
    if let Some(difference) = a.checked_sub_spec(b) {
        T::lemma_value(difference, a);
    }
    T::lemma_value(a, b);
    T::lemma_value(b, a);
}

/// The product of two finite numbers is the exact product where it fits, and
/// infinity beyond the greatest value.
pub proof fn lemma_unsigned_product<T: UnsignedInteger>(a: T, b: T)
    ensures
        SingleInfiniteNumber::<T>::obeys_mul_spec(),
        SingleInfiniteNumber::Finite(a).product_defined(SingleInfiniteNumber::Finite(b)),
        a.as_int() * b.as_int() <= T::greatest() ==> (SingleInfiniteNumber::Finite(a).product(
            SingleInfiniteNumber::Finite(b),
        ) matches SingleInfiniteNumber::Finite(product) && product.as_int() == a.as_int()
            * b.as_int()),
        a.as_int() * b.as_int() > T::greatest() ==> SingleInfiniteNumber::Finite(a).product(
            SingleInfiniteNumber::Finite(b),
        ) is Infinity,
{
    T::lemma_checked_mul(a, b);
    if let Some(product) = a.checked_mul_spec(b) {
        T::lemma_value(product, a);
    }
    T::lemma_value(a, b);
    T::lemma_value(b, a);
    let x = a.as_int();
    let y = b.as_int();
    assert(x >= 0 && y >= 0 ==> x * y >= 0) by (nonlinear_arith);
}

/// The quotient of two finite numbers, the divisor not 0, is finite: the exact
/// quotient rounded down.
pub proof fn lemma_unsigned_quotient<T: UnsignedInteger>(a: T, b: T)
    requires
        b.as_int() != 0,
    ensures
        SingleInfiniteNumber::<T>::obeys_div_spec(),
        SingleInfiniteNumber::Finite(a).quotient_defined(SingleInfiniteNumber::Finite(b)),
        SingleInfiniteNumber::Finite(a).quotient(SingleInfiniteNumber::Finite(b))
            matches SingleInfiniteNumber::Finite(quotient) && quotient.as_int() == a.as_int()
            / b.as_int(),
{
    T::lemma_checked_div(a, b);
    if let Some(quotient) = a.checked_div_spec(b) {
        T::lemma_value(quotient, a);
    }
    T::lemma_value(b, a);
}

/// The order of the unsigned integers extended with infinity is total: of
/// `a < b`, `a == b` and `a > b` exactly one holds, and the comparison operators
/// compute which. Equal numbers are the same number, and infinity is greatest.
pub proof fn lemma_unsigned_order_total<T: UnsignedInteger>(
    a: SingleInfiniteNumber<T>,
    b: SingleInfiniteNumber<T>,
)
    ensures
        SingleInfiniteNumber::<T>::obeys_eq_spec(),
        SingleInfiniteNumber::<T>::obeys_partial_cmp_spec(),
        exactly_one(a.is_lt(&b), a.is_eq(&b), a.is_gt(&b)),
        a.is_eq(&b) <==> a == b,
        a.is_le(&SingleInfiniteNumber::Infinity),
{
    if let (SingleInfiniteNumber::Finite(x), SingleInfiniteNumber::Finite(y)) = (a, b) {
        T::lemma_order(x, y);
        T::lemma_value(x, y);
    } else {
        T::lemma_order(T::zero_spec(), T::zero_spec());
    }
    lemma_single_order_total(a, b);
}

impl BoundedInteger for i8 {
    open spec fn as_int(self) -> int {
        self as int
    }

    open spec fn least() -> int {
        i8::MIN as int
    }

    open spec fn greatest() -> int {
        i8::MAX as int
    }
}

impl SignedInteger for i8 {
    proof fn lemma_value(a: i8, b: i8) {
    }

    proof fn lemma_order(a: i8, b: i8) {
    }

    proof fn lemma_negation(a: i8) {
    }

    proof fn lemma_checked_add(a: i8, b: i8) {
    }

    proof fn lemma_checked_sub(a: i8, b: i8) {
    }

    proof fn lemma_checked_mul(a: i8, b: i8) {
    }

    proof fn lemma_checked_div(a: i8, b: i8) {
        lemma_quotient_toward_zero_bounds(a as int, b as int);
    }
}

impl BoundedInteger for i16 {
    open spec fn as_int(self) -> int {
        self as int
    }

    open spec fn least() -> int {
        i16::MIN as int
    }

    open spec fn greatest() -> int {
        i16::MAX as int
    }
}

impl SignedInteger for i16 {
    proof fn lemma_value(a: i16, b: i16) {
    }

    proof fn lemma_order(a: i16, b: i16) {
    }

    proof fn lemma_negation(a: i16) {
    }

    proof fn lemma_checked_add(a: i16, b: i16) {
    }

    proof fn lemma_checked_sub(a: i16, b: i16) {
    }

    proof fn lemma_checked_mul(a: i16, b: i16) {
    }

    proof fn lemma_checked_div(a: i16, b: i16) {
        lemma_quotient_toward_zero_bounds(a as int, b as int);
    }
}

impl BoundedInteger for i32 {
    open spec fn as_int(self) -> int {
        self as int
    }

    open spec fn least() -> int {
        i32::MIN as int
    }

    open spec fn greatest() -> int {
        i32::MAX as int
    }
}

impl SignedInteger for i32 {
    proof fn lemma_value(a: i32, b: i32) {
    }

    proof fn lemma_order(a: i32, b: i32) {
    }

    proof fn lemma_negation(a: i32) {
    }

    proof fn lemma_checked_add(a: i32, b: i32) {
    }

    proof fn lemma_checked_sub(a: i32, b: i32) {
    }

    proof fn lemma_checked_mul(a: i32, b: i32) {
    }

    proof fn lemma_checked_div(a: i32, b: i32) {
        lemma_quotient_toward_zero_bounds(a as int, b as int);
    }
}

impl BoundedInteger for i64 {
    open spec fn as_int(self) -> int {
        self as int
    }

    open spec fn least() -> int {
        i64::MIN as int
    }

    open spec fn greatest() -> int {
        i64::MAX as int
    }
}

impl SignedInteger for i64 {
    proof fn lemma_value(a: i64, b: i64) {
    }

    proof fn lemma_order(a: i64, b: i64) {
    }

    proof fn lemma_negation(a: i64) {
    }

    proof fn lemma_checked_add(a: i64, b: i64) {
    }

    proof fn lemma_checked_sub(a: i64, b: i64) {
    }

    proof fn lemma_checked_mul(a: i64, b: i64) {
    }

    proof fn lemma_checked_div(a: i64, b: i64) {
        lemma_quotient_toward_zero_bounds(a as int, b as int);
    }
}

impl BoundedInteger for i128 {
    open spec fn as_int(self) -> int {
        self as int
    }

    open spec fn least() -> int {
        i128::MIN as int
    }

    open spec fn greatest() -> int {
        i128::MAX as int
    }
}

impl SignedInteger for i128 {
    proof fn lemma_value(a: i128, b: i128) {
    }

    proof fn lemma_order(a: i128, b: i128) {
    }

    proof fn lemma_negation(a: i128) {
    }

    proof fn lemma_checked_add(a: i128, b: i128) {
    }

    proof fn lemma_checked_sub(a: i128, b: i128) {
    }

    proof fn lemma_checked_mul(a: i128, b: i128) {
    }

    proof fn lemma_checked_div(a: i128, b: i128) {
        lemma_quotient_toward_zero_bounds(a as int, b as int);
    }
}

impl BoundedInteger for u8 {
    open spec fn as_int(self) -> int {
        self as int
    }

    open spec fn least() -> int {
        u8::MIN as int
    }

    open spec fn greatest() -> int {
        u8::MAX as int
    }
}

impl UnsignedInteger for u8 {
    proof fn lemma_value(a: u8, b: u8) {
    }

    proof fn lemma_order(a: u8, b: u8) {
    }

    proof fn lemma_checked_add(a: u8, b: u8) {
    }

    proof fn lemma_checked_sub(a: u8, b: u8) {
    }

    proof fn lemma_checked_mul(a: u8, b: u8) {
    }

    proof fn lemma_checked_div(a: u8, b: u8) {
    }
}

impl BoundedInteger for u16 {
    open spec fn as_int(self) -> int {
        self as int
    }

    open spec fn least() -> int {
        u16::MIN as int
    }

    open spec fn greatest() -> int {
        u16::MAX as int
    }
}

impl UnsignedInteger for u16 {
    proof fn lemma_value(a: u16, b: u16) {
    }

    proof fn lemma_order(a: u16, b: u16) {
    }

    proof fn lemma_checked_add(a: u16, b: u16) {
    }

    proof fn lemma_checked_sub(a: u16, b: u16) {
    }

    proof fn lemma_checked_mul(a: u16, b: u16) {
    }

    proof fn lemma_checked_div(a: u16, b: u16) {
    }
}

impl BoundedInteger for u32 {
    open spec fn as_int(self) -> int {
        self as int
    }

    open spec fn least() -> int {
        u32::MIN as int
    }

    open spec fn greatest() -> int {
        u32::MAX as int
    }
}

impl UnsignedInteger for u32 {
    proof fn lemma_value(a: u32, b: u32) {
    }

    proof fn lemma_order(a: u32, b: u32) {
    }

    proof fn lemma_checked_add(a: u32, b: u32) {
    }

    proof fn lemma_checked_sub(a: u32, b: u32) {
    }

    proof fn lemma_checked_mul(a: u32, b: u32) {
    }

    proof fn lemma_checked_div(a: u32, b: u32) {
    }
}

impl BoundedInteger for u64 {
    open spec fn as_int(self) -> int {
        self as int
    }

    open spec fn least() -> int {
        u64::MIN as int
    }

    open spec fn greatest() -> int {
        u64::MAX as int
    }
}

impl UnsignedInteger for u64 {
    proof fn lemma_value(a: u64, b: u64) {
    }

    proof fn lemma_order(a: u64, b: u64) {
    }

    proof fn lemma_checked_add(a: u64, b: u64) {
    }

    proof fn lemma_checked_sub(a: u64, b: u64) {
    }

    proof fn lemma_checked_mul(a: u64, b: u64) {
    }

    proof fn lemma_checked_div(a: u64, b: u64) {
    }
}

impl BoundedInteger for u128 {
    open spec fn as_int(self) -> int {
        self as int
    }

    open spec fn least() -> int {
        u128::MIN as int
    }

    open spec fn greatest() -> int {
        u128::MAX as int
    }
}

impl UnsignedInteger for u128 {
    proof fn lemma_value(a: u128, b: u128) {
    }

    proof fn lemma_order(a: u128, b: u128) {
    }

    proof fn lemma_checked_add(a: u128, b: u128) {
    }

    proof fn lemma_checked_sub(a: u128, b: u128) {
    }

    proof fn lemma_checked_mul(a: u128, b: u128) {
    }

    proof fn lemma_checked_div(a: u128, b: u128) {
    }
}

} // verus!
