//! What holds of extended numbers over every numeric type.
//!
//! The laws speak of the specification functions that the operators and
//! comparisons are proved against. Where a law needs something of the wrapped
//! type, it asks for it of the values at hand and of nothing else.

use vstd::prelude::*;
use vstd::std_specs::cmp::{PartialEqIs, PartialOrdIs, PartialOrdSpec};

use crate::intfinity::{DoubleInfiniteNumber, SingleInfiniteNumber};
use crate::operations::is_positive;
use crate::traits::{CheckedAdd, CheckedDiv, CheckedMul, CheckedSub, Negate, Unsigned, Zero};

verus! {

/// Whether exactly one of the three holds.
pub open spec fn exactly_one(first: bool, second: bool, third: bool) -> bool {
    (first && !second && !third) || (!first && second && !third) || (!first && !second && third)
}

/// Promotion: where the sum of two finite values does not fit in `T`, the sum
/// of the extended numbers is positive infinity if the left value is greater
/// than zero, and negative infinity otherwise.
pub proof fn lemma_sum_promotion<T>(a: T, b: T) where
    T: PartialOrd + Zero + CheckedAdd,

    requires
        a.checked_add_spec(b) is None,
    ensures
        DoubleInfiniteNumber::Finite(a).sum_defined(DoubleInfiniteNumber::Finite(b)),
        DoubleInfiniteNumber::Finite(a).sum(DoubleInfiniteNumber::Finite(b)) == if is_positive(
            a,
        ) {
            DoubleInfiniteNumber::<T>::PosInfinity
        } else {
            DoubleInfiniteNumber::<T>::NegInfinity
        },
{
}

/// Absorption: an infinity plus a finite value, in either order, and an
/// infinity minus a finite value, is that infinity.
pub proof fn lemma_infinity_absorbs<T>(x: T) where
    T: PartialOrd + Zero + CheckedAdd + CheckedSub,

    ensures
        DoubleInfiniteNumber::PosInfinity.sum_defined(DoubleInfiniteNumber::Finite(x)),
        DoubleInfiniteNumber::PosInfinity.sum(DoubleInfiniteNumber::Finite(x))
            == DoubleInfiniteNumber::<T>::PosInfinity,
        DoubleInfiniteNumber::Finite(x).sum_defined(DoubleInfiniteNumber::PosInfinity),
        DoubleInfiniteNumber::Finite(x).sum(DoubleInfiniteNumber::PosInfinity)
            == DoubleInfiniteNumber::<T>::PosInfinity,
        DoubleInfiniteNumber::PosInfinity.difference_defined(DoubleInfiniteNumber::Finite(x)),
        DoubleInfiniteNumber::PosInfinity.difference(DoubleInfiniteNumber::Finite(x))
            == DoubleInfiniteNumber::<T>::PosInfinity,
        DoubleInfiniteNumber::NegInfinity.sum_defined(DoubleInfiniteNumber::Finite(x)),
        DoubleInfiniteNumber::NegInfinity.sum(DoubleInfiniteNumber::Finite(x))
            == DoubleInfiniteNumber::<T>::NegInfinity,
        DoubleInfiniteNumber::Finite(x).sum_defined(DoubleInfiniteNumber::NegInfinity),
        DoubleInfiniteNumber::Finite(x).sum(DoubleInfiniteNumber::NegInfinity)
            == DoubleInfiniteNumber::<T>::NegInfinity,
        DoubleInfiniteNumber::NegInfinity.difference_defined(DoubleInfiniteNumber::Finite(x)),
        DoubleInfiniteNumber::NegInfinity.difference(DoubleInfiniteNumber::Finite(x))
            == DoubleInfiniteNumber::<T>::NegInfinity,
{
}

/// Indeterminate forms: no operator accepts infinity plus the opposite
/// infinity, an infinity minus itself, zero times an infinity, or an infinity
/// over an infinity. `zero` is any value that counts as zero.
pub proof fn lemma_indeterminate_forms<T>(zero: T) where
    T: PartialOrd + Zero + CheckedAdd + CheckedSub + CheckedMul + CheckedDiv,

    requires
        zero.is_zero_spec(),
    ensures
        !DoubleInfiniteNumber::<T>::PosInfinity.sum_defined(DoubleInfiniteNumber::NegInfinity),
        !DoubleInfiniteNumber::<T>::NegInfinity.sum_defined(DoubleInfiniteNumber::PosInfinity),
        !DoubleInfiniteNumber::<T>::PosInfinity.difference_defined(DoubleInfiniteNumber::PosInfinity),
        !DoubleInfiniteNumber::<T>::NegInfinity.difference_defined(DoubleInfiniteNumber::NegInfinity),
        !DoubleInfiniteNumber::Finite(zero).product_defined(DoubleInfiniteNumber::PosInfinity),
        !DoubleInfiniteNumber::Finite(zero).product_defined(DoubleInfiniteNumber::NegInfinity),
        !DoubleInfiniteNumber::PosInfinity.product_defined(DoubleInfiniteNumber::Finite(zero)),
        !DoubleInfiniteNumber::NegInfinity.product_defined(DoubleInfiniteNumber::Finite(zero)),
        !DoubleInfiniteNumber::<T>::PosInfinity.quotient_defined(DoubleInfiniteNumber::PosInfinity),
        !DoubleInfiniteNumber::<T>::NegInfinity.quotient_defined(DoubleInfiniteNumber::NegInfinity),
        !DoubleInfiniteNumber::<T>::PosInfinity.quotient_defined(DoubleInfiniteNumber::NegInfinity),
        !DoubleInfiniteNumber::<T>::NegInfinity.quotient_defined(DoubleInfiniteNumber::PosInfinity),
{
}

/// The indeterminate forms of the numbers with one infinity: zero times
/// infinity, and infinity over infinity.
pub proof fn lemma_single_indeterminate_forms<T>(zero: T) where
    T: PartialOrd + Unsigned + Zero + CheckedMul + CheckedDiv,

    requires
        zero.is_zero_spec(),
    ensures
        !SingleInfiniteNumber::Finite(zero).product_defined(SingleInfiniteNumber::Infinity),
        !SingleInfiniteNumber::Infinity.product_defined(SingleInfiniteNumber::Finite(zero)),
        !SingleInfiniteNumber::<T>::Infinity.quotient_defined(SingleInfiniteNumber::Infinity),
{
}

/// Division by zero: division accepts no divisor that counts as zero, whether
/// the dividend is finite or an infinity.
pub proof fn lemma_division_by_zero<T>(dividend: DoubleInfiniteNumber<T>, zero: T) where
    T: PartialOrd + Zero + CheckedDiv,

    requires
        zero.is_zero_spec(),
    ensures
        !dividend.quotient_defined(DoubleInfiniteNumber::Finite(zero)),
{
}

/// Division by zero for the numbers with one infinity: no divisor that counts
/// as zero is accepted, whether the dividend is finite or infinity.
pub proof fn lemma_single_division_by_zero<T>(dividend: SingleInfiniteNumber<T>, zero: T) where
    T: PartialOrd + Unsigned + Zero + CheckedDiv,

    requires
        zero.is_zero_spec(),
    ensures
        !dividend.quotient_defined(SingleInfiniteNumber::Finite(zero)),
{
}

/// Negation is an involution: negating twice gives the number back, provided
/// that `T` gives a finite value back.
pub proof fn lemma_negate_involution<T>(x: DoubleInfiniteNumber<T>) where T: Copy + Negate
    requires
        x matches DoubleInfiniteNumber::Finite(value) ==> value.negate_spec().negate_spec()
            == value,
    ensures
        x.negate_spec().negate_spec() == x,
{
}

/// The order is total: of `a < b`, `a == b` and `a > b` exactly one holds,
/// provided that `T` orders two finite values so. Negative infinity is least
/// and positive infinity greatest, and every finite value lies strictly
/// between them.
pub proof fn lemma_order_total<T>(a: DoubleInfiniteNumber<T>, b: DoubleInfiniteNumber<T>) where
    T: PartialOrd,

    requires
        (a, b) matches (DoubleInfiniteNumber::Finite(x), DoubleInfiniteNumber::Finite(y))
            ==> exactly_one(x.is_lt(&y), x.is_eq(&y), x.is_gt(&y)),
    ensures
        exactly_one(a.is_lt(&b), a.is_eq(&b), a.is_gt(&b)),
        DoubleInfiniteNumber::NegInfinity.is_le(&a),
        a.is_le(&DoubleInfiniteNumber::PosInfinity),
        a is Finite ==> DoubleInfiniteNumber::NegInfinity.is_lt(&a) && a.is_lt(
            &DoubleInfiniteNumber::PosInfinity,
        ),
{
}

/// The order of the numbers with one infinity is total on the same condition.
/// Infinity is greatest, and strictly above every finite value.
pub proof fn lemma_single_order_total<T>(
    a: SingleInfiniteNumber<T>,
    b: SingleInfiniteNumber<T>,
) where T: PartialOrd + Unsigned
    requires
        (a, b) matches (SingleInfiniteNumber::Finite(x), SingleInfiniteNumber::Finite(y))
            ==> exactly_one(x.is_lt(&y), x.is_eq(&y), x.is_gt(&y)),
    ensures
        exactly_one(a.is_lt(&b), a.is_eq(&b), a.is_gt(&b)),
        a.is_le(&SingleInfiniteNumber::Infinity),
        a is Finite ==> a.is_lt(&SingleInfiniteNumber::Infinity),
{
}

/// The indeterminate comparison has no answer for an infinity against itself,
/// and on every other pair it answers as the total order does.
pub proof fn lemma_indeterminate_cmp<T>(a: DoubleInfiniteNumber<T>, b: DoubleInfiniteNumber<T>) where
    T: PartialOrd,

    ensures
        (a is PosInfinity && b is PosInfinity) || (a is NegInfinity && b is NegInfinity)
            ==> a.indeterminate_cmp_spec(&b) is None,
        !((a is PosInfinity && b is PosInfinity) || (a is NegInfinity && b is NegInfinity))
            ==> a.indeterminate_cmp_spec(&b) == a.partial_cmp_spec(&b),
{
}

/// The indeterminate comparison of the numbers with one infinity has no answer
/// for infinity against itself, and on every other pair it answers as the total
/// order does.
pub proof fn lemma_single_indeterminate_cmp<T>(
    a: SingleInfiniteNumber<T>,
    b: SingleInfiniteNumber<T>,
) where T: PartialOrd + Unsigned
    ensures
        (a is Infinity && b is Infinity) ==> a.indeterminate_cmp_spec(&b) is None,
        !(a is Infinity && b is Infinity) ==> a.indeterminate_cmp_spec(&b) == a.partial_cmp_spec(
            &b,
        ),
{
}

} // verus!
