//! The capabilities of the built-in integer types, and the conversions
//! between an integer and its extended number.
//!
//! The signed types extend to [`DoubleInfiniteNumber`], the unsigned types to
//! [`SingleInfiniteNumber`]. Converting an extended number back to its integer
//! loses the infinities: they become the greatest and the least value of the
//! type.

use vstd::arithmetic::div_mod::{lemma_div_is_ordered_by_denominator, lemma_div_pos_is_pos};
use vstd::prelude::*;
use vstd::std_specs::convert::FromSpecImpl;

use crate::intfinity::{DoubleInfiniteNumber, SingleInfiniteNumber};
use crate::traits::{CheckedAdd, CheckedDiv, CheckedMul, CheckedSub, Negate, Unsigned, Zero};

verus! {

/// The distance of `value` from zero.
pub open spec fn magnitude(value: int) -> int {
    if value < 0 {
        -value
    } else {
        value
    }
}

/// The quotient of `dividend` by `divisor` rounded toward zero, as the
/// processor divides signed integers.
pub open spec fn quotient_toward_zero(dividend: int, divisor: int) -> int
    recommends
        divisor != 0,
{
    let quotient = magnitude(dividend) / magnitude(divisor);
    if (dividend < 0) == (divisor < 0) {
        quotient
    } else {
        -quotient
    }
}

/// A quotient rounded toward zero is no farther from zero than the dividend,
/// and at most half as far where the divisor is neither 1 nor -1.
pub proof fn lemma_quotient_toward_zero_bounds(dividend: int, divisor: int)
    requires
        divisor != 0,
    ensures
        magnitude(quotient_toward_zero(dividend, divisor)) <= magnitude(dividend),
        magnitude(divisor) >= 2 ==> magnitude(quotient_toward_zero(dividend, divisor))
            <= magnitude(dividend) / 2,
        dividend == 0 ==> quotient_toward_zero(dividend, divisor) == 0,
{
    let n = magnitude(dividend);
    let d = magnitude(divisor);
    lemma_div_pos_is_pos(n, d);
    lemma_div_is_ordered_by_denominator(n, 1, d);
    if d >= 2 {
        lemma_div_is_ordered_by_denominator(n, 2, d);
    }
}

impl Zero for i8 {
    open spec fn zero_spec() -> i8 {
        0
    }

    open spec fn is_zero_spec(&self) -> bool {
        *self == 0
    }

    fn zero() -> i8 {
        0
    }

    fn is_zero(&self) -> bool {
        *self == 0
    }
}

impl Negate for i8 {
    /// The negative of `self`. The least value has no negative in `i8` and is
    /// left as it is.
    open spec fn negate_spec(self) -> i8 {
        if self == i8::MIN {
            i8::MIN
        } else {
            (-self) as i8
        }
    }

    fn negate(self) -> i8 {
        if self == i8::MIN {
            i8::MIN
        } else {
            -self
        }
    }
}

impl CheckedAdd for i8 {
    open spec fn checked_add_spec(self, other: i8) -> Option<i8> {
        if i8::MIN <= self + other <= i8::MAX {
            Some((self + other) as i8)
        } else {
            None
        }
    }

    fn checked_add(self, other: i8) -> Option<i8> {
        i8::checked_add(self, other)
    }
}

impl CheckedSub for i8 {
    open spec fn checked_sub_spec(self, other: i8) -> Option<i8> {
        if i8::MIN <= self - other <= i8::MAX {
            Some((self - other) as i8)
        } else {
            None
        }
    }

    fn checked_sub(self, other: i8) -> Option<i8> {
        i8::checked_sub(self, other)
    }
}

impl CheckedMul for i8 {
    open spec fn checked_mul_spec(self, other: i8) -> Option<i8> {
        if i8::MIN <= self * other <= i8::MAX {
            Some((self * other) as i8)
        } else {
            None
        }
    }

    fn checked_mul(self, other: i8) -> Option<i8> {
        i8::checked_mul(self, other)
    }
}

impl CheckedDiv for i8 {
    /// The quotient rounded toward zero. Only the least value over -1 does not
    /// fit.
    open spec fn checked_div_spec(self, other: i8) -> Option<i8> {
        if other == 0 || (self == i8::MIN && other == -1) {
            None
        } else {
            Some(quotient_toward_zero(self as int, other as int) as i8)
        }
    }

    fn checked_div(self, other: i8) -> Option<i8> {
        proof {
            if other != 0 {
                lemma_quotient_toward_zero_bounds(self as int, other as int);
            }
        }
        i8::checked_div(self, other)
    }
}

impl From<i8> for DoubleInfiniteNumber<i8> {
    fn from(value: i8) -> (number: Self) {
        DoubleInfiniteNumber::Finite(value)
    }
}

impl FromSpecImpl<i8> for DoubleInfiniteNumber<i8> {
    open spec fn obeys_from_spec() -> bool {
        true
    }

    open spec fn from_spec(value: i8) -> Self {
        DoubleInfiniteNumber::Finite(value)
    }
}

impl From<DoubleInfiniteNumber<i8>> for i8 {
    fn from(number: DoubleInfiniteNumber<i8>) -> (value: i8) {
        match number {
            DoubleInfiniteNumber::Finite(value) => value,
            DoubleInfiniteNumber::PosInfinity => i8::MAX,
            DoubleInfiniteNumber::NegInfinity => i8::MIN,
        }
    }
}

impl FromSpecImpl<DoubleInfiniteNumber<i8>> for i8 {
    open spec fn obeys_from_spec() -> bool {
        true
    }

    /// The finite value, or the bound of `i8` on the side of the infinity.
    open spec fn from_spec(number: DoubleInfiniteNumber<i8>) -> i8 {
        match number {
            DoubleInfiniteNumber::Finite(value) => value,
            DoubleInfiniteNumber::PosInfinity => i8::MAX,
            DoubleInfiniteNumber::NegInfinity => i8::MIN,
        }
    }
}

impl Zero for i16 {
    open spec fn zero_spec() -> i16 {
        0
    }

    open spec fn is_zero_spec(&self) -> bool {
        *self == 0
    }

    fn zero() -> i16 {
        0
    }

    fn is_zero(&self) -> bool {
        *self == 0
    }
}

impl Negate for i16 {
    /// The negative of `self`. The least value has no negative in `i16` and is
    /// left as it is.
    open spec fn negate_spec(self) -> i16 {
        if self == i16::MIN {
            i16::MIN
        } else {
            (-self) as i16
        }
    }

    fn negate(self) -> i16 {
        if self == i16::MIN {
            i16::MIN
        } else {
            -self
        }
    }
}

impl CheckedAdd for i16 {
    open spec fn checked_add_spec(self, other: i16) -> Option<i16> {
        if i16::MIN <= self + other <= i16::MAX {
            Some((self + other) as i16)
        } else {
            None
        }
    }

    fn checked_add(self, other: i16) -> Option<i16> {
        i16::checked_add(self, other)
    }
}

impl CheckedSub for i16 {
    open spec fn checked_sub_spec(self, other: i16) -> Option<i16> {
        if i16::MIN <= self - other <= i16::MAX {
            Some((self - other) as i16)
        } else {
            None
        }
    }

    fn checked_sub(self, other: i16) -> Option<i16> {
        i16::checked_sub(self, other)
    }
}

impl CheckedMul for i16 {
    open spec fn checked_mul_spec(self, other: i16) -> Option<i16> {
        if i16::MIN <= self * other <= i16::MAX {
            Some((self * other) as i16)
        } else {
            None
        }
    }

    fn checked_mul(self, other: i16) -> Option<i16> {
        i16::checked_mul(self, other)
    }
}

impl CheckedDiv for i16 {
    /// The quotient rounded toward zero. Only the least value over -1 does not
    /// fit.
    open spec fn checked_div_spec(self, other: i16) -> Option<i16> {
        if other == 0 || (self == i16::MIN && other == -1) {
            None
        } else {
            Some(quotient_toward_zero(self as int, other as int) as i16)
        }
    }

    fn checked_div(self, other: i16) -> Option<i16> {
        proof {
            if other != 0 {
                lemma_quotient_toward_zero_bounds(self as int, other as int);
            }
        }
        i16::checked_div(self, other)
    }
}

impl From<i16> for DoubleInfiniteNumber<i16> {
    fn from(value: i16) -> (number: Self) {
        DoubleInfiniteNumber::Finite(value)
    }
}

impl FromSpecImpl<i16> for DoubleInfiniteNumber<i16> {
    open spec fn obeys_from_spec() -> bool {
        true
    }

    open spec fn from_spec(value: i16) -> Self {
        DoubleInfiniteNumber::Finite(value)
    }
}

impl From<DoubleInfiniteNumber<i16>> for i16 {
    fn from(number: DoubleInfiniteNumber<i16>) -> (value: i16) {
        match number {
            DoubleInfiniteNumber::Finite(value) => value,
            DoubleInfiniteNumber::PosInfinity => i16::MAX,
            DoubleInfiniteNumber::NegInfinity => i16::MIN,
        }
    }
}

impl FromSpecImpl<DoubleInfiniteNumber<i16>> for i16 {
    open spec fn obeys_from_spec() -> bool {
        true
    }

    /// The finite value, or the bound of `i16` on the side of the infinity.
    open spec fn from_spec(number: DoubleInfiniteNumber<i16>) -> i16 {
        match number {
            DoubleInfiniteNumber::Finite(value) => value,
            DoubleInfiniteNumber::PosInfinity => i16::MAX,
            DoubleInfiniteNumber::NegInfinity => i16::MIN,
        }
    }
}

impl Zero for i32 {
    open spec fn zero_spec() -> i32 {
        0
    }

    open spec fn is_zero_spec(&self) -> bool {
        *self == 0
    }

    fn zero() -> i32 {
        0
    }

    fn is_zero(&self) -> bool {
        *self == 0
    }
}

impl Negate for i32 {
    /// The negative of `self`. The least value has no negative in `i32` and is
    /// left as it is.
    open spec fn negate_spec(self) -> i32 {
        if self == i32::MIN {
            i32::MIN
        } else {
            (-self) as i32
        }
    }

    fn negate(self) -> i32 {
        if self == i32::MIN {
            i32::MIN
        } else {
            -self
        }
    }
}

impl CheckedAdd for i32 {
    open spec fn checked_add_spec(self, other: i32) -> Option<i32> {
        if i32::MIN <= self + other <= i32::MAX {
            Some((self + other) as i32)
        } else {
            None
        }
    }

    fn checked_add(self, other: i32) -> Option<i32> {
        i32::checked_add(self, other)
    }
}

impl CheckedSub for i32 {
    open spec fn checked_sub_spec(self, other: i32) -> Option<i32> {
        if i32::MIN <= self - other <= i32::MAX {
            Some((self - other) as i32)
        } else {
            None
        }
    }

    fn checked_sub(self, other: i32) -> Option<i32> {
        i32::checked_sub(self, other)
    }
}

impl CheckedMul for i32 {
    open spec fn checked_mul_spec(self, other: i32) -> Option<i32> {
        if i32::MIN <= self * other <= i32::MAX {
            Some((self * other) as i32)
        } else {
            None
        }
    }

    fn checked_mul(self, other: i32) -> Option<i32> {
        i32::checked_mul(self, other)
    }
}

impl CheckedDiv for i32 {
    /// The quotient rounded toward zero. Only the least value over -1 does not
    /// fit.
    open spec fn checked_div_spec(self, other: i32) -> Option<i32> {
        if other == 0 || (self == i32::MIN && other == -1) {
            None
        } else {
            Some(quotient_toward_zero(self as int, other as int) as i32)
        }
    }

    fn checked_div(self, other: i32) -> Option<i32> {
        proof {
            if other != 0 {
                lemma_quotient_toward_zero_bounds(self as int, other as int);
            }
        }
        i32::checked_div(self, other)
    }
}

impl From<i32> for DoubleInfiniteNumber<i32> {
    fn from(value: i32) -> (number: Self) {
        DoubleInfiniteNumber::Finite(value)
    }
}

impl FromSpecImpl<i32> for DoubleInfiniteNumber<i32> {
    open spec fn obeys_from_spec() -> bool {
        true
    }

    open spec fn from_spec(value: i32) -> Self {
        DoubleInfiniteNumber::Finite(value)
    }
}

impl From<DoubleInfiniteNumber<i32>> for i32 {
    fn from(number: DoubleInfiniteNumber<i32>) -> (value: i32) {
        match number {
            DoubleInfiniteNumber::Finite(value) => value,
            DoubleInfiniteNumber::PosInfinity => i32::MAX,
            DoubleInfiniteNumber::NegInfinity => i32::MIN,
        }
    }
}

impl FromSpecImpl<DoubleInfiniteNumber<i32>> for i32 {
    open spec fn obeys_from_spec() -> bool {
        true
    }

    /// The finite value, or the bound of `i32` on the side of the infinity.
    open spec fn from_spec(number: DoubleInfiniteNumber<i32>) -> i32 {
        match number {
            DoubleInfiniteNumber::Finite(value) => value,
            DoubleInfiniteNumber::PosInfinity => i32::MAX,
            DoubleInfiniteNumber::NegInfinity => i32::MIN,
        }
    }
}

impl Zero for i64 {
    open spec fn zero_spec() -> i64 {
        0
    }

    open spec fn is_zero_spec(&self) -> bool {
        *self == 0
    }

    fn zero() -> i64 {
        0
    }

    fn is_zero(&self) -> bool {
        *self == 0
    }
}

impl Negate for i64 {
    /// The negative of `self`. The least value has no negative in `i64` and is
    /// left as it is.
    open spec fn negate_spec(self) -> i64 {
        if self == i64::MIN {
            i64::MIN
        } else {
            (-self) as i64
        }
    }

    fn negate(self) -> i64 {
        if self == i64::MIN {
            i64::MIN
        } else {
            -self
        }
    }
}

impl CheckedAdd for i64 {
    open spec fn checked_add_spec(self, other: i64) -> Option<i64> {
        if i64::MIN <= self + other <= i64::MAX {
            Some((self + other) as i64)
        } else {
            None
        }
    }

    fn checked_add(self, other: i64) -> Option<i64> {
        i64::checked_add(self, other)
    }
}

impl CheckedSub for i64 {
    open spec fn checked_sub_spec(self, other: i64) -> Option<i64> {
        if i64::MIN <= self - other <= i64::MAX {
            Some((self - other) as i64)
        } else {
            None
        }
    }

    fn checked_sub(self, other: i64) -> Option<i64> {
        i64::checked_sub(self, other)
    }
}

impl CheckedMul for i64 {
    open spec fn checked_mul_spec(self, other: i64) -> Option<i64> {
        if i64::MIN <= self * other <= i64::MAX {
            Some((self * other) as i64)
        } else {
            None
        }
    }

    fn checked_mul(self, other: i64) -> Option<i64> {
        i64::checked_mul(self, other)
    }
}

impl CheckedDiv for i64 {
    /// The quotient rounded toward zero. Only the least value over -1 does not
    /// fit.
    open spec fn checked_div_spec(self, other: i64) -> Option<i64> {
        if other == 0 || (self == i64::MIN && other == -1) {
            None
        } else {
            Some(quotient_toward_zero(self as int, other as int) as i64)
        }
    }

    fn checked_div(self, other: i64) -> Option<i64> {
        proof {
            if other != 0 {
                lemma_quotient_toward_zero_bounds(self as int, other as int);
            }
        }
        i64::checked_div(self, other)
    }
}

impl From<i64> for DoubleInfiniteNumber<i64> {
    fn from(value: i64) -> (number: Self) {
        DoubleInfiniteNumber::Finite(value)
    }
}

impl FromSpecImpl<i64> for DoubleInfiniteNumber<i64> {
    open spec fn obeys_from_spec() -> bool {
        true
    }

    open spec fn from_spec(value: i64) -> Self {
        DoubleInfiniteNumber::Finite(value)
    }
}

impl From<DoubleInfiniteNumber<i64>> for i64 {
    fn from(number: DoubleInfiniteNumber<i64>) -> (value: i64) {
        match number {
            DoubleInfiniteNumber::Finite(value) => value,
            DoubleInfiniteNumber::PosInfinity => i64::MAX,
            DoubleInfiniteNumber::NegInfinity => i64::MIN,
        }
    }
}

impl FromSpecImpl<DoubleInfiniteNumber<i64>> for i64 {
    open spec fn obeys_from_spec() -> bool {
        true
    }

    /// The finite value, or the bound of `i64` on the side of the infinity.
    open spec fn from_spec(number: DoubleInfiniteNumber<i64>) -> i64 {
        match number {
            DoubleInfiniteNumber::Finite(value) => value,
            DoubleInfiniteNumber::PosInfinity => i64::MAX,
            DoubleInfiniteNumber::NegInfinity => i64::MIN,
        }
    }
}

impl Zero for i128 {
    open spec fn zero_spec() -> i128 {
        0
    }

    open spec fn is_zero_spec(&self) -> bool {
        *self == 0
    }

    fn zero() -> i128 {
        0
    }

    fn is_zero(&self) -> bool {
        *self == 0
    }
}

impl Negate for i128 {
    /// The negative of `self`. The least value has no negative in `i128` and is
    /// left as it is.
    open spec fn negate_spec(self) -> i128 {
        if self == i128::MIN {
            i128::MIN
        } else {
            (-self) as i128
        }
    }

    fn negate(self) -> i128 {
        if self == i128::MIN {
            i128::MIN
        } else {
            -self
        }
    }
}

impl CheckedAdd for i128 {
    open spec fn checked_add_spec(self, other: i128) -> Option<i128> {
        if i128::MIN <= self + other <= i128::MAX {
            Some((self + other) as i128)
        } else {
            None
        }
    }

    fn checked_add(self, other: i128) -> Option<i128> {
        i128::checked_add(self, other)
    }
}

impl CheckedSub for i128 {
    open spec fn checked_sub_spec(self, other: i128) -> Option<i128> {
        if i128::MIN <= self - other <= i128::MAX {
            Some((self - other) as i128)
        } else {
            None
        }
    }

    fn checked_sub(self, other: i128) -> Option<i128> {
        i128::checked_sub(self, other)
    }
}

impl CheckedMul for i128 {
    open spec fn checked_mul_spec(self, other: i128) -> Option<i128> {
        if i128::MIN <= self * other <= i128::MAX {
            Some((self * other) as i128)
        } else {
            None
        }
    }

    fn checked_mul(self, other: i128) -> Option<i128> {
        i128::checked_mul(self, other)
    }
}

impl CheckedDiv for i128 {
    /// The quotient rounded toward zero. Only the least value over -1 does not
    /// fit.
    open spec fn checked_div_spec(self, other: i128) -> Option<i128> {
        if other == 0 || (self == i128::MIN && other == -1) {
            None
        } else {
            Some(quotient_toward_zero(self as int, other as int) as i128)
        }
    }

    fn checked_div(self, other: i128) -> Option<i128> {
        proof {
            if other != 0 {
                lemma_quotient_toward_zero_bounds(self as int, other as int);
            }
        }
        i128::checked_div(self, other)
    }
}

impl From<i128> for DoubleInfiniteNumber<i128> {
    fn from(value: i128) -> (number: Self) {
        DoubleInfiniteNumber::Finite(value)
    }
}

impl FromSpecImpl<i128> for DoubleInfiniteNumber<i128> {
    open spec fn obeys_from_spec() -> bool {
        true
    }

    open spec fn from_spec(value: i128) -> Self {
        DoubleInfiniteNumber::Finite(value)
    }
}

impl From<DoubleInfiniteNumber<i128>> for i128 {
    fn from(number: DoubleInfiniteNumber<i128>) -> (value: i128) {
        match number {
            DoubleInfiniteNumber::Finite(value) => value,
            DoubleInfiniteNumber::PosInfinity => i128::MAX,
            DoubleInfiniteNumber::NegInfinity => i128::MIN,
        }
    }
}

impl FromSpecImpl<DoubleInfiniteNumber<i128>> for i128 {
    open spec fn obeys_from_spec() -> bool {
        true
    }

    /// The finite value, or the bound of `i128` on the side of the infinity.
    open spec fn from_spec(number: DoubleInfiniteNumber<i128>) -> i128 {
        match number {
            DoubleInfiniteNumber::Finite(value) => value,
            DoubleInfiniteNumber::PosInfinity => i128::MAX,
            DoubleInfiniteNumber::NegInfinity => i128::MIN,
        }
    }
}

impl Unsigned for u8 {
}

impl Zero for u8 {
    open spec fn zero_spec() -> u8 {
        0
    }

    open spec fn is_zero_spec(&self) -> bool {
        *self == 0
    }

    fn zero() -> u8 {
        0
    }

    fn is_zero(&self) -> bool {
        *self == 0
    }
}

impl CheckedAdd for u8 {
    open spec fn checked_add_spec(self, other: u8) -> Option<u8> {
        if self + other <= u8::MAX {
            Some((self + other) as u8)
        } else {
            None
        }
    }

    fn checked_add(self, other: u8) -> Option<u8> {
        u8::checked_add(self, other)
    }
}

impl CheckedSub for u8 {
    open spec fn checked_sub_spec(self, other: u8) -> Option<u8> {
        if self >= other {
            Some((self - other) as u8)
        } else {
            None
        }
    }

    fn checked_sub(self, other: u8) -> Option<u8> {
        u8::checked_sub(self, other)
    }
}

impl CheckedMul for u8 {
    open spec fn checked_mul_spec(self, other: u8) -> Option<u8> {
        if self * other <= u8::MAX {
            Some((self * other) as u8)
        } else {
            None
        }
    }

    fn checked_mul(self, other: u8) -> Option<u8> {
        u8::checked_mul(self, other)
    }
}

impl CheckedDiv for u8 {
    /// The quotient rounded down. It always fits.
    open spec fn checked_div_spec(self, other: u8) -> Option<u8> {
        if other == 0 {
            None
        } else {
            Some(self / other)
        }
    }

    fn checked_div(self, other: u8) -> Option<u8> {
        u8::checked_div(self, other)
    }
}

impl From<u8> for SingleInfiniteNumber<u8> {
    fn from(value: u8) -> (number: Self) {
        SingleInfiniteNumber::Finite(value)
    }
}

impl FromSpecImpl<u8> for SingleInfiniteNumber<u8> {
    open spec fn obeys_from_spec() -> bool {
        true
    }

    open spec fn from_spec(value: u8) -> Self {
        SingleInfiniteNumber::Finite(value)
    }
}

impl From<SingleInfiniteNumber<u8>> for u8 {
    fn from(number: SingleInfiniteNumber<u8>) -> (value: u8) {
        match number {
            SingleInfiniteNumber::Finite(value) => value,
            SingleInfiniteNumber::Infinity => u8::MAX,
        }
    }
}

impl FromSpecImpl<SingleInfiniteNumber<u8>> for u8 {
    open spec fn obeys_from_spec() -> bool {
        true
    }

    /// The finite value, or the greatest value of `u8` for infinity.
    open spec fn from_spec(number: SingleInfiniteNumber<u8>) -> u8 {
        match number {
            SingleInfiniteNumber::Finite(value) => value,
            SingleInfiniteNumber::Infinity => u8::MAX,
        }
    }
}

impl Unsigned for u16 {
}

impl Zero for u16 {
    open spec fn zero_spec() -> u16 {
        0
    }

    open spec fn is_zero_spec(&self) -> bool {
        *self == 0
    }

    fn zero() -> u16 {
        0
    }

    fn is_zero(&self) -> bool {
        *self == 0
    }
}

impl CheckedAdd for u16 {
    open spec fn checked_add_spec(self, other: u16) -> Option<u16> {
        if self + other <= u16::MAX {
            Some((self + other) as u16)
        } else {
            None
        }
    }

    fn checked_add(self, other: u16) -> Option<u16> {
        u16::checked_add(self, other)
    }
}

impl CheckedSub for u16 {
    open spec fn checked_sub_spec(self, other: u16) -> Option<u16> {
        if self >= other {
            Some((self - other) as u16)
        } else {
            None
        }
    }

    fn checked_sub(self, other: u16) -> Option<u16> {
        u16::checked_sub(self, other)
    }
}

impl CheckedMul for u16 {
    open spec fn checked_mul_spec(self, other: u16) -> Option<u16> {
        if self * other <= u16::MAX {
            Some((self * other) as u16)
        } else {
            None
        }
    }

    fn checked_mul(self, other: u16) -> Option<u16> {
        u16::checked_mul(self, other)
    }
}

impl CheckedDiv for u16 {
    /// The quotient rounded down. It always fits.
    open spec fn checked_div_spec(self, other: u16) -> Option<u16> {
        if other == 0 {
            None
        } else {
            Some(self / other)
        }
    }

    fn checked_div(self, other: u16) -> Option<u16> {
        u16::checked_div(self, other)
    }
}

impl From<u16> for SingleInfiniteNumber<u16> {
    fn from(value: u16) -> (number: Self) {
        SingleInfiniteNumber::Finite(value)
    }
}

impl FromSpecImpl<u16> for SingleInfiniteNumber<u16> {
    open spec fn obeys_from_spec() -> bool {
        true
    }

    open spec fn from_spec(value: u16) -> Self {
        SingleInfiniteNumber::Finite(value)
    }
}

impl From<SingleInfiniteNumber<u16>> for u16 {
    fn from(number: SingleInfiniteNumber<u16>) -> (value: u16) {
        match number {
            SingleInfiniteNumber::Finite(value) => value,
            SingleInfiniteNumber::Infinity => u16::MAX,
        }
    }
}

impl FromSpecImpl<SingleInfiniteNumber<u16>> for u16 {
    open spec fn obeys_from_spec() -> bool {
        true
    }

    /// The finite value, or the greatest value of `u16` for infinity.
    open spec fn from_spec(number: SingleInfiniteNumber<u16>) -> u16 {
        match number {
            SingleInfiniteNumber::Finite(value) => value,
            SingleInfiniteNumber::Infinity => u16::MAX,
        }
    }
}

impl Unsigned for u32 {
}

impl Zero for u32 {
    open spec fn zero_spec() -> u32 {
        0
    }

    open spec fn is_zero_spec(&self) -> bool {
        *self == 0
    }

    fn zero() -> u32 {
        0
    }

    fn is_zero(&self) -> bool {
        *self == 0
    }
}

impl CheckedAdd for u32 {
    open spec fn checked_add_spec(self, other: u32) -> Option<u32> {
        if self + other <= u32::MAX {
            Some((self + other) as u32)
        } else {
            None
        }
    }

    fn checked_add(self, other: u32) -> Option<u32> {
        u32::checked_add(self, other)
    }
}

impl CheckedSub for u32 {
    open spec fn checked_sub_spec(self, other: u32) -> Option<u32> {
        if self >= other {
            Some((self - other) as u32)
        } else {
            None
        }
    }

    fn checked_sub(self, other: u32) -> Option<u32> {
        u32::checked_sub(self, other)
    }
}

impl CheckedMul for u32 {
    open spec fn checked_mul_spec(self, other: u32) -> Option<u32> {
        if self * other <= u32::MAX {
            Some((self * other) as u32)
        } else {
            None
        }
    }

    fn checked_mul(self, other: u32) -> Option<u32> {
        u32::checked_mul(self, other)
    }
}

impl CheckedDiv for u32 {
    /// The quotient rounded down. It always fits.
    open spec fn checked_div_spec(self, other: u32) -> Option<u32> {
        if other == 0 {
            None
        } else {
            Some(self / other)
        }
    }

    fn checked_div(self, other: u32) -> Option<u32> {
        u32::checked_div(self, other)
    }
}

impl From<u32> for SingleInfiniteNumber<u32> {
    fn from(value: u32) -> (number: Self) {
        SingleInfiniteNumber::Finite(value)
    }
}

impl FromSpecImpl<u32> for SingleInfiniteNumber<u32> {
    open spec fn obeys_from_spec() -> bool {
        true
    }

    open spec fn from_spec(value: u32) -> Self {
        SingleInfiniteNumber::Finite(value)
    }
}

impl From<SingleInfiniteNumber<u32>> for u32 {
    fn from(number: SingleInfiniteNumber<u32>) -> (value: u32) {
        match number {
            SingleInfiniteNumber::Finite(value) => value,
            SingleInfiniteNumber::Infinity => u32::MAX,
        }
    }
}

impl FromSpecImpl<SingleInfiniteNumber<u32>> for u32 {
    open spec fn obeys_from_spec() -> bool {
        true
    }

    /// The finite value, or the greatest value of `u32` for infinity.
    open spec fn from_spec(number: SingleInfiniteNumber<u32>) -> u32 {
        match number {
            SingleInfiniteNumber::Finite(value) => value,
            SingleInfiniteNumber::Infinity => u32::MAX,
        }
    }
}

impl Unsigned for u64 {
}

impl Zero for u64 {
    open spec fn zero_spec() -> u64 {
        0
    }

    open spec fn is_zero_spec(&self) -> bool {
        *self == 0
    }

    fn zero() -> u64 {
        0
    }

    fn is_zero(&self) -> bool {
        *self == 0
    }
}

impl CheckedAdd for u64 {
    open spec fn checked_add_spec(self, other: u64) -> Option<u64> {
        if self + other <= u64::MAX {
            Some((self + other) as u64)
        } else {
            None
        }
    }

    fn checked_add(self, other: u64) -> Option<u64> {
        u64::checked_add(self, other)
    }
}

impl CheckedSub for u64 {
    open spec fn checked_sub_spec(self, other: u64) -> Option<u64> {
        if self >= other {
            Some((self - other) as u64)
        } else {
            None
        }
    }

    fn checked_sub(self, other: u64) -> Option<u64> {
        u64::checked_sub(self, other)
    }
}

impl CheckedMul for u64 {
    open spec fn checked_mul_spec(self, other: u64) -> Option<u64> {
        if self * other <= u64::MAX {
            Some((self * other) as u64)
        } else {
            None
        }
    }

    fn checked_mul(self, other: u64) -> Option<u64> {
        u64::checked_mul(self, other)
    }
}

impl CheckedDiv for u64 {
    /// The quotient rounded down. It always fits.
    open spec fn checked_div_spec(self, other: u64) -> Option<u64> {
        if other == 0 {
            None
        } else {
            Some(self / other)
        }
    }

    fn checked_div(self, other: u64) -> Option<u64> {
        u64::checked_div(self, other)
    }
}

impl From<u64> for SingleInfiniteNumber<u64> {
    fn from(value: u64) -> (number: Self) {
        SingleInfiniteNumber::Finite(value)
    }
}

impl FromSpecImpl<u64> for SingleInfiniteNumber<u64> {
    open spec fn obeys_from_spec() -> bool {
        true
    }

    open spec fn from_spec(value: u64) -> Self {
        SingleInfiniteNumber::Finite(value)
    }
}

impl From<SingleInfiniteNumber<u64>> for u64 {
    fn from(number: SingleInfiniteNumber<u64>) -> (value: u64) {
        match number {
            SingleInfiniteNumber::Finite(value) => value,
            SingleInfiniteNumber::Infinity => u64::MAX,
        }
    }
}

impl FromSpecImpl<SingleInfiniteNumber<u64>> for u64 {
    open spec fn obeys_from_spec() -> bool {
        true
    }

    /// The finite value, or the greatest value of `u64` for infinity.
    open spec fn from_spec(number: SingleInfiniteNumber<u64>) -> u64 {
        match number {
            SingleInfiniteNumber::Finite(value) => value,
            SingleInfiniteNumber::Infinity => u64::MAX,
        }
    }
}

impl Unsigned for u128 {
}

impl Zero for u128 {
    open spec fn zero_spec() -> u128 {
        0
    }

    open spec fn is_zero_spec(&self) -> bool {
        *self == 0
    }

    fn zero() -> u128 {
        0
    }

    fn is_zero(&self) -> bool {
        *self == 0
    }
}

impl CheckedAdd for u128 {
    open spec fn checked_add_spec(self, other: u128) -> Option<u128> {
        if self + other <= u128::MAX {
            Some((self + other) as u128)
        } else {
            None
        }
    }

    fn checked_add(self, other: u128) -> Option<u128> {
        u128::checked_add(self, other)
    }
}

impl CheckedSub for u128 {
    open spec fn checked_sub_spec(self, other: u128) -> Option<u128> {
        if self >= other {
            Some((self - other) as u128)
        } else {
            None
        }
    }

    fn checked_sub(self, other: u128) -> Option<u128> {
        u128::checked_sub(self, other)
    }
}

impl CheckedMul for u128 {
    open spec fn checked_mul_spec(self, other: u128) -> Option<u128> {
        if self * other <= u128::MAX {
            Some((self * other) as u128)
        } else {
            None
        }
    }

    fn checked_mul(self, other: u128) -> Option<u128> {
        u128::checked_mul(self, other)
    }
}

impl CheckedDiv for u128 {
    /// The quotient rounded down. It always fits.
    open spec fn checked_div_spec(self, other: u128) -> Option<u128> {
        if other == 0 {
            None
        } else {
            Some(self / other)
        }
    }

    fn checked_div(self, other: u128) -> Option<u128> {
        u128::checked_div(self, other)
    }
}

impl From<u128> for SingleInfiniteNumber<u128> {
    fn from(value: u128) -> (number: Self) {
        SingleInfiniteNumber::Finite(value)
    }
}

impl FromSpecImpl<u128> for SingleInfiniteNumber<u128> {
    open spec fn obeys_from_spec() -> bool {
        true
    }

    open spec fn from_spec(value: u128) -> Self {
        SingleInfiniteNumber::Finite(value)
    }
}

impl From<SingleInfiniteNumber<u128>> for u128 {
    fn from(number: SingleInfiniteNumber<u128>) -> (value: u128) {
        match number {
            SingleInfiniteNumber::Finite(value) => value,
            SingleInfiniteNumber::Infinity => u128::MAX,
        }
    }
}

impl FromSpecImpl<SingleInfiniteNumber<u128>> for u128 {
    open spec fn obeys_from_spec() -> bool {
        true
    }

    /// The finite value, or the greatest value of `u128` for infinity.
    open spec fn from_spec(number: SingleInfiniteNumber<u128>) -> u128 {
        match number {
            SingleInfiniteNumber::Finite(value) => value,
            SingleInfiniteNumber::Infinity => u128::MAX,
        }
    }
}

} // verus!
