use intfinity::traits::{CheckedAdd, CheckedDiv, CheckedMul, CheckedSub, Negate, Zero};
use intfinity::{DoubleInfiniteNumber, SingleInfiniteNumber};

#[test]
fn zero_of_each_signed_type() {
    assert_eq!(<i8 as Zero>::zero(), 0);
    assert_eq!(<i16 as Zero>::zero(), 0);
    assert_eq!(<i32 as Zero>::zero(), 0);
    assert_eq!(<i64 as Zero>::zero(), 0);
    assert_eq!(<i128 as Zero>::zero(), 0);
    assert!(Zero::is_zero(&0i8));
    assert!(Zero::is_zero(&0i128));
    assert!(!Zero::is_zero(&-1i16));
    assert!(!Zero::is_zero(&i64::MIN));
}

#[test]
fn zero_of_each_unsigned_type() {
    assert_eq!(<u8 as Zero>::zero(), 0);
    assert_eq!(<u16 as Zero>::zero(), 0);
    assert_eq!(<u32 as Zero>::zero(), 0);
    assert_eq!(<u64 as Zero>::zero(), 0);
    assert_eq!(<u128 as Zero>::zero(), 0);
    assert!(Zero::is_zero(&0u8));
    assert!(!Zero::is_zero(&1u64));
    assert!(!Zero::is_zero(&u128::MAX));
}

#[test]
fn negate_mirrors_at_zero() {
    assert_eq!(Negate::negate(5i8), -5);
    assert_eq!(Negate::negate(-300i16), 300);
    assert_eq!(Negate::negate(i32::MAX), i32::MIN + 1);
    assert_eq!(Negate::negate(0i64), 0);
    assert_eq!(Negate::negate(-1i128), 1);
}

#[test]
fn negate_leaves_the_least_value() {
    assert_eq!(Negate::negate(i8::MIN), i8::MIN);
    assert_eq!(Negate::negate(i16::MIN), i16::MIN);
    assert_eq!(Negate::negate(i32::MIN), i32::MIN);
    assert_eq!(Negate::negate(i64::MIN), i64::MIN);
    assert_eq!(Negate::negate(i128::MIN), i128::MIN);
}

#[test]
fn checked_add_signed() {
    assert_eq!(CheckedAdd::checked_add(100i8, 27i8), Some(127));
    assert_eq!(CheckedAdd::checked_add(100i8, 28i8), None);
    assert_eq!(CheckedAdd::checked_add(-100i8, -29i8), None);
    assert_eq!(CheckedAdd::checked_add(i64::MAX, 1i64), None);
    assert_eq!(CheckedAdd::checked_add(i128::MIN, -1i128), None);
    assert_eq!(CheckedAdd::checked_add(-7i16, 7i16), Some(0));
}

#[test]
fn checked_sub_signed() {
    assert_eq!(CheckedSub::checked_sub(-100i8, 28i8), Some(-128));
    assert_eq!(CheckedSub::checked_sub(-100i8, 29i8), None);
    assert_eq!(CheckedSub::checked_sub(0i32, i32::MIN), None);
    assert_eq!(CheckedSub::checked_sub(-1i32, i32::MIN), Some(i32::MAX));
    assert_eq!(CheckedSub::checked_sub(i128::MAX, -1i128), None);
}

#[test]
fn checked_mul_signed() {
    assert_eq!(CheckedMul::checked_mul(-8i8, 16i8), Some(-128));
    assert_eq!(CheckedMul::checked_mul(8i8, 16i8), None);
    assert_eq!(CheckedMul::checked_mul(i16::MIN, -1i16), None);
    assert_eq!(CheckedMul::checked_mul(i64::MAX, 0i64), Some(0));
}

#[test]
fn checked_div_signed_rounds_toward_zero() {
    assert_eq!(CheckedDiv::checked_div(7i32, 2i32), Some(3));
    assert_eq!(CheckedDiv::checked_div(-7i32, 2i32), Some(-3));
    assert_eq!(CheckedDiv::checked_div(7i32, -2i32), Some(-3));
    assert_eq!(CheckedDiv::checked_div(-7i32, -2i32), Some(3));
    assert_eq!(CheckedDiv::checked_div(0i32, -5i32), Some(0));
    assert_eq!(CheckedDiv::checked_div(i32::MIN, 1i32), Some(i32::MIN));
    assert_eq!(CheckedDiv::checked_div(i32::MIN, 2i32), Some(-1073741824));
}

#[test]
fn checked_div_signed_without_quotient() {
    assert_eq!(CheckedDiv::checked_div(7i8, 0i8), None);
    assert_eq!(CheckedDiv::checked_div(i8::MIN, -1i8), None);
    assert_eq!(CheckedDiv::checked_div(i64::MIN, -1i64), None);
    assert_eq!(CheckedDiv::checked_div(i128::MIN, -1i128), None);
}

#[test]
fn checked_arithmetic_unsigned() {
    assert_eq!(CheckedAdd::checked_add(200u8, 55u8), Some(255));
    assert_eq!(CheckedAdd::checked_add(200u8, 56u8), None);
    assert_eq!(CheckedSub::checked_sub(5u16, 5u16), Some(0));
    assert_eq!(CheckedSub::checked_sub(5u16, 6u16), None);
    assert_eq!(CheckedMul::checked_mul(65536u32, 65535u32), Some(4294901760));
    assert_eq!(CheckedMul::checked_mul(65536u32, 65536u32), None);
    assert_eq!(CheckedDiv::checked_div(7u64, 2u64), Some(3));
    assert_eq!(CheckedDiv::checked_div(7u64, 0u64), None);
    assert_eq!(CheckedDiv::checked_div(u128::MAX, 1u128), Some(u128::MAX));
}

#[test]
fn integer_into_extended_number() {
    let a: DoubleInfiniteNumber<i8> = (-3i8).into();
    assert_eq!(a, DoubleInfiniteNumber::Finite(-3));
    assert_eq!(DoubleInfiniteNumber::from(i64::MIN), DoubleInfiniteNumber::Finite(i64::MIN));
    let b: SingleInfiniteNumber<u16> = 9u16.into();
    assert_eq!(b, SingleInfiniteNumber::Finite(9));
    assert_eq!(SingleInfiniteNumber::from(u128::MAX), SingleInfiniteNumber::Finite(u128::MAX));
}

#[test]
fn extended_number_into_signed_integer() {
    let finite: i32 = DoubleInfiniteNumber::Finite(-42).into();
    assert_eq!(finite, -42);
    let greatest: i32 = DoubleInfiniteNumber::PosInfinity.into();
    assert_eq!(greatest, i32::MAX);
    let least: i32 = DoubleInfiniteNumber::NegInfinity.into();
    assert_eq!(least, i32::MIN);
    assert_eq!(i8::from(DoubleInfiniteNumber::PosInfinity), 127);
    assert_eq!(i8::from(DoubleInfiniteNumber::NegInfinity), -128);
    assert_eq!(i16::from(DoubleInfiniteNumber::NegInfinity), i16::MIN);
    assert_eq!(i64::from(DoubleInfiniteNumber::PosInfinity), i64::MAX);
    assert_eq!(i128::from(DoubleInfiniteNumber::NegInfinity), i128::MIN);
    assert_eq!(i128::from(DoubleInfiniteNumber::Finite(7)), 7);
}

#[test]
fn extended_number_into_unsigned_integer() {
    let finite: u32 = SingleInfiniteNumber::Finite(42).into();
    assert_eq!(finite, 42);
    let greatest: u32 = SingleInfiniteNumber::Infinity.into();
    assert_eq!(greatest, u32::MAX);
    assert_eq!(u8::from(SingleInfiniteNumber::Infinity), 255);
    assert_eq!(u16::from(SingleInfiniteNumber::Infinity), u16::MAX);
    assert_eq!(u64::from(SingleInfiniteNumber::Infinity), u64::MAX);
    assert_eq!(u128::from(SingleInfiniteNumber::Infinity), u128::MAX);
    assert_eq!(u128::from(SingleInfiniteNumber::Finite(0)), 0);
}
