use intfinity::{DoubleInfiniteNumber, SingleInfiniteNumber};

#[test]
fn test_single_bounded_infinity_with_value() {
    let finite: SingleInfiniteNumber<u32> = SingleInfiniteNumber::new(42);
    assert_eq!(finite, SingleInfiniteNumber::Finite(42));
}

#[test]
fn test_single_bounded_infinity_infinity() {
    let infinity: SingleInfiniteNumber<u32> = SingleInfiniteNumber::Infinity;
    assert_eq!(infinity, SingleInfiniteNumber::Infinity);
}

#[test]
fn test_double_bounded_infinity_with_value() {
    let finite = DoubleInfiniteNumber::new(42);
    assert_eq!(finite, DoubleInfiniteNumber::Finite(42));
}

#[test]
fn test_double_bounded_infinity_pos_infinity() {
    let pos_inf: DoubleInfiniteNumber<i32> = DoubleInfiniteNumber::PosInfinity;
    assert_eq!(pos_inf, DoubleInfiniteNumber::PosInfinity);
}

#[test]
fn test_double_bounded_infinity_neg_infinity() {
    let neg_inf: DoubleInfiniteNumber<i32> = DoubleInfiniteNumber::NegInfinity;
    assert_eq!(neg_inf, DoubleInfiniteNumber::NegInfinity);
}

#[test]
fn test_double_bounded_infinity_default_pos_infinity() {
    let pos_inf: DoubleInfiniteNumber<i32> = DoubleInfiniteNumber::PosInfinity;
    assert_eq!(pos_inf, DoubleInfiniteNumber::PosInfinity);
}

#[test]
fn test_double_bounded_infinity_default_neg_infinity() {
    let neg_inf: DoubleInfiniteNumber<i32> = DoubleInfiniteNumber::NegInfinity;
    assert_eq!(neg_inf, DoubleInfiniteNumber::NegInfinity);
}

#[test]
fn test_double_bounded_infinity_default_finite() {
    let finite = DoubleInfiniteNumber::new(42);
    assert_eq!(finite, DoubleInfiniteNumber::Finite(42));
}
