use plasma::plasma::fixed::I80F48;
use std::cmp::Ordering;

const ONE: i128 = 1 << 48;

#[test]
fn from_num_shifts_by_fractional_bits() {
    assert_eq!(I80F48::from_num(0).to_bits(), 0);
    assert_eq!(I80F48::from_num(1).to_bits(), ONE);
    assert_eq!(I80F48::from_num(12345).to_bits(), 12345 * ONE);
    assert_eq!(I80F48::from_num(u64::MAX).to_bits(), (u64::MAX as i128) << 48);
}

#[test]
fn from_num_agrees_with_fixed_crate() {
    for v in [0u64, 1, 7, 1_000_000_000, u64::MAX] {
        assert_eq!(
            I80F48::from_num(v).to_bits(),
            fixed::types::I80F48::from_num(v).to_bits()
        );
    }
}

#[test]
fn from_fraction_rounds_down() {
    assert_eq!(I80F48::from_fraction(1, 2).to_bits(), ONE / 2);
    assert_eq!(I80F48::from_fraction(3, 4).to_bits(), 3 * ONE / 4);
    // 1/3 is not exact: the bits are floor(2^48 / 3).
    assert_eq!(I80F48::from_fraction(1, 3).to_bits(), ONE / 3);
    assert_eq!(I80F48::from_fraction(2, 3).to_bits(), 2 * ONE / 3);
    assert_eq!(I80F48::from_fraction(7, 1).to_bits(), 7 * ONE);
    assert_eq!(I80F48::from_fraction(0, 5).to_bits(), 0);
    assert_eq!(
        I80F48::from_fraction(u64::MAX, 1).to_bits(),
        (u64::MAX as i128) * ONE
    );
}

#[test]
fn from_fraction_agrees_with_fixed_crate() {
    for (n, d) in [(1u64, 3u64), (10, 7), (999_999, 1_000_000), (u64::MAX, 3), (5, u64::MAX)] {
        let expected = fixed::types::I80F48::from_num(n) / fixed::types::I80F48::from_num(d);
        assert_eq!(I80F48::from_fraction(n, d).to_bits(), expected.to_bits());
    }
}

#[test]
fn floor_drops_fraction() {
    assert_eq!(I80F48::from_num(42).floor(), 42);
    assert_eq!(I80F48::from_fraction(7, 2).floor(), 3);
    assert_eq!(I80F48::from_fraction(1, 3).floor(), 0);
    assert_eq!(I80F48::from_bits(ONE - 1).floor(), 0);
    assert_eq!(I80F48::from_num(u64::MAX).floor(), u64::MAX);
    assert_eq!(I80F48::from_fraction(u64::MAX, 2).floor(), u64::MAX / 2);
}

#[test]
fn floor_of_fraction_is_integer_division() {
    for (n, d) in [(10u64, 3u64), (100, 7), (5, 5), (1, 2), (u64::MAX, 10)] {
        assert_eq!(I80F48::from_fraction(n, d).floor(), n / d);
    }
}

#[test]
fn bits_round_trip() {
    for b in [0i128, 1, -1, ONE, -ONE, i128::MAX, i128::MIN, 123456789] {
        assert_eq!(I80F48::from_bits(b).to_bits(), b);
    }
    assert_eq!(I80F48::zero().to_bits(), 0);
}

#[test]
fn add_sub_mul() {
    let a = I80F48::from_fraction(3, 2);
    let b = I80F48::from_fraction(1, 4);
    assert_eq!((a + b).to_bits(), 7 * ONE / 4);
    assert_eq!((a - b).to_bits(), 5 * ONE / 4);
    assert_eq!((a * b).to_bits(), 3 * ONE / 8);
    assert_eq!(((a + b) - b).to_bits(), a.to_bits());
    assert_eq!((a + b).to_bits(), (b + a).to_bits());
    assert_eq!((b - a).to_bits(), -5 * ONE / 4);
}

#[test]
fn mul_rounds_towards_negative_infinity() {
    let tiny = I80F48::from_bits(1);
    let half = I80F48::from_fraction(1, 2);
    assert_eq!((tiny * half).to_bits(), 0);
    let minus_tiny = I80F48::from_bits(-1);
    assert_eq!((minus_tiny * half).to_bits(), -1);
    let one = I80F48::from_num(1);
    let x = I80F48::from_bits(-987654321);
    assert_eq!((x * one).to_bits(), x.to_bits());
}

#[test]
fn add_assign_adds() {
    let mut a = I80F48::from_num(2);
    a.add_assign(I80F48::from_fraction(1, 2));
    assert_eq!(a.to_bits(), 5 * ONE / 2);
}

#[test]
fn equality_and_order() {
    let a = I80F48::from_fraction(1, 2);
    let b = I80F48::from_bits(ONE / 2);
    let c = I80F48::from_num(1);
    assert!(a == b);
    assert!(a != c);
    assert_eq!(a.partial_cmp(&c), Some(Ordering::Less));
    assert_eq!(c.partial_cmp(&a), Some(Ordering::Greater));
    assert_eq!(a.partial_cmp(&b), Some(Ordering::Equal));
    assert!(a < c);
    assert!(I80F48::from_bits(-1) < I80F48::zero());
}

#[test]
fn text_is_decimal() {
    assert_eq!(I80F48::from_fraction(1, 2).to_string(), "0.5");
    assert_eq!(I80F48::from_num(3).to_string(), "3");
    assert_eq!(I80F48::from_bits(-ONE * 5 / 4).to_string(), "-1.25");
    assert_eq!(
        I80F48::from_fraction(1, 3).to_string(),
        format!("{}", fixed::types::I80F48::from_num(1u64) / fixed::types::I80F48::from_num(3u64))
    );
}

#[test]
fn integers_add_as_fixed_point() {
    for (a, b) in [(0u64, 0u64), (1, 2), (u64::MAX, u64::MAX), (123, u64::MAX - 123)] {
        let sum = I80F48::from_num(a) + I80F48::from_num(b);
        assert_eq!(sum.to_bits(), (a as i128 + b as i128) << 48);
    }
}

#[test]
fn fraction_over_one_is_the_integer() {
    for n in [0u64, 1, 99, u64::MAX] {
        assert!(I80F48::from_fraction(n, 1) == I80F48::from_num(n));
    }
}
