use mandelbrot::arbitrary_num::{ArbitaryNum, DomainError};
use num::{BigInt, BigRational, ToPrimitive};
use std::cmp::Ordering;

fn whole(n: i32) -> ArbitaryNum {
    ArbitaryNum::from(n)
}

fn ratio(n: i32, d: i32) -> ArbitaryNum {
    whole(n) / whole(d)
}

fn narrow(x: &ArbitaryNum) -> f32 {
    let (numer, denom) = x.to_signed_bytes();
    BigRational::new(
        BigInt::from_signed_bytes_le(&numer),
        BigInt::from_signed_bytes_le(&denom),
    )
    .to_f32()
    .unwrap()
}

#[test]
fn constants_have_their_values() {
    assert_eq!(ArbitaryNum::zero(), whole(0));
    assert_eq!(ArbitaryNum::one(), whole(1));
    assert_eq!(ArbitaryNum::two(), whole(2));
    assert_eq!(ArbitaryNum::half(), ratio(1, 2));
    assert_eq!(ArbitaryNum::half() + ArbitaryNum::half(), ArbitaryNum::one());
    assert_ne!(ArbitaryNum::zero(), ArbitaryNum::one());
}

#[test]
fn addition_is_exact() {
    assert_eq!(whole(1) + whole(2), whole(3));
    assert_eq!(ratio(1, 2) + ratio(1, 3), ratio(5, 6));
    assert_eq!(ratio(1, 10) + ratio(2, 10), ratio(3, 10));
}

#[test]
fn subtraction_is_exact() {
    assert_eq!(whole(5) - whole(3), whole(2));
    assert_eq!(ratio(1, 2) - ratio(1, 3), ratio(1, 6));
    assert_eq!(whole(3) - whole(5), whole(-2));
}

#[test]
fn multiplication_is_exact() {
    assert_eq!(whole(2) * whole(3), whole(6));
    assert_eq!(ratio(2, 3) * ratio(3, 4), ratio(1, 2));
    assert_eq!(whole(-7) * ratio(1, 7), whole(-1));
}

#[test]
fn division_is_exact() {
    assert_eq!(whole(6) / whole(3), whole(2));
    assert_eq!(whole(1) / whole(3) * whole(3), whole(1));
    assert_eq!(ratio(1, 2) / ratio(1, 4), whole(2));
    assert_eq!(whole(1) / whole(-2), ratio(-1, 2));
}

#[test]
fn negation_and_absolute_value() {
    assert_eq!(-whole(1), whole(-1));
    assert_eq!(-ratio(-1, 3), ratio(1, 3));
    assert_eq!(-whole(0), whole(0));
    assert_eq!(whole(-3).abs(), whole(3));
    assert_eq!(whole(3).abs(), whole(3));
    assert_eq!(ratio(-5, 7).abs(), ratio(5, 7));
    assert_eq!(whole(0).abs(), whole(0));
}

#[test]
fn numbers_grow_without_bound() {
    let mut big = whole(i32::MAX);
    let mut small = ArbitaryNum::one();
    for _ in 0..40 {
        big = big.clone() * big;
        big = big + ArbitaryNum::one();
        small = small / whole(i32::MAX);
        if big.to_signed_bytes().0.len() > 4000 {
            break;
        }
    }
    assert!(big.to_signed_bytes().0.len() > 4000);
    assert!(small > ArbitaryNum::zero());
    assert_eq!(big.clone() - big.clone(), ArbitaryNum::zero());
    assert_eq!((big.clone() + small.clone()) - big, small);
}

#[test]
fn adding_then_subtracting_gives_back() {
    let values = [whole(0), whole(1), whole(-4), ratio(1, 3), ratio(-22, 7), whole(i32::MIN)];
    for a in values.iter() {
        for b in values.iter() {
            assert_eq!(a.clone() + b.clone() - b.clone(), a.clone());
        }
    }
}

#[test]
fn one_is_neutral_for_multiplication() {
    for a in [whole(0), whole(1), whole(-4), ratio(1, 3), ratio(-22, 7)] {
        assert_eq!(a.clone() * ArbitaryNum::one(), a);
    }
}

#[test]
fn a_number_divided_by_itself_is_one() {
    for a in [whole(1), whole(-4), ratio(1, 3), ratio(-22, 7), whole(i32::MAX)] {
        assert_eq!(a.clone() / a, ArbitaryNum::one());
    }
}

#[test]
fn checked_division_reports_a_zero_divisor() {
    assert_eq!(
        whole(1).checked_div(ArbitaryNum::zero()),
        Err(DomainError::DivisionByZero)
    );
    assert_eq!(
        whole(0).checked_div(whole(1) - whole(1)),
        Err(DomainError::DivisionByZero)
    );
    assert_eq!(whole(6).checked_div(whole(4)), Ok(ratio(3, 2)));
    assert_eq!(whole(0).checked_div(whole(4)), Ok(whole(0)));
}

#[test]
fn order_is_that_of_the_rationals() {
    assert!(ratio(1, 3) < ratio(1, 2));
    assert!(ratio(-1, 2) < ratio(-1, 3));
    assert!(whole(2) > ratio(3, 2));
    assert!(ratio(2, 4) <= ratio(1, 2));
    assert!(ratio(2, 4) >= ratio(1, 2));
    assert!(!(whole(1) < whole(1)));
    assert_eq!(whole(1).partial_cmp(&whole(2)), Some(Ordering::Less));
    assert_eq!(whole(2).partial_cmp(&whole(1)), Some(Ordering::Greater));
    assert_eq!(ratio(3, 6).partial_cmp(&ratio(1, 2)), Some(Ordering::Equal));
    assert!(whole(1).is_below(&whole(2)));
    assert!(!whole(2).is_below(&whole(1)));
    assert!(!whole(2).is_below(&whole(2)));
}

#[test]
fn equality_is_by_value() {
    assert_eq!(ratio(2, 4), ratio(1, 2));
    assert_eq!(ratio(-3, -6), ratio(1, 2));
    assert_ne!(ratio(1, 2), ratio(1, 3));
    assert_ne!(whole(1), whole(2));
    assert_ne!(whole(1), whole(-1));
}

#[test]
fn sign_test_and_minimum() {
    assert!(whole(-1).is_negative());
    assert!(ratio(-1, 1000).is_negative());
    assert!(!whole(0).is_negative());
    assert!(!whole(1).is_negative());
    assert_eq!(whole(100).min(whole(250)), whole(100));
    assert_eq!(whole(100).min(whole(50)), whole(50));
    assert_eq!(whole(100).min(whole(100)), whole(100));
    assert_eq!(whole(-1).min(whole(-2)), whole(-2));
}

#[test]
fn integers_widen_exactly() {
    assert_eq!(ArbitaryNum::from(0u32), whole(0));
    assert_eq!(ArbitaryNum::from(255u32), whole(255));
    assert_eq!(ArbitaryNum::from(256u32), whole(256));
    assert_eq!(
        ArbitaryNum::from(u32::MAX),
        whole(65536) * whole(65536) - whole(1)
    );
    assert_eq!(
        ArbitaryNum::from(i32::MIN),
        -(whole(65536) * whole(32768))
    );
    assert_eq!(ArbitaryNum::from(i32::MAX), whole(65536) * whole(32768) - whole(1));
    assert_eq!(ArbitaryNum::from(-1i32) + whole(1), whole(0));
    assert_eq!(ArbitaryNum::from_u64(0), whole(0));
    assert_eq!(ArbitaryNum::from_u64(128), whole(128));
    let two_to_32 = whole(65536) * whole(65536);
    assert_eq!(
        ArbitaryNum::from_u64(u64::MAX),
        two_to_32.clone() * two_to_32 - whole(1)
    );
    assert_eq!(
        ArbitaryNum::from_u64(0x0102_0304_0506_0708),
        ArbitaryNum::from(0x0102_0304u32) * (whole(65536) * whole(65536))
            + ArbitaryNum::from(0x0506_0708u32)
    );
}

#[test]
fn single_precision_widens_exactly() {
    assert_eq!(ArbitaryNum::from_f32_bits(0.0f32.to_bits()), whole(0));
    assert_eq!(ArbitaryNum::from_f32_bits((-0.0f32).to_bits()), whole(0));
    assert_eq!(ArbitaryNum::from_f32_bits(1.0f32.to_bits()), whole(1));
    assert_eq!(ArbitaryNum::from_f32_bits(0.5f32.to_bits()), ArbitaryNum::half());
    assert_eq!(ArbitaryNum::from_f32_bits((-2.5f32).to_bits()), ratio(-5, 2));
    assert_eq!(ArbitaryNum::from_f32_bits(0.75f32.to_bits()), ratio(3, 4));
    assert_eq!(ArbitaryNum::from_f32_bits(16777216.0f32.to_bits()), whole(16777216));
    // 0.1 is not a binary fraction: the nearest single-precision number is
    // 13421773 / 2^27.
    assert_eq!(
        ArbitaryNum::from_f32_bits(0.1f32.to_bits()),
        whole(13421773) / (whole(1 << 27))
    );
    assert_ne!(ArbitaryNum::from_f32_bits(0.1f32.to_bits()), ratio(1, 10));
    // The smallest subnormal number is 2^-149.
    let mut tiny = ArbitaryNum::one();
    for _ in 0..149 {
        tiny = tiny / ArbitaryNum::two();
    }
    assert_eq!(ArbitaryNum::from_f32_bits(1), tiny);
    // The largest finite number is (2^24 - 1) * 2^104.
    let mut huge = whole((1 << 24) - 1);
    for _ in 0..104 {
        huge = huge * ArbitaryNum::two();
    }
    assert_eq!(ArbitaryNum::from_f32_bits(f32::MAX.to_bits()), huge);
    assert_eq!(ArbitaryNum::from_f32_bits(f32::MIN.to_bits()), -huge);
}

#[test]
fn double_precision_widens_exactly() {
    assert_eq!(ArbitaryNum::from_f64_bits(0.0f64.to_bits()), whole(0));
    assert_eq!(ArbitaryNum::from_f64_bits(1.0f64.to_bits()), whole(1));
    assert_eq!(ArbitaryNum::from_f64_bits(250.0f64.to_bits()), whole(250));
    assert_eq!(ArbitaryNum::from_f64_bits((-0.375f64).to_bits()), ratio(-3, 8));
    assert_eq!(
        ArbitaryNum::from_f64_bits(4294967296.5f64.to_bits()),
        whole(65536) * whole(65536) + ArbitaryNum::half()
    );
    let mut tiny = ArbitaryNum::one();
    for _ in 0..1074 {
        tiny = tiny * ArbitaryNum::half();
    }
    assert_eq!(ArbitaryNum::from_f64_bits(1), tiny);
    let mut huge = ArbitaryNum::from_u64((1 << 53) - 1);
    for _ in 0..971 {
        huge = huge * ArbitaryNum::two();
    }
    assert_eq!(ArbitaryNum::from_f64_bits(f64::MAX.to_bits()), huge);
}

#[test]
fn widening_then_narrowing_gives_back() {
    let values = [
        0.0f32,
        1.0,
        -1.0,
        0.1,
        -0.3,
        1.0e-20,
        3.4e38,
        f32::MAX,
        f32::MIN_POSITIVE,
        1.0e-45,
        123456.79,
    ];
    for x in values {
        let exact = ArbitaryNum::from_f32_bits(x.to_bits());
        assert_eq!(narrow(&exact).to_bits(), x.to_bits());
    }
}

#[test]
fn narrowing_rounds_to_the_nearest() {
    assert_eq!(narrow(&ratio(1, 2)), 0.5);
    assert_eq!(narrow(&ratio(1, 3)), 1.0f32 / 3.0);
    assert_eq!(narrow(&ratio(1, 10)), 0.1f32);
    assert_eq!(narrow(&whole(-3)), -3.0);
    assert_eq!(narrow(&ArbitaryNum::zero()).to_bits(), 0);
}

#[test]
fn bytes_denote_the_number() {
    let (numer, denom) = ratio(-3, 6).to_signed_bytes();
    let numer = BigInt::from_signed_bytes_le(&numer);
    let denom = BigInt::from_signed_bytes_le(&denom);
    assert!(denom > BigInt::from(0));
    assert_eq!(
        BigRational::new(numer, denom),
        BigRational::new(BigInt::from(-1), BigInt::from(2))
    );
    let (numer, denom) = ArbitaryNum::from_u64(u64::MAX).to_signed_bytes();
    assert_eq!(BigInt::from_signed_bytes_le(&numer), BigInt::from(u64::MAX));
    assert_eq!(BigInt::from_signed_bytes_le(&denom), BigInt::from(1));
    let (numer, denom) = ArbitaryNum::from(i32::MIN).to_signed_bytes();
    assert_eq!(BigInt::from_signed_bytes_le(&numer), BigInt::from(i32::MIN));
    assert_eq!(BigInt::from_signed_bytes_le(&denom), BigInt::from(1));
}

#[test]
fn a_clone_is_equal() {
    let a = ratio(-22, 7);
    assert_eq!(a.clone(), a);
}
