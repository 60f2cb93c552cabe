//! Exact rational numbers of unbounded size.
//!
//! A number is held as two little-endian two's-complement byte strings, the
//! numerator and a positive denominator, and denotes their quotient. The
//! arithmetic itself is done by `num`'s `Ratio<BigInt>`: each operation reads
//! its operands with `BigInt::from_signed_bytes_le`, which takes a byte
//! string for the integer that `signed_le` gives it, builds the ratios with
//! `Ratio::new`, and writes the result back with
//! `BigInt::to_signed_bytes_le`. What those operations return is not proved
//! here but taken from `num`.
use core::ops::{Add, Div, Mul, Sub};
use num::rational::Ratio;
use num::{BigInt, Signed};
use vstd::prelude::*;

pub mod ieee;
pub mod order;

verus! {

/// The integer that a little-endian two's-complement byte string denotes.
/// The empty string denotes zero.
pub open spec fn signed_le(bytes: Seq<u8>) -> int
    decreases bytes.len(),
{
    if bytes.len() == 0 {
        0
    } else if bytes.len() == 1 {
        if bytes[0] < 128 {
            bytes[0] as int
        } else {
            bytes[0] - 256
        }
    } else {
        bytes[0] + 256 * signed_le(bytes.drop_first())
    }
}

/// The quotient of two integers, as a real number.
pub open spec fn quotient(numer: int, denom: int) -> real {
    numer as real / denom as real
}

/// Absolute value of a real number.
pub open spec fn magnitude(x: real) -> real {
    if x < 0real {
        -x
    } else {
        x
    }
}

/// An exact rational number.
#[derive(Debug)]
pub struct ArbitaryNum {
    numer: Vec<u8>,
    denom: Vec<u8>,
}

/// Why an operation on exact numbers has no result.
#[derive(Clone, Copy, Debug, PartialEq, Eq, Structural)]
pub enum DomainError {
    /// The divisor was zero.
    DivisionByZero,
}

impl View for ArbitaryNum {
    type V = real;

    /// The rational number that the two byte strings denote.
    closed spec fn view(&self) -> real {
        quotient(signed_le(self.numer@), signed_le(self.denom@))
    }
}

/// A byte string followed by one more byte: the value of the longer string.
proof fn lemma_signed_le_prepend(first: u8, rest: Seq<u8>)
    requires
        rest.len() > 0,
    ensures
        signed_le(seq![first] + rest) == first + 256 * signed_le(rest),
{
    assert((seq![first] + rest).drop_first() =~= rest);
}

/// Over the denominator 1 the quotient is the numerator itself.
proof fn lemma_quotient_by_one(numer: int)
    ensures
        quotient(numer, 1) == numer as real,
{
    assert(quotient(numer, 1) == numer as real) by (nonlinear_arith);
}

impl ArbitaryNum {
    #[verifier::type_invariant]
    spec fn well_formed(&self) -> bool {
        signed_le(self.denom@) > 0
    }

    /// The number 0.
    pub fn zero() -> (r: Self)
        ensures
            r@ == 0real,
    {
        let r = ArbitaryNum { numer: vec![0u8], denom: vec![1u8] };
        assert(signed_le(r.numer@) == 0 && signed_le(r.denom@) == 1);
        proof {
            lemma_quotient_by_one(0);
        }
        r
    }

    /// The number 1/2.
    pub fn half() -> (r: Self)
        ensures
            r@ == 1real / 2real,
    {
        let r = ArbitaryNum { numer: vec![1u8], denom: vec![2u8] };
        assert(signed_le(r.numer@) == 1 && signed_le(r.denom@) == 2);
        r
    }

    /// The number 1.
    pub fn one() -> (r: Self)
        ensures
            r@ == 1real,
    {
        let r = ArbitaryNum { numer: vec![1u8], denom: vec![1u8] };
        assert(signed_le(r.numer@) == 1 && signed_le(r.denom@) == 1);
        proof {
            lemma_quotient_by_one(1);
        }
        r
    }

    /// The number 2.
    pub fn two() -> (r: Self)
        ensures
            r@ == 2real,
    {
        let r = ArbitaryNum { numer: vec![2u8], denom: vec![1u8] };
        assert(signed_le(r.numer@) == 2 && signed_le(r.denom@) == 1);
        proof {
            lemma_quotient_by_one(2);
        }
        r
    }

    /// The absolute value.
    pub fn abs(self) -> (r: Self)
        ensures
            r@ == magnitude(self@),
    {
        ratio_abs(&self)
    }

    /// The quotient `self / rhs`, or the domain error where `rhs` is zero.
    pub fn checked_div(self, rhs: ArbitaryNum) -> (r: Result<ArbitaryNum, DomainError>)
        ensures
            rhs@ == 0real <==> r == Err::<ArbitaryNum, DomainError>(
                DomainError::DivisionByZero,
            ),
            rhs@ != 0real ==> r.is_ok() && r.unwrap()@ == self@ / rhs@,
    {
        let zero = ArbitaryNum::zero();
        if ratio_eq(&rhs, &zero) {
            Err(DomainError::DivisionByZero)
        } else {
            Ok(ratio_div(&self, &rhs))
        }
    }

    /// Whether the number is below zero.
    pub fn is_negative(&self) -> (r: bool)
        ensures
            r == (self@ < 0real),
    {
        let zero = ArbitaryNum::zero();
        ratio_lt(self, &zero)
    }

    /// Whether the number is below `other`.
    pub fn is_below(&self, other: &ArbitaryNum) -> (r: bool)
        ensures
            r == (self@ < other@),
    {
        ratio_lt(self, other)
    }

    /// The smaller of two numbers.
    pub fn min(self, other: ArbitaryNum) -> (r: ArbitaryNum)
        ensures
            r@ == if other@ < self@ { other@ } else { self@ },
    {
        if ratio_lt(&other, &self) {
            other
        } else {
            self
        }
    }

    /// The numerator and the denominator, each as the little-endian
    /// two's-complement bytes of an integer; the denominator is positive.
    pub fn to_signed_bytes(&self) -> (r: (Vec<u8>, Vec<u8>))
        ensures
            signed_le(r.1@) > 0,
            self@ == quotient(signed_le(r.0@), signed_le(r.1@)),
    {
        proof {
            use_type_invariant(self);
        }
        let numer = self.numer.clone();
        let denom = self.denom.clone();
        assert(numer@ =~= self.numer@ && denom@ =~= self.denom@);
        (numer, denom)
    }

    /// The number that an unsigned 64-bit integer denotes.
    pub fn from_u64(value: u64) -> (r: ArbitaryNum)
        ensures
            r@ == value as real,
    {
        let b0: u8 = (value % 256) as u8;
        let v1: u64 = value / 256;
        let b1: u8 = (v1 % 256) as u8;
        let v2: u64 = v1 / 256;
        let b2: u8 = (v2 % 256) as u8;
        let v3: u64 = v2 / 256;
        let b3: u8 = (v3 % 256) as u8;
        let v4: u64 = v3 / 256;
        let b4: u8 = (v4 % 256) as u8;
        let v5: u64 = v4 / 256;
        let b5: u8 = (v5 % 256) as u8;
        let v6: u64 = v5 / 256;
        let b6: u8 = (v6 % 256) as u8;
        let v7: u64 = v6 / 256;
        let b7: u8 = (v7 % 256) as u8;
        let numer = vec![b0, b1, b2, b3, b4, b5, b6, b7, 0u8];
        let denom = vec![1u8];
        proof {
            let s8 = seq![0u8];
            let s7 = seq![b7] + s8;
            let s6 = seq![b6] + s7;
            let s5 = seq![b5] + s6;
            let s4 = seq![b4] + s5;
            let s3 = seq![b3] + s4;
            let s2 = seq![b2] + s3;
            let s1 = seq![b1] + s2;
            let s0 = seq![b0] + s1;
            assert(signed_le(s8) == 0);
            lemma_signed_le_prepend(b7, s8);
            lemma_signed_le_prepend(b6, s7);
            lemma_signed_le_prepend(b5, s6);
            lemma_signed_le_prepend(b4, s5);
            lemma_signed_le_prepend(b3, s4);
            lemma_signed_le_prepend(b2, s3);
            lemma_signed_le_prepend(b1, s2);
            lemma_signed_le_prepend(b0, s1);
            assert(numer@ =~= s0);
            assert(signed_le(numer@) == value);
            assert(signed_le(denom@) == 1);
            lemma_quotient_by_one(value as int);
        }
        ArbitaryNum { numer, denom }
    }
}

/// `num`'s addition of two `Ratio<BigInt>` (`Add::add`): the result denotes
/// the exact sum, over a positive denominator.
#[verifier::external_body]
fn ratio_add(a: &ArbitaryNum, b: &ArbitaryNum) -> (r: ArbitaryNum)
    ensures
        r.well_formed(),
        r@ == a@ + b@,
{
    let x = Ratio::new(
        BigInt::from_signed_bytes_le(&a.numer),
        BigInt::from_signed_bytes_le(&a.denom),
    );
    let y = Ratio::new(
        BigInt::from_signed_bytes_le(&b.numer),
        BigInt::from_signed_bytes_le(&b.denom),
    );
    let z = x + y;
    ArbitaryNum {
        numer: z.numer().to_signed_bytes_le(),
        denom: z.denom().to_signed_bytes_le(),
    }
}

/// `num`'s subtraction of two `Ratio<BigInt>` (`Sub::sub`): the result
/// denotes the exact difference, over a positive denominator.
#[verifier::external_body]
fn ratio_sub(a: &ArbitaryNum, b: &ArbitaryNum) -> (r: ArbitaryNum)
    ensures
        r.well_formed(),
        r@ == a@ - b@,
{
    let x = Ratio::new(
        BigInt::from_signed_bytes_le(&a.numer),
        BigInt::from_signed_bytes_le(&a.denom),
    );
    let y = Ratio::new(
        BigInt::from_signed_bytes_le(&b.numer),
        BigInt::from_signed_bytes_le(&b.denom),
    );
    let z = x - y;
    ArbitaryNum {
        numer: z.numer().to_signed_bytes_le(),
        denom: z.denom().to_signed_bytes_le(),
    }
}

/// `num`'s multiplication of two `Ratio<BigInt>` (`Mul::mul`): the result
/// denotes the exact product, over a positive denominator.
#[verifier::external_body]
fn ratio_mul(a: &ArbitaryNum, b: &ArbitaryNum) -> (r: ArbitaryNum)
    ensures
        r.well_formed(),
        r@ == a@ * b@,
{
    let x = Ratio::new(
        BigInt::from_signed_bytes_le(&a.numer),
        BigInt::from_signed_bytes_le(&a.denom),
    );
    let y = Ratio::new(
        BigInt::from_signed_bytes_le(&b.numer),
        BigInt::from_signed_bytes_le(&b.denom),
    );
    let z = x * y;
    ArbitaryNum {
        numer: z.numer().to_signed_bytes_le(),
        denom: z.denom().to_signed_bytes_le(),
    }
}

/// `num`'s division of two `Ratio<BigInt>` (`Div::div`): the result denotes
/// the exact quotient, over a positive denominator. `num` panics on a zero
/// divisor, which the precondition leaves out.
#[verifier::external_body]
fn ratio_div(a: &ArbitaryNum, b: &ArbitaryNum) -> (r: ArbitaryNum)
    requires
        b@ != 0real,
    ensures
        r.well_formed(),
        r@ == a@ / b@,
{
    let x = Ratio::new(
        BigInt::from_signed_bytes_le(&a.numer),
        BigInt::from_signed_bytes_le(&a.denom),
    );
    let y = Ratio::new(
        BigInt::from_signed_bytes_le(&b.numer),
        BigInt::from_signed_bytes_le(&b.denom),
    );
    let z = x / y;
    ArbitaryNum {
        numer: z.numer().to_signed_bytes_le(),
        denom: z.denom().to_signed_bytes_le(),
    }
}

/// `num`'s negation of a `Ratio<BigInt>` (`Neg::neg`): the result denotes
/// the number with the opposite sign, over a positive denominator.
#[verifier::external_body]
fn ratio_neg(a: &ArbitaryNum) -> (r: ArbitaryNum)
    ensures
        r.well_formed(),
        r@ == -a@,
{
    let x = Ratio::new(
        BigInt::from_signed_bytes_le(&a.numer),
        BigInt::from_signed_bytes_le(&a.denom),
    );
    let z = -x;
    ArbitaryNum {
        numer: z.numer().to_signed_bytes_le(),
        denom: z.denom().to_signed_bytes_le(),
    }
}

/// `num`'s `Signed::abs` on a `Ratio<BigInt>`: the result denotes the number
/// without its sign, over a positive denominator.
#[verifier::external_body]
fn ratio_abs(a: &ArbitaryNum) -> (r: ArbitaryNum)
    ensures
        r.well_formed(),
        r@ == magnitude(a@),
{
    let x = Ratio::new(
        BigInt::from_signed_bytes_le(&a.numer),
        BigInt::from_signed_bytes_le(&a.denom),
    );
    let z = x.abs();
    ArbitaryNum {
        numer: z.numer().to_signed_bytes_le(),
        denom: z.denom().to_signed_bytes_le(),
    }
}

/// `num`'s `PartialEq::eq` on two `Ratio<BigInt>`: whether the two denote
/// the same rational.
#[verifier::external_body]
fn ratio_eq(a: &ArbitaryNum, b: &ArbitaryNum) -> (r: bool)
    ensures
        r == (a@ == b@),
{
    let x = Ratio::new(
        BigInt::from_signed_bytes_le(&a.numer),
        BigInt::from_signed_bytes_le(&a.denom),
    );
    let y = Ratio::new(
        BigInt::from_signed_bytes_le(&b.numer),
        BigInt::from_signed_bytes_le(&b.denom),
    );
    x == y
}

/// `num`'s `PartialOrd::lt` on two `Ratio<BigInt>`: whether the first
/// denotes a smaller rational than the second.
#[verifier::external_body]
fn ratio_lt(a: &ArbitaryNum, b: &ArbitaryNum) -> (r: bool)
    ensures
        r == (a@ < b@),
{
    let x = Ratio::new(
        BigInt::from_signed_bytes_le(&a.numer),
        BigInt::from_signed_bytes_le(&a.denom),
    );
    let y = Ratio::new(
        BigInt::from_signed_bytes_le(&b.numer),
        BigInt::from_signed_bytes_le(&b.denom),
    );
    x < y
}

impl Clone for ArbitaryNum {
    fn clone(&self) -> (r: Self)
        ensures
            r@ == self@,
    {
        proof {
            use_type_invariant(self);
        }
        let numer = self.numer.clone();
        let denom = self.denom.clone();
        assert(numer@ =~= self.numer@ && denom@ =~= self.denom@);
        ArbitaryNum { numer, denom }
    }
}

impl core::ops::Add for ArbitaryNum {
    type Output = ArbitaryNum;

    fn add(self, rhs: ArbitaryNum) -> (r: ArbitaryNum)
        ensures
            r@ == self@ + rhs@,
    {
        ratio_add(&self, &rhs)
    }
}

impl core::ops::Sub for ArbitaryNum {
    type Output = ArbitaryNum;

    fn sub(self, rhs: ArbitaryNum) -> (r: ArbitaryNum)
        ensures
            r@ == self@ - rhs@,
    {
        ratio_sub(&self, &rhs)
    }
}

impl core::ops::Mul for ArbitaryNum {
    type Output = ArbitaryNum;

    fn mul(self, rhs: ArbitaryNum) -> (r: ArbitaryNum)
        ensures
            r@ == self@ * rhs@,
    {
        ratio_mul(&self, &rhs)
    }
}

impl core::ops::Div for ArbitaryNum {
    type Output = ArbitaryNum;

    fn div(self, rhs: ArbitaryNum) -> (r: ArbitaryNum)
        ensures
            r@ == self@ / rhs@,
    {
        ratio_div(&self, &rhs)
    }
}

impl core::ops::Neg for ArbitaryNum {
    type Output = ArbitaryNum;

    fn neg(self) -> (r: ArbitaryNum)
        ensures
            r@ == -self@,
    {
        ratio_neg(&self)
    }
}

// Two numbers with the same value may differ in their bytes, so the results
// of the operators are stated by value, on the operators themselves.
impl vstd::std_specs::ops::AddSpecImpl for ArbitaryNum {
    open spec fn obeys_add_spec() -> bool {
        false
    }

    open spec fn add_req(self, rhs: ArbitaryNum) -> bool {
        true
    }

    open spec fn add_spec(self, rhs: ArbitaryNum) -> ArbitaryNum {
        choose|r: ArbitaryNum| r@ == self@ + rhs@
    }
}

impl vstd::std_specs::ops::SubSpecImpl for ArbitaryNum {
    open spec fn obeys_sub_spec() -> bool {
        false
    }

    open spec fn sub_req(self, rhs: ArbitaryNum) -> bool {
        true
    }

    open spec fn sub_spec(self, rhs: ArbitaryNum) -> ArbitaryNum {
        choose|r: ArbitaryNum| r@ == self@ - rhs@
    }
}

impl vstd::std_specs::ops::MulSpecImpl for ArbitaryNum {
    open spec fn obeys_mul_spec() -> bool {
        false
    }

    open spec fn mul_req(self, rhs: ArbitaryNum) -> bool {
        true
    }

    open spec fn mul_spec(self, rhs: ArbitaryNum) -> ArbitaryNum {
        choose|r: ArbitaryNum| r@ == self@ * rhs@
    }
}

impl vstd::std_specs::ops::DivSpecImpl for ArbitaryNum {
    open spec fn obeys_div_spec() -> bool {
        false
    }

    /// Division by zero is undefined.
    open spec fn div_req(self, rhs: ArbitaryNum) -> bool {
        rhs@ != 0real
    }

    open spec fn div_spec(self, rhs: ArbitaryNum) -> ArbitaryNum {
        choose|r: ArbitaryNum| r@ == self@ / rhs@
    }
}

impl vstd::std_specs::ops::NegSpecImpl for ArbitaryNum {
    open spec fn obeys_neg_spec() -> bool {
        false
    }

    open spec fn neg_req(self) -> bool {
        true
    }

    open spec fn neg_spec(self) -> ArbitaryNum {
        choose|r: ArbitaryNum| r@ == -self@
    }
}

impl PartialEq for ArbitaryNum {
    fn eq(&self, other: &ArbitaryNum) -> (r: bool) {
        ratio_eq(self, other)
    }
}

impl Eq for ArbitaryNum {}

impl vstd::std_specs::cmp::PartialEqSpecImpl for ArbitaryNum {
    open spec fn obeys_eq_spec() -> bool {
        true
    }

    /// Two numbers are equal where they denote the same rational.
    open spec fn eq_spec(&self, other: &ArbitaryNum) -> bool {
        self@ == other@
    }
}

impl From<u32> for ArbitaryNum {
    fn from(value: u32) -> (r: ArbitaryNum)
        ensures
            r@ == value as real,
    {
        ArbitaryNum::from_u64(value as u64)
    }
}

impl From<i32> for ArbitaryNum {
    fn from(value: i32) -> (r: ArbitaryNum)
        ensures
            r@ == value as real,
    {
        if value >= 0 {
            ArbitaryNum::from_u64(value as u64)
        } else {
            let low: i64 = value as i64;
            ratio_neg(&ArbitaryNum::from_u64((-low) as u64))
        }
    }
}

impl vstd::std_specs::convert::FromSpecImpl<u32> for ArbitaryNum {
    open spec fn obeys_from_spec() -> bool {
        false
    }

    open spec fn from_spec(value: u32) -> ArbitaryNum {
        choose|r: ArbitaryNum| r@ == value as real
    }
}

impl vstd::std_specs::convert::FromSpecImpl<i32> for ArbitaryNum {
    open spec fn obeys_from_spec() -> bool {
        false
    }

    open spec fn from_spec(value: i32) -> ArbitaryNum {
        choose|r: ArbitaryNum| r@ == value as real
    }
}

/// Adding a number and then subtracting it again gives back the number that
/// one started with, exactly.
pub proof fn lemma_add_then_sub(
    a: ArbitaryNum,
    b: ArbitaryNum,
    sum: ArbitaryNum,
    back: ArbitaryNum,
)
    requires
        call_ensures(ArbitaryNum::add, (a, b), sum),
        call_ensures(ArbitaryNum::sub, (sum, b), back),
    ensures
        back@ == a@,
{
}

/// Multiplying by one changes nothing.
pub proof fn lemma_mul_by_one(a: ArbitaryNum, one: ArbitaryNum, product: ArbitaryNum)
    requires
        call_ensures(ArbitaryNum::one, (), one),
        call_ensures(ArbitaryNum::mul, (a, one), product),
    ensures
        product@ == a@,
{
}

/// A number other than zero, divided by itself, is one.
pub proof fn lemma_div_by_self(a: ArbitaryNum, quotient: ArbitaryNum)
    requires
        a@ != 0real,
        call_ensures(ArbitaryNum::div, (a, a), quotient),
    ensures
        quotient@ == 1real,
{
    assert(a@ / a@ == 1real) by (nonlinear_arith)
        requires
            a@ != 0real,
    ;
}

} // verus!
