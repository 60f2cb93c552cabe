//! Affine transforms of the plane, as 3×3 matrices of exact numbers in
//! row-major order.
use vstd::prelude::*;

use crate::arbitrary_num::ArbitaryNum;

pub mod laws;

verus! {

/// The entry of a row-major 3×3 matrix in the given row and column.
pub open spec fn entry(m: Seq<real>, row: int, column: int) -> real {
    m[row * 3 + column]
}

/// A row of a row-major 3×3 matrix.
pub open spec fn row(m: Seq<real>, r: int) -> (real, real, real) {
    (entry(m, r, 0), entry(m, r, 1), entry(m, r, 2))
}

/// A column of a row-major 3×3 matrix.
pub open spec fn column(m: Seq<real>, c: int) -> (real, real, real) {
    (entry(m, 0, c), entry(m, 1, c), entry(m, 2, c))
}

/// The dot product of two triples.
#[verifier::opaque]
pub open spec fn dot(a: (real, real, real), b: (real, real, real)) -> real {
    a.0 * b.0 + a.1 * b.1 + a.2 * b.2
}

/// The matrix product `a · b`: the entry in row `r` and column `c` is the
/// dot product of row `r` of `a` and column `c` of `b`.
pub open spec fn product(a: Seq<real>, b: Seq<real>) -> Seq<real> {
    Seq::new(9, |i: int| dot(row(a, i / 3), column(b, i % 3)))
}

/// The matrix that changes nothing.
pub open spec fn identity_matrix() -> Seq<real> {
    seq![1real, 0real, 0real, 0real, 1real, 0real, 0real, 0real, 1real]
}

/// The matrix that scales by `x` along the first axis and by `y` along the second.
pub open spec fn scaling(x: real, y: real) -> Seq<real> {
    seq![x, 0real, 0real, 0real, y, 0real, 0real, 0real, 1real]
}

/// The matrix that moves every point by `(x, y)`.
pub open spec fn translation(x: real, y: real) -> Seq<real> {
    seq![1real, 0real, x, 0real, 1real, y, 0real, 0real, 1real]
}

/// The matrix applied to a point in homogeneous coordinates.
pub open spec fn applied(m: Seq<real>, p: (real, real, real)) -> (real, real, real) {
    (dot(row(m, 0), p), dot(row(m, 1), p), dot(row(m, 2), p))
}

/// A 3×3 matrix of exact numbers, in row-major order.
#[derive(Debug)]
pub struct Matrix3(pub [ArbitaryNum; 9]);

impl View for Matrix3 {
    type V = Seq<real>;

    /// The nine entries, row by row.
    open spec fn view(&self) -> Seq<real> {
        Seq::new(9, |i: int| self.0[i]@)
    }
}

/// The sum of three products.
fn sum_of_products(
    a0: &ArbitaryNum,
    b0: &ArbitaryNum,
    a1: &ArbitaryNum,
    b1: &ArbitaryNum,
    a2: &ArbitaryNum,
    b2: &ArbitaryNum,
) -> (r: ArbitaryNum)
    ensures
        r@ == dot((a0@, a1@, a2@), (b0@, b1@, b2@)),
{
    reveal(dot);
    a0.clone() * b0.clone() + a1.clone() * b1.clone() + a2.clone() * b2.clone()
}

impl Matrix3 {
    /// The transform that scales by `x` and `y` along the two axes.
    pub fn scale(x: ArbitaryNum, y: ArbitaryNum) -> (r: Self)
        ensures
            r@ == scaling(x@, y@),
    {
        let r = Self(
            [
                x,
                ArbitaryNum::zero(),
                ArbitaryNum::zero(),
                ArbitaryNum::zero(),
                y,
                ArbitaryNum::zero(),
                ArbitaryNum::zero(),
                ArbitaryNum::zero(),
                ArbitaryNum::one(),
            ],
        );
        assert(r@ =~= scaling(x@, y@));
        r
    }

    /// The transform that changes nothing.
    pub fn identity() -> (r: Self)
        ensures
            r@ == identity_matrix(),
    {
        let r = Self(
            [
                ArbitaryNum::one(),
                ArbitaryNum::zero(),
                ArbitaryNum::zero(),
                ArbitaryNum::zero(),
                ArbitaryNum::one(),
                ArbitaryNum::zero(),
                ArbitaryNum::zero(),
                ArbitaryNum::zero(),
                ArbitaryNum::one(),
            ],
        );
        assert(r@ =~= identity_matrix());
        r
    }

    /// The transform that moves every point by `(x, y)`.
    pub fn translate(x: ArbitaryNum, y: ArbitaryNum) -> (r: Self)
        ensures
            r@ == translation(x@, y@),
    {
        let r = Self(
            [
                ArbitaryNum::one(),
                ArbitaryNum::zero(),
                x,
                ArbitaryNum::zero(),
                ArbitaryNum::one(),
                y,
                ArbitaryNum::zero(),
                ArbitaryNum::zero(),
                ArbitaryNum::one(),
            ],
        );
        assert(r@ =~= translation(x@, y@));
        r
    }

    /// Replaces the matrix by its product with `rhs` on the right, so that
    /// `rhs` acts first, in the frame of the transform held so far.
    pub fn mul_assign(&mut self, rhs: Matrix3)
        ensures
            final(self)@ == product(old(self)@, rhs@),
    {
        let r = product_of(self, &rhs);
        *self = r;
    }
}

/// The matrix product of two transforms.
fn product_of(a: &Matrix3, b: &Matrix3) -> (r: Matrix3)
    ensures
        r@ == product(a@, b@),
{
    let r = Matrix3(
        [
            sum_of_products(&a.0[0], &b.0[0], &a.0[1], &b.0[3], &a.0[2], &b.0[6]),
            sum_of_products(&a.0[0], &b.0[1], &a.0[1], &b.0[4], &a.0[2], &b.0[7]),
            sum_of_products(&a.0[0], &b.0[2], &a.0[1], &b.0[5], &a.0[2], &b.0[8]),
            sum_of_products(&a.0[3], &b.0[0], &a.0[4], &b.0[3], &a.0[5], &b.0[6]),
            sum_of_products(&a.0[3], &b.0[1], &a.0[4], &b.0[4], &a.0[5], &b.0[7]),
            sum_of_products(&a.0[3], &b.0[2], &a.0[4], &b.0[5], &a.0[5], &b.0[8]),
            sum_of_products(&a.0[6], &b.0[0], &a.0[7], &b.0[3], &a.0[8], &b.0[6]),
            sum_of_products(&a.0[6], &b.0[1], &a.0[7], &b.0[4], &a.0[8], &b.0[7]),
            sum_of_products(&a.0[6], &b.0[2], &a.0[7], &b.0[5], &a.0[8], &b.0[8]),
        ],
    );
    assert(r@ =~= product(a@, b@));
    r
}

impl core::ops::Mul for Matrix3 {
    type Output = Matrix3;

    fn mul(self, rhs: Matrix3) -> (r: Matrix3)
        ensures
            r@ == product(self@, rhs@),
    {
        product_of(&self, &rhs)
    }
}

impl vstd::std_specs::ops::MulSpecImpl for Matrix3 {
    open spec fn obeys_mul_spec() -> bool {
        false
    }

    open spec fn mul_req(self, rhs: Matrix3) -> bool {
        true
    }

    open spec fn mul_spec(self, rhs: Matrix3) -> Matrix3 {
        choose|r: Matrix3| r@ == product(self@, rhs@)
    }
}

impl core::ops::Mul for &Matrix3 {
    type Output = Matrix3;

    fn mul(self, rhs: &Matrix3) -> (r: Matrix3)
        ensures
            r@ == product(self@, rhs@),
    {
        product_of(self, rhs)
    }
}

impl vstd::std_specs::ops::MulSpecImpl for &Matrix3 {
    open spec fn obeys_mul_spec() -> bool {
        false
    }

    open spec fn mul_req(self, rhs: &Matrix3) -> bool {
        true
    }

    open spec fn mul_spec(self, rhs: &Matrix3) -> Matrix3 {
        choose|r: Matrix3| r@ == product(self@, rhs@)
    }
}

impl core::ops::Mul<&Matrix3> for Matrix3 {
    type Output = Matrix3;

    fn mul(self, rhs: &Matrix3) -> (r: Matrix3)
        ensures
            r@ == product(self@, rhs@),
    {
        product_of(&self, rhs)
    }
}

impl vstd::std_specs::ops::MulSpecImpl<&Matrix3> for Matrix3 {
    open spec fn obeys_mul_spec() -> bool {
        false
    }

    open spec fn mul_req(self, rhs: &Matrix3) -> bool {
        true
    }

    open spec fn mul_spec(self, rhs: &Matrix3) -> Matrix3 {
        choose|r: Matrix3| r@ == product(self@, rhs@)
    }
}

impl core::ops::Mul<Matrix3> for &Matrix3 {
    type Output = Matrix3;

    fn mul(self, rhs: Matrix3) -> (r: Matrix3)
        ensures
            r@ == product(self@, rhs@),
    {
        product_of(self, &rhs)
    }
}

impl vstd::std_specs::ops::MulSpecImpl<Matrix3> for &Matrix3 {
    open spec fn obeys_mul_spec() -> bool {
        false
    }

    open spec fn mul_req(self, rhs: Matrix3) -> bool {
        true
    }

    open spec fn mul_spec(self, rhs: Matrix3) -> Matrix3 {
        choose|r: Matrix3| r@ == product(self@, rhs@)
    }
}

impl core::ops::Mul<(ArbitaryNum, ArbitaryNum, ArbitaryNum)> for Matrix3 {
    type Output = (ArbitaryNum, ArbitaryNum, ArbitaryNum);

    /// The transform applied to a point in homogeneous coordinates.
    fn mul(self, rhs: (ArbitaryNum, ArbitaryNum, ArbitaryNum)) -> (r: (
        ArbitaryNum,
        ArbitaryNum,
        ArbitaryNum,
    ))
        ensures
            (r.0@, r.1@, r.2@) == applied(self@, (rhs.0@, rhs.1@, rhs.2@)),
    {
        (
            sum_of_products(&self.0[0], &rhs.0, &self.0[1], &rhs.1, &self.0[2], &rhs.2),
            sum_of_products(&self.0[3], &rhs.0, &self.0[4], &rhs.1, &self.0[5], &rhs.2),
            sum_of_products(&self.0[6], &rhs.0, &self.0[7], &rhs.1, &self.0[8], &rhs.2),
        )
    }
}

impl vstd::std_specs::ops::MulSpecImpl<(ArbitaryNum, ArbitaryNum, ArbitaryNum)> for Matrix3 {
    open spec fn obeys_mul_spec() -> bool {
        false
    }

    open spec fn mul_req(self, rhs: (ArbitaryNum, ArbitaryNum, ArbitaryNum)) -> bool {
        true
    }

    open spec fn mul_spec(self, rhs: (ArbitaryNum, ArbitaryNum, ArbitaryNum)) -> (
        ArbitaryNum,
        ArbitaryNum,
        ArbitaryNum,
    ) {
        choose|r: (ArbitaryNum, ArbitaryNum, ArbitaryNum)|
            (r.0@, r.1@, r.2@) == applied(self@, (rhs.0@, rhs.1@, rhs.2@))
    }
}

impl core::ops::Index<usize> for Matrix3 {
    type Output = ArbitaryNum;

    /// The entry at a linear offset into the rows.
    fn index(&self, index: usize) -> (r: &ArbitaryNum)
        ensures
            r@ == self@[index as int],
    {
        &self.0[index]
    }
}

impl vstd::std_specs::core::IndexSpecImpl<usize> for Matrix3 {
    open spec fn index_req(&self, index: &usize) -> bool {
        *index < 9
    }
}

impl core::ops::Index<usize> for &Matrix3 {
    type Output = ArbitaryNum;

    /// The entry at a linear offset into the rows.
    fn index(&self, index: usize) -> (r: &ArbitaryNum)
        ensures
            r@ == self@[index as int],
    {
        &self.0[index]
    }
}

impl vstd::std_specs::core::IndexSpecImpl<usize> for &Matrix3 {
    open spec fn index_req(&self, index: &usize) -> bool {
        *index < 9
    }
}

impl core::ops::Index<(usize, usize)> for Matrix3 {
    type Output = ArbitaryNum;

    /// The entry in the given column and row.
    fn index(&self, index: (usize, usize)) -> (r: &ArbitaryNum)
        ensures
            r@ == entry(self@, index.1 as int, index.0 as int),
    {
        &self.0[index.1 * 3 + index.0]
    }
}

impl vstd::std_specs::core::IndexSpecImpl<(usize, usize)> for Matrix3 {
    open spec fn index_req(&self, index: &(usize, usize)) -> bool {
        index.0 < 3 && index.1 < 3
    }
}

impl Clone for Matrix3 {
    fn clone(&self) -> (r: Self)
        ensures
            r@ == self@,
    {
        let r = Matrix3(
            [
                self.0[0].clone(),
                self.0[1].clone(),
                self.0[2].clone(),
                self.0[3].clone(),
                self.0[4].clone(),
                self.0[5].clone(),
                self.0[6].clone(),
                self.0[7].clone(),
                self.0[8].clone(),
            ],
        );
        assert(r@ =~= self@);
        r
    }
}

impl Default for Matrix3 {
    fn default() -> (r: Self)
        ensures
            r@ == identity_matrix(),
    {
        Matrix3::identity()
    }
}

impl From<[ArbitaryNum; 9]> for Matrix3 {
    fn from(value: [ArbitaryNum; 9]) -> (r: Matrix3)
        ensures
            r.0 == value,
    {
        Matrix3(value)
    }
}

impl vstd::std_specs::convert::FromSpecImpl<[ArbitaryNum; 9]> for Matrix3 {
    open spec fn obeys_from_spec() -> bool {
        true
    }

    open spec fn from_spec(value: [ArbitaryNum; 9]) -> Matrix3 {
        Matrix3(value)
    }
}

impl From<Matrix3> for [ArbitaryNum; 9] {
    fn from(value: Matrix3) -> (r: [ArbitaryNum; 9])
        ensures
            r == value.0,
    {
        value.0
    }
}

impl vstd::std_specs::convert::FromSpecImpl<Matrix3> for [ArbitaryNum; 9] {
    open spec fn obeys_from_spec() -> bool {
        true
    }

    open spec fn from_spec(value: Matrix3) -> [ArbitaryNum; 9] {
        value.0
    }
}

impl<'a> From<&'a Matrix3> for &'a [ArbitaryNum; 9] {
    fn from(value: &'a Matrix3) -> (r: &'a [ArbitaryNum; 9])
        ensures
            *r == value.0,
    {
        &value.0
    }
}

impl<'a> vstd::std_specs::convert::FromSpecImpl<&'a Matrix3> for &'a [ArbitaryNum; 9] {
    open spec fn obeys_from_spec() -> bool {
        true
    }

    open spec fn from_spec(value: &'a Matrix3) -> &'a [ArbitaryNum; 9] {
        &value.0
    }
}

impl PartialEq for Matrix3 {
    fn eq(&self, other: &Matrix3) -> (r: bool) {
        let mut i: usize = 0;
        while i < 9
            invariant
                i <= 9,
                forall|k: int| 0 <= k < i ==> self@[k] == other@[k],
            decreases 9 - i,
        {
            if !(self.0[i] == other.0[i]) {
                assert(self@[i as int] != other@[i as int]);
                return false;
            }
            i += 1;
        }
        assert(self@ =~= other@);
        true
    }
}

impl vstd::std_specs::cmp::PartialEqSpecImpl for Matrix3 {
    open spec fn obeys_eq_spec() -> bool {
        true
    }

    /// Two matrices are equal where their entries denote the same numbers.
    open spec fn eq_spec(&self, other: &Matrix3) -> bool {
        self@ == other@
    }
}

} // verus!
