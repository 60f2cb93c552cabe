//! What holds of the product of transforms.
use vstd::prelude::*;

use crate::matrix::{
    applied, column, dot, identity_matrix, product, row, scaling, translation,
};

verus! {

/// Scaling by one and moving by nothing are both the identity.
pub proof fn lemma_unit_steps_are_the_identity()
    ensures
        scaling(1real, 1real) == identity_matrix(),
        translation(0real, 0real) == identity_matrix(),
{
    assert(scaling(1real, 1real) =~= identity_matrix());
    assert(translation(0real, 0real) =~= identity_matrix());
}

/// The dot product with a triple of two zeros and a one picks a component.
pub proof fn lemma_dot_with_unit(v: (real, real, real))
    ensures
        dot((1real, 0real, 0real), v) == v.0,
        dot((0real, 1real, 0real), v) == v.1,
        dot((0real, 0real, 1real), v) == v.2,
        dot(v, (1real, 0real, 0real)) == v.0,
        dot(v, (0real, 1real, 0real)) == v.1,
        dot(v, (0real, 0real, 1real)) == v.2,
{
    reveal(dot);
    let (x, y, z) = v;
    assert(1real * x + 0real * y + 0real * z == x) by (nonlinear_arith);
    assert(0real * x + 1real * y + 0real * z == y) by (nonlinear_arith);
    assert(0real * x + 0real * y + 1real * z == z) by (nonlinear_arith);
    assert(x * 1real + y * 0real + z * 0real == x) by (nonlinear_arith);
    assert(x * 0real + y * 1real + z * 0real == y) by (nonlinear_arith);
    assert(x * 0real + y * 0real + z * 1real == z) by (nonlinear_arith);
}

/// The rows and columns of the identity.
proof fn lemma_identity_rows()
    ensures
        row(identity_matrix(), 0) == (1real, 0real, 0real),
        row(identity_matrix(), 1) == (0real, 1real, 0real),
        row(identity_matrix(), 2) == (0real, 0real, 1real),
        column(identity_matrix(), 0) == (1real, 0real, 0real),
        column(identity_matrix(), 1) == (0real, 1real, 0real),
        column(identity_matrix(), 2) == (0real, 0real, 1real),
{
}

/// The identity is neutral on the left.
proof fn lemma_identity_on_the_left(m: Seq<real>)
    requires
        m.len() == 9,
    ensures
        product(identity_matrix(), m) == m,
{
    let i = identity_matrix();
    lemma_identity_rows();
    assert(product(i, m)[0] == m[0]) by {
        lemma_dot_with_unit(column(m, 0));
    }
    assert(product(i, m)[1] == m[1]) by {
        lemma_dot_with_unit(column(m, 1));
    }
    assert(product(i, m)[2] == m[2]) by {
        lemma_dot_with_unit(column(m, 2));
    }
    assert(product(i, m)[3] == m[3]) by {
        lemma_dot_with_unit(column(m, 0));
    }
    assert(product(i, m)[4] == m[4]) by {
        lemma_dot_with_unit(column(m, 1));
    }
    assert(product(i, m)[5] == m[5]) by {
        lemma_dot_with_unit(column(m, 2));
    }
    assert(product(i, m)[6] == m[6]) by {
        lemma_dot_with_unit(column(m, 0));
    }
    assert(product(i, m)[7] == m[7]) by {
        lemma_dot_with_unit(column(m, 1));
    }
    assert(product(i, m)[8] == m[8]) by {
        lemma_dot_with_unit(column(m, 2));
    }
    assert(product(i, m) =~= m);
}

/// The identity is neutral on the right.
proof fn lemma_identity_on_the_right(m: Seq<real>)
    requires
        m.len() == 9,
    ensures
        product(m, identity_matrix()) == m,
{
    let i = identity_matrix();
    lemma_identity_rows();
    assert(product(m, i)[0] == m[0]) by {
        lemma_dot_with_unit(row(m, 0));
    }
    assert(product(m, i)[1] == m[1]) by {
        lemma_dot_with_unit(row(m, 0));
    }
    assert(product(m, i)[2] == m[2]) by {
        lemma_dot_with_unit(row(m, 0));
    }
    assert(product(m, i)[3] == m[3]) by {
        lemma_dot_with_unit(row(m, 1));
    }
    assert(product(m, i)[4] == m[4]) by {
        lemma_dot_with_unit(row(m, 1));
    }
    assert(product(m, i)[5] == m[5]) by {
        lemma_dot_with_unit(row(m, 1));
    }
    assert(product(m, i)[6] == m[6]) by {
        lemma_dot_with_unit(row(m, 2));
    }
    assert(product(m, i)[7] == m[7]) by {
        lemma_dot_with_unit(row(m, 2));
    }
    assert(product(m, i)[8] == m[8]) by {
        lemma_dot_with_unit(row(m, 2));
    }
    assert(product(m, i) =~= m);
}

/// The identity is neutral for the product, on either side.
pub proof fn lemma_identity_is_neutral(m: Seq<real>)
    requires
        m.len() == 9,
    ensures
        product(identity_matrix(), m) == m,
        product(m, identity_matrix()) == m,
{
    lemma_identity_on_the_left(m);
    lemma_identity_on_the_right(m);
}

/// The rows and columns of a translation.
pub proof fn lemma_translation_rows(x: real, y: real)
    ensures
        row(translation(x, y), 0) == (1real, 0real, x),
        row(translation(x, y), 1) == (0real, 1real, y),
        row(translation(x, y), 2) == (0real, 0real, 1real),
        column(translation(x, y), 0) == (1real, 0real, 0real),
        column(translation(x, y), 1) == (0real, 1real, 0real),
        column(translation(x, y), 2) == (x, y, 1real),
{
}

/// The rows and columns of a scaling.
pub proof fn lemma_scaling_rows(x: real, y: real)
    ensures
        row(scaling(x, y), 0) == (x, 0real, 0real),
        row(scaling(x, y), 1) == (0real, y, 0real),
        row(scaling(x, y), 2) == (0real, 0real, 1real),
        column(scaling(x, y), 0) == (x, 0real, 0real),
        column(scaling(x, y), 1) == (0real, y, 0real),
        column(scaling(x, y), 2) == (0real, 0real, 1real),
{
}

/// Moving by `(x, y)` and back again changes nothing.
pub proof fn lemma_translate_and_back(x: real, y: real)
    ensures
        product(translation(x, y), translation(-x, -y)) == identity_matrix(),
{
    let there = translation(x, y);
    let back = translation(-x, -y);
    let i = identity_matrix();
    lemma_translation_rows(x, y);
    lemma_translation_rows(-x, -y);
    lemma_dot_with_unit(row(there, 0));
    lemma_dot_with_unit(row(there, 1));
    lemma_dot_with_unit(row(there, 2));
    lemma_dot_with_unit(column(back, 2));
    assert(dot((1real, 0real, x), (-x, -y, 1real)) == 0real) by {
        reveal(dot);
    }
    assert(dot((0real, 1real, y), (-x, -y, 1real)) == 0real) by {
        reveal(dot);
    }
    let p = product(there, back);
    assert(p[0] == i[0] && p[1] == i[1] && p[2] == i[2]);
    assert(p[3] == i[3] && p[4] == i[4] && p[5] == i[5]);
    assert(p[6] == i[6] && p[7] == i[7] && p[8] == i[8]);
    assert(p =~= i);
}

/// Scaling by `s` and then by `1/s` changes nothing, where `s` is not zero.
pub proof fn lemma_scale_and_back(s: real)
    requires
        s != 0real,
    ensures
        product(scaling(s, s), scaling(1real / s, 1real / s)) == identity_matrix(),
{
    let t = 1real / s;
    let there = scaling(s, s);
    let back = scaling(t, t);
    let i = identity_matrix();
    lemma_scaling_rows(s, s);
    lemma_scaling_rows(t, t);
    lemma_dot_with_unit(row(there, 0));
    lemma_dot_with_unit(row(there, 1));
    lemma_dot_with_unit(row(there, 2));
    assert(s * t == 1real) by (nonlinear_arith)
        requires
            s != 0real,
            t == 1real / s,
    ;
    assert(dot((s, 0real, 0real), (t, 0real, 0real)) == 1real) by {
        reveal(dot);
    }
    assert(dot((s, 0real, 0real), (0real, t, 0real)) == 0real) by {
        reveal(dot);
    }
    assert(dot((0real, s, 0real), (t, 0real, 0real)) == 0real) by {
        reveal(dot);
    }
    assert(dot((0real, s, 0real), (0real, t, 0real)) == 1real) by {
        reveal(dot);
    }
    assert(dot((0real, 0real, 1real), (t, 0real, 0real)) == 0real) by {
        reveal(dot);
    }
    assert(dot((0real, 0real, 1real), (0real, t, 0real)) == 0real) by {
        reveal(dot);
    }
    let p = product(there, back);
    assert(p[0] == i[0] && p[1] == i[1] && p[2] == i[2]);
    assert(p[3] == i[3] && p[4] == i[4] && p[5] == i[5]);
    assert(p[6] == i[6] && p[7] == i[7] && p[8] == i[8]);
    assert(p =~= i);
}

/// A product of three numbers, bracketed either way.
proof fn lemma_times_times(u: real, a: real, p: real)
    ensures
        (u * a) * p == u * (a * p),
{
    assert((u * a) * p == u * (a * p)) by (nonlinear_arith);
}

/// A sum of three, times a number.
proof fn lemma_sum_times_one(x: real, y: real, z: real, p: real)
    ensures
        (x + y + z) * p == x * p + y * p + z * p,
{
    assert((x + y + z) * p == x * p + y * p + z * p) by (nonlinear_arith);
}

/// A sum of three products, times a number.
proof fn lemma_sum_times(u0: real, u1: real, u2: real, a: real, b: real, c: real, p: real)
    ensures
        (u0 * a + u1 * b + u2 * c) * p == u0 * (a * p) + u1 * (b * p) + u2 * (c * p),
{
    lemma_sum_times_one(u0 * a, u1 * b, u2 * c, p);
    lemma_times_times(u0, a, p);
    lemma_times_times(u1, b, p);
    lemma_times_times(u2, c, p);
}

/// A number times a sum of three.
proof fn lemma_times_sum(u: real, x: real, y: real, z: real)
    ensures
        u * (x + y + z) == u * x + u * y + u * z,
{
    assert(u * (x + y + z) == u * x + u * y + u * z) by (nonlinear_arith);
}

/// A triple times a matrix times a triple, bracketed either way.
proof fn lemma_dot_through(
    u: (real, real, real),
    r0: (real, real, real),
    r1: (real, real, real),
    r2: (real, real, real),
    p: (real, real, real),
)
    ensures
        dot(
            (
                dot(u, (r0.0, r1.0, r2.0)),
                dot(u, (r0.1, r1.1, r2.1)),
                dot(u, (r0.2, r1.2, r2.2)),
            ),
            p,
        ) == dot(u, (dot(r0, p), dot(r1, p), dot(r2, p))),
{
    reveal(dot);
    lemma_sum_times(u.0, u.1, u.2, r0.0, r1.0, r2.0, p.0);
    lemma_sum_times(u.0, u.1, u.2, r0.1, r1.1, r2.1, p.1);
    lemma_sum_times(u.0, u.1, u.2, r0.2, r1.2, r2.2, p.2);
    lemma_times_sum(u.0, r0.0 * p.0, r0.1 * p.1, r0.2 * p.2);
    lemma_times_sum(u.1, r1.0 * p.0, r1.1 * p.1, r1.2 * p.2);
    lemma_times_sum(u.2, r2.0 * p.0, r2.1 * p.1, r2.2 * p.2);
}

/// Applying a product to a point is applying the right factor first, then
/// the left.
pub proof fn lemma_product_applies_right_first(a: Seq<real>, b: Seq<real>, p: (real, real, real))
    requires
        a.len() == 9,
        b.len() == 9,
    ensures
        applied(product(a, b), p) == applied(a, applied(b, p)),
{
    lemma_dot_through(row(a, 0), row(b, 0), row(b, 1), row(b, 2), p);
    lemma_dot_through(row(a, 1), row(b, 0), row(b, 1), row(b, 2), p);
    lemma_dot_through(row(a, 2), row(b, 0), row(b, 1), row(b, 2), p);
    let c = product(a, b);
    assert(row(c, 0) == (
        dot(row(a, 0), column(b, 0)),
        dot(row(a, 0), column(b, 1)),
        dot(row(a, 0), column(b, 2)),
    ));
    assert(row(c, 1) == (
        dot(row(a, 1), column(b, 0)),
        dot(row(a, 1), column(b, 1)),
        dot(row(a, 1), column(b, 2)),
    ));
    assert(row(c, 2) == (
        dot(row(a, 2), column(b, 0)),
        dot(row(a, 2), column(b, 1)),
        dot(row(a, 2), column(b, 2)),
    ));
}

} // verus!
