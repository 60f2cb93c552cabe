use mandelbrot::arbitrary_num::ArbitaryNum;
use mandelbrot::matrix::Matrix3;

#[test]
fn identity_mul() {
    assert_eq!(
        Matrix3::identity() * Matrix3::identity(),
        Matrix3::identity()
    )
}

#[test]
fn mul() {
    assert_eq!(
        Matrix3([
            1.into(),
            2.into(),
            3.into(),
            4.into(),
            5.into(),
            6.into(),
            7.into(),
            8.into(),
            9.into()
        ]) * Matrix3([
            9.into(),
            8.into(),
            7.into(),
            6.into(),
            5.into(),
            4.into(),
            3.into(),
            2.into(),
            1.into(),
        ]),
        Matrix3([
            30.into(),
            24.into(),
            18.into(),
            84.into(),
            69.into(),
            54.into(),
            138.into(),
            114.into(),
            90.into()
        ])
    )
}

#[test]
fn dual_index() {
    assert_eq!(
        Matrix3([
            ArbitaryNum::zero(),
            ArbitaryNum::one(),
            ArbitaryNum::zero(),
            ArbitaryNum::zero(),
            ArbitaryNum::zero(),
            ArbitaryNum::zero(),
            ArbitaryNum::zero(),
            ArbitaryNum::zero(),
            ArbitaryNum::zero()
        ])[(1, 0)],
        ArbitaryNum::one()
    );
    assert_eq!(
        Matrix3([
            ArbitaryNum::zero(),
            ArbitaryNum::zero(),
            ArbitaryNum::zero(),
            ArbitaryNum::zero(),
            ArbitaryNum::zero(),
            ArbitaryNum::one(),
            ArbitaryNum::zero(),
            ArbitaryNum::zero(),
            ArbitaryNum::zero()
        ])[(2, 1)],
        ArbitaryNum::one()
    );
}

fn whole(n: i32) -> ArbitaryNum {
    ArbitaryNum::from(n)
}

fn ratio(n: i32, d: i32) -> ArbitaryNum {
    whole(n) / whole(d)
}

fn counting() -> Matrix3 {
    Matrix3([
        whole(1),
        whole(2),
        whole(3),
        whole(4),
        whole(5),
        whole(6),
        whole(7),
        whole(8),
        whole(9),
    ])
}

#[test]
fn constructors_agree_on_the_identity() {
    assert_eq!(Matrix3::scale(whole(1), whole(1)), Matrix3::identity());
    assert_eq!(Matrix3::translate(whole(0), whole(0)), Matrix3::identity());
    assert_eq!(Matrix3::default(), Matrix3::identity());
    assert_ne!(Matrix3::scale(whole(2), whole(1)), Matrix3::identity());
    assert_ne!(Matrix3::translate(whole(0), whole(1)), Matrix3::identity());
}

#[test]
fn constructors_are_row_major() {
    let s = Matrix3::scale(whole(2), whole(3));
    assert_eq!(
        s,
        Matrix3([
            whole(2),
            whole(0),
            whole(0),
            whole(0),
            whole(3),
            whole(0),
            whole(0),
            whole(0),
            whole(1)
        ])
    );
    let t = Matrix3::translate(whole(5), whole(7));
    assert_eq!(
        t,
        Matrix3([
            whole(1),
            whole(0),
            whole(5),
            whole(0),
            whole(1),
            whole(7),
            whole(0),
            whole(0),
            whole(1)
        ])
    );
}

#[test]
fn identity_is_neutral_on_both_sides() {
    let m = counting();
    assert_eq!(Matrix3::identity() * m.clone(), m);
    assert_eq!(m.clone() * Matrix3::identity(), m);
    let t = Matrix3::translate(ratio(1, 3), ratio(-2, 7));
    assert_eq!(Matrix3::identity() * t.clone(), t);
    assert_eq!(t.clone() * Matrix3::identity(), t);
}

#[test]
fn translating_there_and_back_is_the_identity() {
    assert_eq!(
        Matrix3::translate(ratio(1, 3), whole(-4)) * Matrix3::translate(ratio(-1, 3), whole(4)),
        Matrix3::identity()
    );
}

#[test]
fn scaling_there_and_back_is_the_identity() {
    for s in [whole(2), whole(-3), ratio(1, 7), ratio(-22, 7)] {
        let inverse = ArbitaryNum::one() / s.clone();
        assert_eq!(
            Matrix3::scale(s.clone(), s) * Matrix3::scale(inverse.clone(), inverse),
            Matrix3::identity()
        );
    }
}

#[test]
fn assignment_multiplies_on_the_right() {
    let a = Matrix3::translate(whole(1), whole(0));
    let b = Matrix3::scale(whole(2), whole(2));
    let mut m = a.clone();
    m.mul_assign(b.clone());
    assert_eq!(m, a.clone() * b.clone());
    assert_ne!(m, b.clone() * a.clone());
    // translate then scale keeps the translation, scale then translate
    // scales it.
    assert_eq!(
        m,
        Matrix3([
            whole(2),
            whole(0),
            whole(1),
            whole(0),
            whole(2),
            whole(0),
            whole(0),
            whole(0),
            whole(1)
        ])
    );
    assert_eq!(
        b * a,
        Matrix3([
            whole(2),
            whole(0),
            whole(2),
            whole(0),
            whole(2),
            whole(0),
            whole(0),
            whole(0),
            whole(1)
        ])
    );
}

#[test]
fn product_of_references() {
    let a = counting();
    let b = Matrix3::translate(whole(1), whole(2));
    let expected = a.clone() * b.clone();
    assert_eq!(&a * &b, expected);
    assert_eq!(a.clone() * &b, expected);
    assert_eq!(&a * b.clone(), expected);
    assert_eq!(
        expected,
        Matrix3([
            whole(1),
            whole(2),
            whole(8),
            whole(4),
            whole(5),
            whole(20),
            whole(7),
            whole(8),
            whole(32)
        ])
    );
}

#[test]
fn both_indexings_agree() {
    let m = counting();
    for row in 0..3 {
        for column in 0..3 {
            assert_eq!(m[(column, row)], m[row * 3 + column]);
        }
    }
    assert_eq!(m[0], whole(1));
    assert_eq!(m[5], whole(6));
    assert_eq!(m[8], whole(9));
    assert_eq!(m[(2, 0)], whole(3));
    assert_eq!(m[(0, 2)], whole(7));
}

#[test]
fn transform_of_a_point() {
    let p = counting() * (whole(1), whole(1), whole(1));
    assert_eq!(p, (whole(6), whole(15), whole(24)));
    let moved = Matrix3::translate(whole(3), whole(-2)) * (ratio(1, 2), ratio(1, 2), whole(1));
    assert_eq!(moved, (ratio(7, 2), ratio(-3, 2), whole(1)));
    let scaled = Matrix3::scale(whole(3), whole(-2)) * (ratio(1, 2), ratio(1, 2), whole(1));
    assert_eq!(scaled, (ratio(3, 2), whole(-1), whole(1)));
    let origin = Matrix3::translate(whole(3), whole(-2)) * (whole(0), whole(0), whole(1));
    assert_eq!(origin, (whole(3), whole(-2), whole(1)));
}

#[test]
fn product_acts_right_factor_first() {
    let a = Matrix3::translate(whole(1), whole(0));
    let b = Matrix3::scale(whole(2), whole(2));
    let p = (whole(1), whole(1), whole(1));
    let (x, y, w) = a.clone() * (b.clone() * p.clone());
    assert_eq!((a * b) * p, (x.clone(), y.clone(), w.clone()));
    assert_eq!((x, y, w), (whole(3), whole(2), whole(1)));
}

#[test]
fn from_array_keeps_the_entries() {
    let m = Matrix3::from([
        whole(1),
        whole(2),
        whole(3),
        whole(4),
        whole(5),
        whole(6),
        whole(7),
        whole(8),
        whole(9),
    ]);
    assert_eq!(m, counting());
    assert_eq!(m.clone(), counting());
    assert_ne!(m, Matrix3::identity());
}

#[test]
fn a_matrix_gives_its_entries() {
    let entries: [ArbitaryNum; 9] = counting().into();
    assert_eq!(entries[3], whole(4));
    assert_eq!(Matrix3::from(entries), counting());
    let m = counting();
    let borrowed: &[ArbitaryNum; 9] = (&m).into();
    assert_eq!(borrowed[8], whole(9));
    let by_reference = &m;
    assert_eq!(by_reference[4], whole(5));
}
