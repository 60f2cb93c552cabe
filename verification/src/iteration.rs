//! The reference orbit of the point at the center of the view, computed at
//! full precision, and what a frame is drawn from.
use vstd::prelude::*;

use crate::arbitrary_num::ArbitaryNum;
use crate::matrix::{applied, Matrix3};
use crate::DEPTH;

verus! {

/// The reference orbit of the anchor `(x, y)` after `n` steps. It starts at
/// the origin; a step takes `(re, im)` to `(re', im')` with
/// `re' = re² − im + x` and `im' = 2·re'·im + y`.
pub open spec fn orbit(x: real, y: real, n: nat) -> (real, real)
    decreases n,
{
    if n == 0 {
        (0real, 0real)
    } else {
        let before = orbit(x, y, (n - 1) as nat);
        let re = before.0 * before.0 - before.1 + x;
        (re, 2real * re * before.1 + y)
    }
}

/// Whether the two sequences hold the first steps of the orbit of `(x, y)`:
/// the real parts in one, the imaginary parts in the other.
pub open spec fn is_orbit(re: Seq<ArbitaryNum>, im: Seq<ArbitaryNum>, x: real, y: real) -> bool {
    &&& re.len() == im.len()
    &&& forall|i: int|
        0 <= i < re.len() ==> (#[trigger] re[i]@, im[i]@) == orbit(x, y, (i + 1) as nat)
}

/// The orbit of the origin stays at the origin.
pub proof fn lemma_orbit_of_origin(n: nat)
    ensures
        orbit(0real, 0real, n) == (0real, 0real),
    decreases n,
{
    if n > 0 {
        lemma_orbit_of_origin((n - 1) as nat);
    }
}

/// The first `depth` steps of the reference orbit of `anchor`, real parts
/// and imaginary parts.
pub fn iterate(anchor: &(ArbitaryNum, ArbitaryNum), depth: usize) -> (r: (
    Vec<ArbitaryNum>,
    Vec<ArbitaryNum>,
))
    ensures
        r.0@.len() == depth,
        is_orbit(r.0@, r.1@, anchor.0@, anchor.1@),
        anchor.0@ == 0real && anchor.1@ == 0real ==> forall|i: int|
            0 <= i < depth ==> r.0@[i]@ == 0real && r.1@[i]@ == 0real,
{
    let mut re = ArbitaryNum::zero();
    let mut im = ArbitaryNum::zero();
    let mut re_result: Vec<ArbitaryNum> = Vec::new();
    let mut im_result: Vec<ArbitaryNum> = Vec::new();
    let mut i: usize = 0;
    while i < depth
        invariant
            i <= depth,
            re_result@.len() == i,
            is_orbit(re_result@, im_result@, anchor.0@, anchor.1@),
            (re@, im@) == orbit(anchor.0@, anchor.1@, i as nat),
        decreases depth - i,
    {
        re = re.clone() * re.clone() - im.clone() + anchor.0.clone();
        im = ArbitaryNum::two() * re.clone() * im.clone() + anchor.1.clone();
        re_result.push(re.clone());
        im_result.push(im.clone());
        i += 1;
    }
    proof {
        if anchor.0@ == 0real && anchor.1@ == 0real {
            assert forall|k: int| 0 <= k < depth implies re_result@[k]@ == 0real && im_result@[k]@
                == 0real by {
                lemma_orbit_of_origin((k + 1) as nat);
                assert((re_result@[k]@, im_result@[k]@) == orbit(0real, 0real, (k + 1) as nat));
            }
        }
    }
    (re_result, im_result)
}

/// The reference orbit of `anchor`, `DEPTH` steps long.
pub fn compute_iterations(anchor: (ArbitaryNum, ArbitaryNum)) -> (r: (
    Vec<ArbitaryNum>,
    Vec<ArbitaryNum>,
))
    ensures
        r.0@.len() == DEPTH,
        is_orbit(r.0@, r.1@, anchor.0@, anchor.1@),
        anchor.0@ == 0real && anchor.1@ == 0real ==> forall|i: int|
            0 <= i < DEPTH ==> r.0@[i]@ == 0real && r.1@[i]@ == 0real,
{
    iterate(&anchor, DEPTH)
}

/// What one frame is drawn from.
#[derive(Debug)]
pub struct Frame {
    /// The scale of the view along the two axes.
    pub scale: (ArbitaryNum, ArbitaryNum),
    /// The real parts of the reference orbit.
    pub midpoint_iterations_re: Vec<ArbitaryNum>,
    /// The imaginary parts of the reference orbit.
    pub midpoint_iterations_im: Vec<ArbitaryNum>,
}

/// The point at the center of the view: where the transform takes the origin.
pub open spec fn anchor_of(m: Seq<real>) -> (real, real) {
    let p = applied(m, (0real, 0real, 1real));
    (p.0, p.1)
}

/// What a frame under `transform` is drawn from: the scale on the
/// transform's diagonal, and the reference orbit of the point at the center
/// of the view.
pub fn prepare_draw(transform: Matrix3) -> (r: Frame)
    ensures
        r.scale.0@ == transform@[0],
        r.scale.1@ == transform@[4],
        r.midpoint_iterations_re@.len() == DEPTH,
        is_orbit(
            r.midpoint_iterations_re@,
            r.midpoint_iterations_im@,
            anchor_of(transform@).0,
            anchor_of(transform@).1,
        ),
{
    let scale = (transform[0].clone(), transform[4].clone());
    let (midpoint_x, midpoint_y, _) = transform * (
        ArbitaryNum::zero(),
        ArbitaryNum::zero(),
        ArbitaryNum::one(),
    );
    let (midpoint_iterations_re, midpoint_iterations_im) = compute_iterations(
        (midpoint_x, midpoint_y),
    );
    Frame { scale, midpoint_iterations_re, midpoint_iterations_im }
}

} // verus!
