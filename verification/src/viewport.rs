//! The state of the view: the accumulated transform and the input that
//! steers it.
use core::ops::Neg;
use vstd::prelude::*;

use crate::arbitrary_num::ArbitaryNum;
use crate::matrix::laws::{
    lemma_dot_with_unit, lemma_product_applies_right_first, lemma_scaling_rows,
    lemma_translation_rows,
};
use crate::matrix::{
    applied, dot, identity_matrix, product, row, scaling, translation, Matrix3,
};
use crate::viewport::keyboard::KeysHeld;
use crate::viewport::pointer::{distinct_ids, point_of, Pointer, PointerView};

pub mod event;
pub mod keyboard;
pub mod pointer;
pub mod wheel;
pub mod window;

verus! {

/// What the contracts say of a view's state.
pub struct ViewportView {
    pub keys_held: KeysHeld,
    pub pointers: Seq<PointerView>,
    pub last_frame_ms: real,
    pub viewport_transform: Seq<real>,
    pub window_transform: Seq<real>,
}

/// The transform that scales by `factor` and leaves `center` where it is.
pub open spec fn scaling_about(center: (real, real), factor: real) -> Seq<real> {
    product(
        product(translation(center.0, center.1), scaling(factor, factor)),
        translation(-center.0, -center.1),
    )
}

/// The transform that scales by `factor` and leaves `center` where it is.
pub fn scale_about(center: &(ArbitaryNum, ArbitaryNum), factor: ArbitaryNum) -> (r: Matrix3)
    ensures
        r@ == scaling_about(point_of(*center), factor@),
{
    let factor_again = factor.clone();
    Matrix3::translate(center.0.clone(), center.1.clone()) * Matrix3::scale(factor, factor_again)
        * Matrix3::translate(center.0.clone().neg(), center.1.clone().neg())
}

/// Scaling about a point leaves that point where it is, whatever the factor.
pub proof fn lemma_scaling_about_fixes_center(center: (real, real), factor: real)
    ensures
        applied(scaling_about(center, factor), (center.0, center.1, 1real)) == (
            center.0,
            center.1,
            1real,
        ),
{
    let p = (center.0, center.1, 1real);
    let origin = (0real, 0real, 1real);
    let there = translation(center.0, center.1);
    let scale = scaling(factor, factor);
    let back = translation(-center.0, -center.1);
    lemma_product_applies_right_first(product(there, scale), back, p);
    lemma_product_applies_right_first(there, scale, applied(back, p));
    assert(applied(back, p) == origin) by {
        lemma_translation_rows(-center.0, -center.1);
        lemma_dot_with_unit(p);
        assert(dot((1real, 0real, -center.0), p) == 0real) by {
            reveal(dot);
        }
        assert(dot((0real, 1real, -center.1), p) == 0real) by {
            reveal(dot);
        }
    }
    assert(applied(scale, origin) == origin) by {
        lemma_dot_with_unit(row(scale, 0));
        lemma_dot_with_unit(row(scale, 1));
        lemma_dot_with_unit(row(scale, 2));
        lemma_scaling_rows(factor, factor);
    }
    assert(applied(there, origin) == p) by {
        lemma_dot_with_unit(row(there, 0));
        lemma_dot_with_unit(row(there, 1));
        lemma_dot_with_unit(row(there, 2));
        lemma_translation_rows(center.0, center.1);
    }
}

/// A zoom about a point, added to any transform, leaves the image of that
/// point where it was.
pub proof fn lemma_zoom_keeps_center(m: Seq<real>, center: (real, real), factor: real)
    requires
        m.len() == 9,
    ensures
        applied(product(m, scaling_about(center, factor)), (center.0, center.1, 1real)) == applied(
            m,
            (center.0, center.1, 1real),
        ),
{
    lemma_product_applies_right_first(
        m,
        scaling_about(center, factor),
        (center.0, center.1, 1real),
    );
    lemma_scaling_about_fixes_center(center, factor);
}

/// The accumulated pan and zoom of the view, and the input that steers it.
#[derive(Debug)]
pub struct ViewportController {
    keys_held: KeysHeld,
    pointers: Vec<Pointer>,
    last_frame_ms: ArbitaryNum,
    viewport_transform: Matrix3,
    window_transform: Matrix3,
}

impl View for ViewportController {
    type V = ViewportView;

    closed spec fn view(&self) -> ViewportView {
        ViewportView {
            keys_held: self.keys_held,
            pointers: Seq::new(self.pointers@.len(), |i: int| self.pointers@[i]@),
            last_frame_ms: self.last_frame_ms@,
            viewport_transform: self.viewport_transform@,
            window_transform: self.window_transform@,
        }
    }
}

impl ViewportController {
    /// The state is well formed: no two tracked pointers share an id.
    pub open spec fn wf(&self) -> bool {
        distinct_ids(self@.pointers)
    }

    /// The keys that are held.
    pub fn keys_held(&self) -> (r: KeysHeld)
        ensures
            r == self@.keys_held,
    {
        self.keys_held
    }

    /// The pointers that are tracked, in the order in which they came.
    pub fn pointers(&self) -> (r: &Vec<Pointer>)
        ensures
            r@.len() == self@.pointers.len(),
            forall|i: int| 0 <= i < r@.len() ==> #[trigger] r@[i]@ == self@.pointers[i],
    {
        &self.pointers
    }

    /// The time of the last frame, in milliseconds.
    pub fn last_frame_ms(&self) -> (r: &ArbitaryNum)
        ensures
            r@ == self@.last_frame_ms,
    {
        &self.last_frame_ms
    }

    /// The accumulated pan and zoom.
    pub fn viewport_transform(&self) -> (r: &Matrix3)
        ensures
            r@ == self@.viewport_transform,
    {
        &self.viewport_transform
    }

    /// The correction for the shape of the window.
    pub fn window_transform(&self) -> (r: &Matrix3)
        ensures
            r@ == self@.window_transform,
    {
        &self.window_transform
    }

    /// The transform to render with: the accumulated one, then the window's.
    pub fn transform(&self) -> (r: Matrix3)
        ensures
            r@ == product(self@.viewport_transform, self@.window_transform),
    {
        &self.viewport_transform * &self.window_transform
    }

    /// Forgets every held key and every pointer.
    pub fn release_all(&mut self)
        ensures
            final(self).wf(),
            final(self)@ == (ViewportView {
                keys_held: KeysHeld::none(),
                pointers: Seq::empty(),
                ..old(self)@
            }),
    {
        self.keys_held = KeysHeld::default();
        self.pointers = Vec::new();
        assert(final(self)@.pointers =~= Seq::empty());
    }

    /// Adapts the window's transform to a surface of `width` by `height`
    /// pixels, so that the picture is not stretched.
    pub fn resize(&mut self, width: i32, height: i32)
        requires
            width != 0,
        ensures
            old(self).wf() ==> final(self).wf(),
            final(self)@ == (ViewportView {
                window_transform: scaling(1real, height as real / width as real),
                ..old(self)@
            }),
    {
        self.window_transform = Matrix3::scale(
            ArbitaryNum::one(),
            ArbitaryNum::from(height) / ArbitaryNum::from(width),
        );
    }
}

impl Clone for ViewportController {
    fn clone(&self) -> (r: Self)
        ensures
            r@ == self@,
    {
        let mut pointers: Vec<Pointer> = Vec::new();
        let mut i: usize = 0;
        while i < self.pointers.len()
            invariant
                i <= self.pointers@.len(),
                pointers@.len() == i,
                forall|k: int| 0 <= k < i ==> pointers@[k]@ == self.pointers@[k]@,
            decreases self.pointers@.len() - i,
        {
            pointers.push(self.pointers[i].clone());
            i += 1;
        }
        let r = ViewportController {
            keys_held: self.keys_held,
            pointers,
            last_frame_ms: self.last_frame_ms.clone(),
            viewport_transform: self.viewport_transform.clone(),
            window_transform: self.window_transform.clone(),
        };
        assert(r@.pointers =~= self@.pointers);
        r
    }
}

impl Default for ViewportController {
    fn default() -> (r: Self)
        ensures
            r.wf(),
            r@ == (ViewportView {
                keys_held: KeysHeld::none(),
                pointers: Seq::empty(),
                last_frame_ms: 0real,
                viewport_transform: identity_matrix(),
                window_transform: identity_matrix(),
            }),
    {
        let r = ViewportController {
            keys_held: KeysHeld::default(),
            pointers: Vec::new(),
            last_frame_ms: ArbitaryNum::zero(),
            viewport_transform: Matrix3::identity(),
            window_transform: Matrix3::identity(),
        };
        assert(r@.pointers =~= Seq::empty());
        r
    }
}

} // verus!
