//! Steering the view with held keys, one step per frame.
use core::ops::Neg;
use vstd::prelude::*;

use crate::arbitrary_num::ArbitaryNum;
use crate::matrix::{entry, product, translation, Matrix3};
use crate::viewport::keyboard::KeysHeld;
use crate::viewport::{scale_about, scaling_about, ViewportController, ViewportView};

verus! {

/// The size of one frame's step after `elapsed` milliseconds: a five
/// hundredth of the time, which counts for no more than a hundred
/// milliseconds.
pub open spec fn tick_step(elapsed: real) -> real {
    (if elapsed < 100real {
        elapsed
    } else {
        100real
    }) / 500real
}

/// The point that the keys zoom around: the entries in the first two columns
/// of the transform's last row.
pub open spec fn zoom_center(m: Seq<real>) -> (real, real) {
    (entry(m, 2, 0), entry(m, 2, 1))
}

/// The transform after a zoom by `factor` around its zoom center.
pub open spec fn zoomed(m: Seq<real>, factor: real) -> Seq<real> {
    product(m, scaling_about(zoom_center(m), factor))
}

/// The transform after one frame's steps of size `step` for the keys that
/// are held, in this order: zoom in, zoom out, left, right, up, down.
pub open spec fn steered(m: Seq<real>, keys: KeysHeld, step: real) -> Seq<real> {
    let m1 = if keys.plus {
        zoomed(m, 1real - step)
    } else {
        m
    };
    let m2 = if keys.minus {
        zoomed(m1, 1real + step)
    } else {
        m1
    };
    let m3 = if keys.left {
        product(m2, translation(-step, 0real))
    } else {
        m2
    };
    let m4 = if keys.right {
        product(m3, translation(step, 0real))
    } else {
        m3
    };
    let m5 = if keys.up {
        product(m4, translation(0real, step))
    } else {
        m4
    };
    if keys.down {
        product(m5, translation(0real, -step))
    } else {
        m5
    }
}

/// The state after the frame at `now` milliseconds, in the state `before`.
pub open spec fn after_tick(before: ViewportView, now: real) -> ViewportView {
    ViewportView {
        last_frame_ms: now,
        viewport_transform: steered(
            before.viewport_transform,
            before.keys_held,
            tick_step(now - before.last_frame_ms),
        ),
        ..before
    }
}

/// However long the last frame is ago, a step is no larger than a fifth.
pub proof fn lemma_tick_step_is_capped(elapsed: real)
    ensures
        tick_step(elapsed) <= 1real / 5real,
        elapsed >= 100real ==> tick_step(elapsed) == 1real / 5real,
        elapsed < 100real ==> tick_step(elapsed) == elapsed / 500real,
{
}

/// With the key to the right held and no other, a frame moves the view to
/// the right by the frame's step.
pub proof fn lemma_right_key_pans(before: ViewportView, now: real)
    requires
        before.keys_held == (KeysHeld { right: true, ..KeysHeld::none() }),
    ensures
        after_tick(before, now).viewport_transform == product(
            before.viewport_transform,
            translation(tick_step(now - before.last_frame_ms), 0real),
        ),
{
}

impl ViewportController {
    /// Zooms by `factor` around the transform's zoom center.
    fn zoom(&mut self, factor: ArbitaryNum)
        ensures
            final(self)@ == (ViewportView {
                viewport_transform: zoomed(old(self)@.viewport_transform, factor@),
                ..old(self)@
            }),
    {
        let center = (
            self.viewport_transform[(0, 2)].clone(),
            self.viewport_transform[(1, 2)].clone(),
        );
        let step = scale_about(&center, factor);
        self.viewport_transform.mul_assign(step);
    }

    /// Advances the view by one frame, at `now` milliseconds: each held key
    /// zooms or pans by a step that grows with the time since the last frame.
    /// Returns whether a key was held, so that the view changed and has to be
    /// advanced again at the next frame.
    pub fn animate(&mut self, now: ArbitaryNum) -> (r: bool)
        ensures
            final(self)@ == after_tick(old(self)@, now@),
            r == old(self)@.keys_held.any_motion(),
    {
        let step = ArbitaryNum::from(100u32).min(now.clone() - self.last_frame_ms.clone())
            / ArbitaryNum::from(500u32);
        self.last_frame_ms = now;
        let keys = self.keys_held;
        if keys.plus {
            self.zoom(ArbitaryNum::one() - step.clone());
        }
        if keys.minus {
            self.zoom(ArbitaryNum::one() + step.clone());
        }
        if keys.left {
            self.viewport_transform.mul_assign(
                Matrix3::translate(step.clone().neg(), ArbitaryNum::zero()),
            );
        }
        if keys.right {
            self.viewport_transform.mul_assign(
                Matrix3::translate(step.clone(), ArbitaryNum::zero()),
            );
        }
        if keys.up {
            self.viewport_transform.mul_assign(
                Matrix3::translate(ArbitaryNum::zero(), step.clone()),
            );
        }
        if keys.down {
            self.viewport_transform.mul_assign(
                Matrix3::translate(ArbitaryNum::zero(), step.clone().neg()),
            );
        }
        keys.in_motion()
    }
}

} // verus!
