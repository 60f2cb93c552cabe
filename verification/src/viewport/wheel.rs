//! Zooming and panning with the wheel.
use vstd::prelude::*;

use crate::arbitrary_num::{magnitude, ArbitaryNum};
use crate::matrix::{product, scaling, Matrix3};
use crate::viewport::{scale_about, scaling_about, ViewportController, ViewportView};

verus! {

/// What a wheel event did.
#[derive(Debug, Clone, Copy, PartialEq, Eq, Structural)]
pub enum WheelOutcome {
    /// The control key is held: the event is left to the host, untouched.
    Ignored,
    /// The event was taken, and changed nothing: there is no pointer to zoom
    /// around.
    Idle,
    /// The event was taken and changed the view.
    Changed,
}

/// The step of a wheel event with the shift key held.
pub open spec fn wheel_pan(delta: (real, real), client: (real, real)) -> Seq<real> {
    scaling(delta.0 / client.0 * 2real - 1real, delta.1 / client.1 * 2real - 1real)
}

/// The zoom factor of a wheel event: one plus the larger of the two
/// movements, as a share of the surface along its axis.
pub open spec fn wheel_factor(delta: (real, real), client: (real, real)) -> real {
    1real + if magnitude(delta.0) > magnitude(delta.1) {
        delta.0 / client.0
    } else {
        delta.1 / client.1
    }
}

/// Whether a wheel event divides by nothing but nonzero extents.
pub open spec fn wheel_defined(
    before: ViewportView,
    delta: (real, real),
    client: (real, real),
) -> bool {
    if before.keys_held.ctrl {
        true
    } else if before.keys_held.shift {
        client.0 != 0real && client.1 != 0real
    } else if magnitude(delta.0) > magnitude(delta.1) {
        client.0 != 0real
    } else {
        client.1 != 0real
    }
}

/// What a wheel event does in the state `before`.
pub open spec fn wheel_outcome(before: ViewportView) -> WheelOutcome {
    if before.keys_held.ctrl {
        WheelOutcome::Ignored
    } else if before.keys_held.shift || before.pointers.len() > 0 {
        WheelOutcome::Changed
    } else {
        WheelOutcome::Idle
    }
}

/// The state after a wheel event in the state `before`: with the shift key
/// the view is panned, without it the view is zoomed around the first
/// pointer's position.
pub open spec fn after_wheel(
    before: ViewportView,
    delta: (real, real),
    client: (real, real),
) -> ViewportView {
    if before.keys_held.ctrl {
        before
    } else if before.keys_held.shift {
        ViewportView {
            viewport_transform: product(before.viewport_transform, wheel_pan(delta, client)),
            ..before
        }
    } else if before.pointers.len() > 0 {
        ViewportView {
            viewport_transform: product(
                before.viewport_transform,
                scaling_about(before.pointers[0].position, wheel_factor(delta, client)),
            ),
            ..before
        }
    } else {
        before
    }
}

impl ViewportController {
    /// Whether a wheel event with these values divides by nothing but
    /// nonzero extents, so that `wheel` can take it.
    pub fn wheel_is_defined(
        &self,
        delta_x: &ArbitaryNum,
        delta_y: &ArbitaryNum,
        client_width: i32,
        client_height: i32,
    ) -> (r: bool)
        ensures
            r == wheel_defined(
                self@,
                (delta_x@, delta_y@),
                (client_width as real, client_height as real),
            ),
    {
        if self.keys_held.ctrl {
            true
        } else if self.keys_held.shift {
            client_width != 0 && client_height != 0
        } else if delta_y.clone().abs().is_below(&delta_x.clone().abs()) {
            client_width != 0
        } else {
            client_height != 0
        }
    }

    /// The wheel moved by `delta_x` and `delta_y` over a surface of
    /// `client_width` by `client_height`.
    pub fn wheel(
        &mut self,
        delta_x: ArbitaryNum,
        delta_y: ArbitaryNum,
        client_width: i32,
        client_height: i32,
    ) -> (r: WheelOutcome)
        requires
            wheel_defined(
                old(self)@,
                (delta_x@, delta_y@),
                (client_width as real, client_height as real),
            ),
        ensures
            final(self)@ == after_wheel(
                old(self)@,
                (delta_x@, delta_y@),
                (client_width as real, client_height as real),
            ),
            r == wheel_outcome(old(self)@),
    {
        if self.keys_held.ctrl {
            return WheelOutcome::Ignored;
        }
        if self.keys_held.shift {
            let width = ArbitaryNum::from(client_width);
            let height = ArbitaryNum::from(client_height);
            let step = Matrix3::scale(
                delta_x / width * ArbitaryNum::two() - ArbitaryNum::one(),
                delta_y / height * ArbitaryNum::two() - ArbitaryNum::one(),
            );
            self.viewport_transform.mul_assign(step);
            return WheelOutcome::Changed;
        }
        let horizontal = delta_y.clone().abs().is_below(&delta_x.clone().abs());
        let factor = ArbitaryNum::one() + if horizontal {
            delta_x / ArbitaryNum::from(client_width)
        } else {
            delta_y / ArbitaryNum::from(client_height)
        };
        if self.pointers.len() == 0 {
            return WheelOutcome::Idle;
        }
        let step = scale_about(&self.pointers[0].position, factor);
        self.viewport_transform.mul_assign(step);
        WheelOutcome::Changed
    }
}

} // verus!
