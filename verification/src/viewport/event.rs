//! Every input event through one door.
use vstd::prelude::*;

use crate::arbitrary_num::ArbitaryNum;
use crate::matrix::scaling;
use crate::viewport::keyboard::{keys_after, KeysHeld};
use crate::viewport::pointer::{
    after_motion, motion_of, point_of, pointers_after, Contact, MotionView, Pinch, PinchView,
    PointerMotion,
};
use crate::viewport::wheel::{after_wheel, wheel_defined, wheel_outcome, WheelOutcome};
use crate::viewport::{ViewportController, ViewportView};

verus! {

/// An event of the input source.
#[derive(Debug)]
pub enum InputEvent {
    /// A key went down; the host's identifier of the key.
    KeyDown(String),
    /// A key went up; the host's identifier of the key.
    KeyUp(String),
    /// A pointer moved to a normalized position.
    PointerMove { id: i32, at: (ArbitaryNum, ArbitaryNum) },
    /// A pointer went down at a normalized position.
    PointerDown { id: i32, at: (ArbitaryNum, ArbitaryNum) },
    /// A pointer went up at a normalized position.
    PointerUp { id: i32, at: (ArbitaryNum, ArbitaryNum) },
    /// A pointer was cancelled or left the surface.
    PointerCancel,
    /// The wheel moved, over a surface of the given extent.
    Wheel { delta_x: ArbitaryNum, delta_y: ArbitaryNum, client_width: i32, client_height: i32 },
    /// The surface has a new size, in pixels.
    Resize { width: i32, height: i32 },
    /// The window got or lost the focus.
    FocusChange,
}

/// What the contracts say of an input event.
pub enum EventView {
    KeyDown(Seq<char>),
    KeyUp(Seq<char>),
    PointerMove { id: i32, at: (real, real) },
    PointerDown { id: i32, at: (real, real) },
    PointerUp { id: i32, at: (real, real) },
    PointerCancel,
    Wheel { delta: (real, real), client: (real, real) },
    Resize { width: real, height: real },
    FocusChange,
}

impl View for InputEvent {
    type V = EventView;

    open spec fn view(&self) -> EventView {
        match self {
            InputEvent::KeyDown(name) => EventView::KeyDown(name@),
            InputEvent::KeyUp(name) => EventView::KeyUp(name@),
            InputEvent::PointerMove { id, at } => EventView::PointerMove {
                id: *id,
                at: point_of(*at),
            },
            InputEvent::PointerDown { id, at } => EventView::PointerDown {
                id: *id,
                at: point_of(*at),
            },
            InputEvent::PointerUp { id, at } => EventView::PointerUp { id: *id, at: point_of(*at) },
            InputEvent::PointerCancel => EventView::PointerCancel,
            InputEvent::Wheel { delta_x, delta_y, client_width, client_height } => {
                EventView::Wheel {
                    delta: (delta_x@, delta_y@),
                    client: (*client_width as real, *client_height as real),
                }
            },
            InputEvent::Resize { width, height } => EventView::Resize {
                width: *width as real,
                height: *height as real,
            },
            InputEvent::FocusChange => EventView::FocusChange,
        }
    }
}

/// What the host has to do after an input event.
#[derive(Debug)]
pub enum Reaction {
    /// Nothing.
    Nothing,
    /// The event is not for the view: leave it to the host's own handling.
    LeaveToHost,
    /// Draw the view at once.
    Draw,
    /// Advance the view at every frame from now on, or stop doing so.
    Animate(bool),
    /// Take the square root of the pinch's radicand, apply the pinch with it
    /// and draw the view.
    Pinch(Pinch),
}

/// What the contracts say of a reaction.
pub enum ReactionView {
    Nothing,
    LeaveToHost,
    Draw,
    Animate(bool),
    Pinch(PinchView),
}

impl View for Reaction {
    type V = ReactionView;

    open spec fn view(&self) -> ReactionView {
        match self {
            Reaction::Nothing => ReactionView::Nothing,
            Reaction::LeaveToHost => ReactionView::LeaveToHost,
            Reaction::Draw => ReactionView::Draw,
            Reaction::Animate(on) => ReactionView::Animate(*on),
            Reaction::Pinch(pinch) => ReactionView::Pinch(pinch@),
        }
    }
}

/// Whether an event divides by nothing but nonzero extents.
pub open spec fn event_defined(before: ViewportView, event: EventView) -> bool {
    match event {
        EventView::Wheel { delta, client } => wheel_defined(before, delta, client),
        EventView::Resize { width, height } => width != 0real,
        _ => true,
    }
}

/// The state after an event in the state `before`.
pub open spec fn after_event(before: ViewportView, event: EventView) -> ViewportView {
    match event {
        EventView::KeyDown(name) => ViewportView {
            keys_held: keys_after(before.keys_held, name, true),
            ..before
        },
        EventView::KeyUp(name) => ViewportView {
            keys_held: keys_after(before.keys_held, name, false),
            ..before
        },
        EventView::PointerMove { id, at } => after_motion(before, id, at),
        EventView::PointerDown { id, at } => ViewportView {
            pointers: pointers_after(before.pointers, id, at, Contact::Press),
            ..before
        },
        EventView::PointerUp { id, at } => ViewportView {
            pointers: pointers_after(before.pointers, id, at, Contact::Release),
            ..before
        },
        EventView::PointerCancel | EventView::FocusChange => ViewportView {
            keys_held: KeysHeld::none(),
            pointers: Seq::empty(),
            ..before
        },
        EventView::Wheel { delta, client } => after_wheel(before, delta, client),
        EventView::Resize { width, height } => ViewportView {
            window_transform: scaling(1real, height / width),
            ..before
        },
    }
}

/// What the host has to do after an event in the state `before`.
pub open spec fn reaction_to(before: ViewportView, event: EventView) -> ReactionView {
    match event {
        EventView::KeyDown(_) | EventView::KeyUp(_) => ReactionView::Animate(
            after_event(before, event).keys_held.any_motion(),
        ),
        EventView::PointerMove { id, at } => match motion_of(before, id, at) {
            MotionView::Hover => ReactionView::Nothing,
            MotionView::Pan => ReactionView::Draw,
            MotionView::Pinch(pinch) => ReactionView::Pinch(pinch),
        },
        EventView::PointerDown { .. } | EventView::PointerUp { .. } => ReactionView::Nothing,
        EventView::PointerCancel | EventView::FocusChange => ReactionView::Animate(false),
        EventView::Wheel { .. } => match wheel_outcome(before) {
            WheelOutcome::Ignored => ReactionView::LeaveToHost,
            WheelOutcome::Idle => ReactionView::Nothing,
            WheelOutcome::Changed => ReactionView::Draw,
        },
        EventView::Resize { .. } => ReactionView::Draw,
    }
}

impl ViewportController {
    /// Whether the view can take the event: whether the event divides by
    /// nothing but nonzero extents.
    pub fn can_take(&self, event: &InputEvent) -> (r: bool)
        ensures
            r == event_defined(self@, event@),
    {
        match event {
            InputEvent::Wheel { delta_x, delta_y, client_width, client_height } => {
                self.wheel_is_defined(delta_x, delta_y, *client_width, *client_height)
            },
            InputEvent::Resize { width, height } => *width != 0,
            _ => true,
        }
    }

    /// Takes an input event: changes the state as the event asks, and says
    /// what the host has to do.
    pub fn handle(&mut self, event: InputEvent) -> (r: Reaction)
        requires
            old(self).wf(),
            event_defined(old(self)@, event@),
        ensures
            final(self).wf(),
            final(self)@ == after_event(old(self)@, event@),
            r@ == reaction_to(old(self)@, event@),
    {
        match event {
            InputEvent::KeyDown(name) => Reaction::Animate(self.key_down(name.as_str())),
            InputEvent::KeyUp(name) => Reaction::Animate(self.key_up(name.as_str())),
            InputEvent::PointerMove { id, at } => match self.pointer_move(id, at) {
                PointerMotion::Hover => Reaction::Nothing,
                PointerMotion::Pan => Reaction::Draw,
                PointerMotion::Pinch(pinch) => Reaction::Pinch(pinch),
            },
            InputEvent::PointerDown { id, at } => {
                self.pointer_down(id, at);
                Reaction::Nothing
            },
            InputEvent::PointerUp { id, at } => {
                self.pointer_up(id, at);
                Reaction::Nothing
            },
            InputEvent::PointerCancel | InputEvent::FocusChange => {
                self.release_all();
                Reaction::Animate(false)
            },
            InputEvent::Wheel { delta_x, delta_y, client_width, client_height } => {
                match self.wheel(delta_x, delta_y, client_width, client_height) {
                    WheelOutcome::Ignored => Reaction::LeaveToHost,
                    WheelOutcome::Idle => Reaction::Nothing,
                    WheelOutcome::Changed => Reaction::Draw,
                }
            },
            InputEvent::Resize { width, height } => {
                self.resize(width, height);
                Reaction::Draw
            },
        }
    }
}

} // verus!
