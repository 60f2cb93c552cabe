//! The pointers that touch the view, and the gestures they make.
use core::ops::Neg;
use vstd::prelude::*;

use crate::arbitrary_num::ArbitaryNum;
use crate::matrix::{applied, product, translation, Matrix3};
use crate::viewport::{
    lemma_zoom_keeps_center, scale_about, scaling_about, ViewportController, ViewportView,
};

verus! {

/// A pointer on the surface.
#[derive(Debug)]
pub struct Pointer {
    /// Stays the same while the pointer is in contact.
    pub id: i32,
    /// Where the pointer was last seen, in normalized coordinates.
    pub position: (ArbitaryNum, ArbitaryNum),
    /// Where the pointer went down; `None` while it is not pressed.
    pub down_position: Option<(ArbitaryNum, ArbitaryNum)>,
}

/// What the contracts say of a pointer.
pub struct PointerView {
    pub id: i32,
    pub position: (real, real),
    pub down_position: Option<(real, real)>,
}

/// The point that a pair of exact numbers denotes.
pub open spec fn point_of(p: (ArbitaryNum, ArbitaryNum)) -> (real, real) {
    (p.0@, p.1@)
}

/// The point that an optional pair of exact numbers denotes, if there is one.
pub open spec fn point_if(p: Option<(ArbitaryNum, ArbitaryNum)>) -> Option<(real, real)> {
    match p {
        Some(p) => Some(point_of(p)),
        None => None,
    }
}

impl View for Pointer {
    type V = PointerView;

    open spec fn view(&self) -> PointerView {
        PointerView {
            id: self.id,
            position: point_of(self.position),
            down_position: point_if(self.down_position),
        }
    }
}

impl Clone for Pointer {
    fn clone(&self) -> (r: Self)
        ensures
            r@ == self@,
    {
        Pointer {
            id: self.id,
            position: copy_of(&self.position),
            down_position: match &self.down_position {
                Some(p) => Some(copy_of(p)),
                None => None,
            },
        }
    }
}

/// No two of the pointers share an id.
pub open spec fn distinct_ids(pointers: Seq<PointerView>) -> bool {
    forall|i: int, j: int| 0 <= i < j < pointers.len() ==> pointers[i].id != pointers[j].id
}

/// Whether a pointer with this id is among the pointers.
pub open spec fn has_pointer(pointers: Seq<PointerView>, id: i32) -> bool {
    exists|k: int| 0 <= k < pointers.len() && pointers[k].id == id
}

/// Where the pointer with this id stands among the pointers, if it is there.
pub open spec fn slot_of(pointers: Seq<PointerView>, id: i32) -> int {
    choose|k: int| 0 <= k < pointers.len() && pointers[k].id == id
}

/// What a pointer event reports besides the position.
#[derive(Debug, Clone, Copy, PartialEq, Eq, Structural)]
pub enum Contact {
    /// The pointer went down.
    Press,
    /// The pointer moved.
    Motion,
    /// The pointer went up.
    Release,
}

/// The press-time position of a pointer after an event at `at`: a press
/// records it, a release clears it, a motion keeps what was there (`before`).
pub open spec fn pressed_after(
    before: Option<(real, real)>,
    at: (real, real),
    contact: Contact,
) -> Option<(real, real)> {
    match contact {
        Contact::Press => Some(at),
        Contact::Motion => before,
        Contact::Release => None,
    }
}

/// The pointers after an event for `id` at `at`: a pointer that is known
/// moves there, one that is not is added at the end.
pub open spec fn pointers_after(
    pointers: Seq<PointerView>,
    id: i32,
    at: (real, real),
    contact: Contact,
) -> Seq<PointerView> {
    if has_pointer(pointers, id) {
        let k = slot_of(pointers, id);
        pointers.update(
            k,
            PointerView {
                id,
                position: at,
                down_position: pressed_after(pointers[k].down_position, at, contact),
            },
        )
    } else {
        pointers.push(
            PointerView { id, position: at, down_position: pressed_after(None, at, contact) },
        )
    }
}

/// How far an event at `at` moved the pointer `id`: nothing where the
/// pointer was not known before.
pub open spec fn displacement(pointers: Seq<PointerView>, id: i32, at: (real, real)) -> (
    real,
    real,
) {
    if has_pointer(pointers, id) {
        let was = pointers[slot_of(pointers, id)].position;
        (at.0 - was.0, at.1 - was.1)
    } else {
        (0real, 0real)
    }
}

/// An event for `id` leaves the pointers with one entry for `id`, which is
/// where the event was, and keeps every other entry as it was.
pub proof fn lemma_pointers_after(
    pointers: Seq<PointerView>,
    id: i32,
    at: (real, real),
    contact: Contact,
)
    requires
        distinct_ids(pointers),
    ensures
        ({
            let after = pointers_after(pointers, id, at, contact);
            let slot = slot_of(after, id);
            &&& distinct_ids(after)
            &&& has_pointer(after, id)
            &&& 0 <= slot < after.len()
            &&& after[slot].id == id
            &&& after[slot].position == at
            &&& has_pointer(pointers, id) ==> after.len() == pointers.len() && slot == slot_of(
                pointers,
                id,
            ) && after[slot].down_position == pressed_after(
                pointers[slot].down_position,
                at,
                contact,
            )
            &&& !has_pointer(pointers, id) ==> after.len() == pointers.len() + 1 && slot
                == pointers.len() && after[slot].down_position == pressed_after(None, at, contact)
            &&& forall|k: int|
                0 <= k < pointers.len() && k != slot ==> after[k] == pointers[k]
        }),
{
    let after = pointers_after(pointers, id, at, contact);
    if has_pointer(pointers, id) {
        let k = slot_of(pointers, id);
        assert(after[k].id == id);
    } else {
        assert(after[pointers.len() as int].id == id);
    }
}

/// After a pointer went down, moved and went up, the pointers hold one entry
/// for it, and that entry is not pressed.
pub proof fn lemma_press_move_release(
    pointers: Seq<PointerView>,
    id: i32,
    down_at: (real, real),
    move_at: (real, real),
    up_at: (real, real),
)
    requires
        distinct_ids(pointers),
    ensures
        ({
            let pressed = pointers_after(pointers, id, down_at, Contact::Press);
            let moved = pointers_after(pressed, id, move_at, Contact::Motion);
            let released = pointers_after(moved, id, up_at, Contact::Release);
            &&& distinct_ids(released)
            &&& has_pointer(released, id)
            &&& released[slot_of(released, id)].down_position is None
            &&& moved[slot_of(moved, id)].down_position == Some(down_at)
            &&& pointers.len() == 0 ==> released.len() == 1
        }),
{
    let pressed = pointers_after(pointers, id, down_at, Contact::Press);
    let moved = pointers_after(pressed, id, move_at, Contact::Motion);
    lemma_pointers_after(pointers, id, down_at, Contact::Press);
    lemma_pointers_after(pressed, id, move_at, Contact::Motion);
    lemma_pointers_after(moved, id, up_at, Contact::Release);
}

/// The sign of a number as a factor, with zero counted as positive.
pub open spec fn sign_of(x: real) -> real {
    if x < 0real {
        -1real
    } else {
        1real
    }
}

/// How many of the pointers are pressed.
pub open spec fn press_count(pointers: Seq<PointerView>) -> nat
    decreases pointers.len(),
{
    if pointers.len() == 0 {
        0
    } else {
        press_count(pointers.drop_last()) + if pointers.last().down_position is Some {
            1nat
        } else {
            0nat
        }
    }
}

/// The sum of the press-time positions of the pointers that are pressed.
pub open spec fn press_sum(pointers: Seq<PointerView>) -> (real, real)
    decreases pointers.len(),
{
    if pointers.len() == 0 {
        (0real, 0real)
    } else {
        let rest = press_sum(pointers.drop_last());
        match pointers.last().down_position {
            Some(p) => (rest.0 + p.0, rest.1 + p.1),
            None => rest,
        }
    }
}

/// The centroid of the press-time positions of the pointers that are pressed.
pub open spec fn centroid(pointers: Seq<PointerView>) -> (real, real) {
    let sum = press_sum(pointers);
    let count = press_count(pointers) as real;
    (sum.0 / count, sum.1 / count)
}

/// What the contracts say of a pinch.
pub struct PinchView {
    pub midpoint: (real, real),
    pub along: (real, real),
}

impl PinchView {
    /// The squared length of the movement.
    pub open spec fn radicand(self) -> real {
        self.along.0 * self.along.0 + self.along.1 * self.along.1
    }

    /// The zoom factor of the pinch, given the length `root` of the movement.
    pub open spec fn factor(self, root: real) -> real {
        1real - root * sign_of(self.along.0) * sign_of(self.along.1)
    }
}

/// The pinch that the pointer pressed at `press` makes among `pointers` when
/// it moves by `delta`: around the centroid of the press-time positions, with
/// each component of the movement signed by the side of the centroid on which
/// the pointer went down.
pub open spec fn pinch_of(
    pointers: Seq<PointerView>,
    press: (real, real),
    delta: (real, real),
) -> PinchView {
    let midpoint = centroid(pointers);
    PinchView {
        midpoint,
        along: (
            delta.0 * sign_of(press.0 - midpoint.0),
            delta.1 * sign_of(press.1 - midpoint.1),
        ),
    }
}

/// What the contracts say of the outcome of a pointer's motion.
pub enum MotionView {
    Hover,
    Pan,
    Pinch(PinchView),
}

/// The outcome of the motion of pointer `id` to `at`, in the state `before`.
pub open spec fn motion_of(before: ViewportView, id: i32, at: (real, real)) -> MotionView {
    let pointers = pointers_after(before.pointers, id, at, Contact::Motion);
    match pointers[slot_of(pointers, id)].down_position {
        None => MotionView::Hover,
        Some(press) => if pointers.len() == 1 {
            MotionView::Pan
        } else {
            MotionView::Pinch(pinch_of(pointers, press, displacement(before.pointers, id, at)))
        },
    }
}

/// The state after the motion of pointer `id` to `at`, in the state `before`:
/// the pointer is where it moved to, and a pan has moved the view against the
/// pointer horizontally and with it vertically.
pub open spec fn after_motion(before: ViewportView, id: i32, at: (real, real)) -> ViewportView {
    let delta = displacement(before.pointers, id, at);
    ViewportView {
        pointers: pointers_after(before.pointers, id, at, Contact::Motion),
        viewport_transform: if motion_of(before, id, at) is Pan {
            product(before.viewport_transform, translation(-delta.0, delta.1))
        } else {
            before.viewport_transform
        },
        ..before
    }
}

/// A pinch: several pointers are down and one of them moved.
#[derive(Debug)]
pub struct Pinch {
    /// The centroid of the press-time positions.
    pub midpoint: (ArbitaryNum, ArbitaryNum),
    /// The movement, each component signed by the side of the midpoint on
    /// which the pointer went down.
    pub along: (ArbitaryNum, ArbitaryNum),
}

impl View for Pinch {
    type V = PinchView;

    open spec fn view(&self) -> PinchView {
        PinchView { midpoint: point_of(self.midpoint), along: point_of(self.along) }
    }
}

/// What the motion of a pointer did.
#[derive(Debug)]
pub enum PointerMotion {
    /// The pointer is not pressed: nothing changed but its position.
    Hover,
    /// The only pointer is pressed: the view was panned.
    Pan,
    /// One of several pointers is pressed: the view is to be zoomed by this
    /// pinch, once the length of the movement is known.
    Pinch(Pinch),
}

impl View for PointerMotion {
    type V = MotionView;

    open spec fn view(&self) -> MotionView {
        match self {
            PointerMotion::Hover => MotionView::Hover,
            PointerMotion::Pan => MotionView::Pan,
            PointerMotion::Pinch(p) => MotionView::Pinch(p@),
        }
    }
}

/// Where one pointer is pressed, the count of pressed pointers is not zero.
proof fn lemma_press_count_positive(pointers: Seq<PointerView>, k: int)
    requires
        0 <= k < pointers.len(),
        pointers[k].down_position is Some,
    ensures
        press_count(pointers) > 0,
    decreases pointers.len(),
{
    if k < pointers.len() - 1 {
        lemma_press_count_positive(pointers.drop_last(), k);
    }
}

/// The sign of a number as a factor, with zero counted as positive.
fn sign(x: &ArbitaryNum) -> (r: ArbitaryNum)
    ensures
        r@ == sign_of(x@),
{
    if x.is_negative() {
        ArbitaryNum::one().neg()
    } else {
        ArbitaryNum::one()
    }
}

impl Pinch {
    /// The squared length of the movement: what the zoom factor needs the
    /// square root of.
    pub fn radicand(&self) -> (r: ArbitaryNum)
        ensures
            r@ == self@.radicand(),
    {
        self.along.0.clone() * self.along.0.clone() + self.along.1.clone() * self.along.1.clone()
    }

    /// The zoom factor of the pinch, given the length `root` of the movement.
    pub fn factor(&self, root: ArbitaryNum) -> (r: ArbitaryNum)
        ensures
            r@ == self@.factor(root@),
    {
        ArbitaryNum::one() - root * sign(&self.along.0) * sign(&self.along.1)
    }
}

/// A client coordinate, normalized: a surface that begins at `origin` and
/// is `extent` long is laid onto the interval from -1 to 1, and `client`
/// with it.
pub open spec fn normalized(client: real, origin: real, extent: real) -> real {
    (client - origin) / extent * 2real - 1real
}

/// The normalized position of a client position on a surface that begins at
/// `origin` and is `extent` wide and high.
pub fn extract_pos(
    client: (i32, i32),
    origin: (ArbitaryNum, ArbitaryNum),
    extent: (i32, i32),
) -> (r: (ArbitaryNum, ArbitaryNum))
    requires
        extent.0 != 0,
        extent.1 != 0,
    ensures
        r.0@ == normalized(client.0 as real, origin.0@, extent.0 as real),
        r.1@ == normalized(client.1 as real, origin.1@, extent.1 as real),
{
    (
        (ArbitaryNum::from(client.0) - origin.0) / ArbitaryNum::from(extent.0) * ArbitaryNum::two()
            - ArbitaryNum::one(),
        (ArbitaryNum::from(client.1) - origin.1) / ArbitaryNum::from(extent.1) * ArbitaryNum::two()
            - ArbitaryNum::one(),
    )
}

/// A copy of a pair of numbers.
fn copy_of(p: &(ArbitaryNum, ArbitaryNum)) -> (r: (ArbitaryNum, ArbitaryNum))
    ensures
        point_of(r) == point_of(*p),
{
    (p.0.clone(), p.1.clone())
}

impl ViewportController {
    /// Records an event of the pointer `id` at `at`, creating the pointer
    /// where it is not known. Returns where the pointer stands in the list
    /// and how far it moved.
    fn track(&mut self, id: i32, at: (ArbitaryNum, ArbitaryNum), contact: Contact) -> (r: (
        usize,
        (ArbitaryNum, ArbitaryNum),
    ))
        requires
            old(self).wf(),
        ensures
            final(self).wf(),
            final(self)@ == (ViewportView {
                pointers: pointers_after(old(self)@.pointers, id, point_of(at), contact),
                ..old(self)@
            }),
            r.0 < final(self)@.pointers.len(),
            final(self)@.pointers[r.0 as int].id == id,
            point_of(r.1) == displacement(old(self)@.pointers, id, point_of(at)),
    {
        let ghost before = self@.pointers;
        let ghost here = point_of(at);
        let n = self.pointers.len();
        let mut i: usize = 0;
        while i < n
            invariant
                i <= n,
                n == self.pointers@.len(),
                *self == *old(self),
                before == self@.pointers,
                here == point_of(at),
                distinct_ids(before),
                forall|k: int| 0 <= k < i ==> before[k].id != id,
            decreases n - i,
        {
            if self.pointers[i].id == id {
                let delta = (
                    at.0.clone() - self.pointers[i].position.0.clone(),
                    at.1.clone() - self.pointers[i].position.1.clone(),
                );
                let down_position = match contact {
                    Contact::Press => Some(copy_of(&at)),
                    Contact::Motion => match &self.pointers[i].down_position {
                        Some(p) => Some(copy_of(p)),
                        None => None,
                    },
                    Contact::Release => None,
                };
                let moved = Pointer { id, position: at, down_position };
                proof {
                    assert(before[i as int].id == id);
                    assert(has_pointer(before, id));
                    assert(slot_of(before, id) == i);
                    assert(moved@ == PointerView {
                        id,
                        position: here,
                        down_position: pressed_after(
                            before[i as int].down_position,
                            here,
                            contact,
                        ),
                    });
                }
                self.pointers.set(i, moved);
                proof {
                    assert(self@.pointers =~= pointers_after(before, id, here, contact));
                }
                return (i, delta);
            }
            i += 1;
        }
        let down_position = match contact {
            Contact::Press => Some(copy_of(&at)),
            _ => None,
        };
        self.pointers.push(Pointer { id, position: at, down_position });
        proof {
            assert(!has_pointer(before, id));
            assert(self@.pointers =~= pointers_after(before, id, here, contact));
        }
        (n, (ArbitaryNum::zero(), ArbitaryNum::zero()))
    }

    /// The centroid of the press-time positions of the pointers that are
    /// pressed.
    fn press_centroid(&self) -> (r: (ArbitaryNum, ArbitaryNum))
        requires
            press_count(self@.pointers) > 0,
        ensures
            point_of(r) == centroid(self@.pointers),
    {
        let ghost all = self@.pointers;
        let n = self.pointers.len();
        let mut sum_x = ArbitaryNum::zero();
        let mut sum_y = ArbitaryNum::zero();
        let mut count: usize = 0;
        let mut i: usize = 0;
        assert(all.take(0) =~= Seq::empty());
        while i < n
            invariant
                i <= n,
                n == self.pointers@.len(),
                all == self@.pointers,
                count <= i,
                count == press_count(all.take(i as int)),
                (sum_x@, sum_y@) == press_sum(all.take(i as int)),
            decreases n - i,
        {
            proof {
                assert(all.take(i + 1).drop_last() =~= all.take(i as int));
                assert(all.take(i + 1).last() == self.pointers@[i as int]@);
            }
            match &self.pointers[i].down_position {
                Some(p) => {
                    sum_x = sum_x + p.0.clone();
                    sum_y = sum_y + p.1.clone();
                    count += 1;
                },
                None => {},
            }
            i += 1;
        }
        assert(all.take(n as int) =~= all);
        let total = ArbitaryNum::from_u64(count as u64);
        let total_again = total.clone();
        (sum_x / total, sum_y / total_again)
    }

    /// A pointer moved to `at`. A pointer that is not pressed only moves. The
    /// only pointer, pressed, pans the view. One of several pointers, pressed,
    /// makes a pinch, which `apply_pinch` turns into a zoom.
    pub fn pointer_move(&mut self, id: i32, at: (ArbitaryNum, ArbitaryNum)) -> (r: PointerMotion)
        requires
            old(self).wf(),
        ensures
            final(self).wf(),
            final(self)@ == after_motion(old(self)@, id, point_of(at)),
            r@ == motion_of(old(self)@, id, point_of(at)),
    {
        let (slot, delta) = self.track(id, at, Contact::Motion);
        proof {
            assert(has_pointer(self@.pointers, id));
            assert(slot_of(self@.pointers, id) == slot);
        }
        let press = match &self.pointers[slot].down_position {
            Some(p) => copy_of(p),
            None => {
                return PointerMotion::Hover;
            },
        };
        if self.pointers.len() == 1 {
            let (delta_x, delta_y) = delta;
            self.viewport_transform.mul_assign(Matrix3::translate(delta_x.neg(), delta_y));
            PointerMotion::Pan
        } else {
            proof {
                lemma_press_count_positive(self@.pointers, slot as int);
            }
            let midpoint = self.press_centroid();
            let (delta_x, delta_y) = delta;
            let (press_x, press_y) = press;
            let along = (
                delta_x * sign(&(press_x - midpoint.0.clone())),
                delta_y * sign(&(press_y - midpoint.1.clone())),
            );
            PointerMotion::Pinch(Pinch { midpoint, along })
        }
    }

    /// Zooms the view by a pinch, around its midpoint, given the length
    /// `root` of the pinch's movement.
    pub fn apply_pinch(&mut self, pinch: &Pinch, root: ArbitaryNum)
        ensures
            final(self)@ == (ViewportView {
                viewport_transform: product(
                    old(self)@.viewport_transform,
                    scaling_about(pinch@.midpoint, pinch@.factor(root@)),
                ),
                ..old(self)@
            }),
            applied(
                final(self)@.viewport_transform,
                (pinch@.midpoint.0, pinch@.midpoint.1, 1real),
            ) == applied(
                old(self)@.viewport_transform,
                (pinch@.midpoint.0, pinch@.midpoint.1, 1real),
            ),
    {
        proof {
            lemma_zoom_keeps_center(
                self@.viewport_transform,
                pinch@.midpoint,
                pinch@.factor(root@),
            );
        }
        let factor = pinch.factor(root);
        let step = scale_about(&pinch.midpoint, factor);
        self.viewport_transform.mul_assign(step);
    }

    /// A pointer went down at `at`.
    pub fn pointer_down(&mut self, id: i32, at: (ArbitaryNum, ArbitaryNum))
        requires
            old(self).wf(),
        ensures
            final(self).wf(),
            final(self)@ == (ViewportView {
                pointers: pointers_after(old(self)@.pointers, id, point_of(at), Contact::Press),
                ..old(self)@
            }),
    {
        let _ = self.track(id, at, Contact::Press);
    }

    /// A pointer went up at `at`.
    pub fn pointer_up(&mut self, id: i32, at: (ArbitaryNum, ArbitaryNum))
        requires
            old(self).wf(),
        ensures
            final(self).wf(),
            final(self)@ == (ViewportView {
                pointers: pointers_after(
                    old(self)@.pointers,
                    id,
                    point_of(at),
                    Contact::Release,
                ),
                ..old(self)@
            }),
    {
        let _ = self.track(id, at, Contact::Release);
    }
}

} // verus!
