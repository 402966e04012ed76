//! The drag-resize state machine of one split instance.

use vstd::prelude::*;

use crate::axis::Axis;
use crate::ratio::Ratio;

verus! {

/// The captured state of one press-to-release gesture.
///
/// A session exists only while the divider is being dragged; its absence is
/// the idle state.
#[derive(Clone, Copy, PartialEq, Eq, Structural, Debug)]
pub struct DragSession {
    /// Pointer coordinate along the active axis at drag start, in pixels.
    pub anchor_coordinate: i32,
    /// Extent of the first region at drag start, in pixels.
    pub anchor_size: i32,
}

/// The interaction state of one split instance.
///
/// The controller is a two-state machine: idle (no session) and dragging
/// (session present). A press starts a session, a release ends it, and a
/// move while dragging recomputes the ratio from the session's anchor and
/// the cached container extent. The cached extent is refreshed
/// opportunistically: unconditionally on a resize notification, and lazily
/// through [`SplitController::resolve_container`] while it is still zero. It
/// need never be perfectly fresh, only good enough for the next ratio
/// computation.
pub struct SplitController {
    /// The axis this split divides along; fixed at construction.
    pub axis: Axis,
    /// Cached container extent along the axis, in pixels; `0` means unknown.
    pub container_size: i32,
    /// The current split ratio, as the percentage of the container allotted
    /// to the first region.
    pub ratio: Ratio,
    /// The active drag gesture, if any.
    pub session: Option<DragSession>,
}

impl SplitController {
    /// Whether a drag gesture is in progress.
    pub open spec fn spec_is_dragging(self) -> bool {
        self.session is Some
    }

    /// The state after a container-resize notification: only the cached
    /// container extent changes.
    pub open spec fn spec_resize(self, new_size: i32) -> SplitController {
        SplitController { container_size: new_size, ..self }
    }

    /// The state after a lazy container measurement: the measured extent is
    /// taken only while the cached extent is still unknown.
    pub open spec fn spec_resolve(self, measured: i32) -> SplitController {
        if self.container_size == 0 {
            SplitController { container_size: measured, ..self }
        } else {
            self
        }
    }

    /// The state after a press on the divider: a fresh session replaces any
    /// prior one.
    pub open spec fn spec_press(self, pointer_coordinate: i32, sibling_size: i32) -> SplitController {
        SplitController {
            session: Some(
                DragSession {
                    anchor_coordinate: pointer_coordinate,
                    anchor_size: sibling_size,
                },
            ),
            ..self
        }
    }

    /// The ratio a pointer move computes while dragging: the anchor size
    /// plus the pointer's displacement from the anchor, as a percentage of
    /// the container extent. The quotient is kept exact as a rational; a
    /// zero container extent yields the degenerate ratio unchanged.
    pub open spec fn spec_moved_ratio(self, pointer_coordinate: i32) -> Ratio
        recommends
            self.spec_is_dragging(),
    {
        let session = self.session->Some_0;
        Ratio {
            num: ((session.anchor_size + pointer_coordinate - session.anchor_coordinate)
                * 100) as i64,
            den: self.container_size as i64,
        }
    }

    /// The state after a pointer move: a no-op while idle, a recomputed
    /// ratio while dragging.
    pub open spec fn spec_move(self, pointer_coordinate: i32) -> SplitController {
        if self.spec_is_dragging() {
            SplitController { ratio: self.spec_moved_ratio(pointer_coordinate), ..self }
        } else {
            self
        }
    }

    /// The state after the divider is released: the session is discarded and
    /// everything else is kept.
    pub open spec fn spec_release(self) -> SplitController {
        SplitController { session: None, ..self }
    }

    /// A new controller: idle, with the given axis, the given initial ratio
    /// in whole percent, and an unknown container extent.
    pub fn new(axis: Axis, initial_ratio_percent: i64) -> (c: SplitController)
        ensures
            c.axis == axis,
            c.container_size == 0,
            c.ratio == Ratio::spec_from_percent(initial_ratio_percent),
            !c.spec_is_dragging(),
    {
        SplitController {
            axis,
            container_size: 0,
            ratio: Ratio::from_percent(initial_ratio_percent),
            session: None,
        }
    }

    /// The current split ratio.
    pub fn current_ratio(&self) -> (r: Ratio)
        ensures
            r == self.ratio,
    {
        self.ratio
    }

    /// Whether a drag gesture is in progress.
    pub fn is_dragging(&self) -> (r: bool)
        ensures
            r == self.spec_is_dragging(),
    {
        self.session.is_some()
    }

    /// The axis this split divides along.
    pub fn axis(&self) -> (r: Axis)
        ensures
            r == self.axis,
    {
        self.axis
    }

    /// The cached container extent; `0` means not yet measured.
    pub fn container_size(&self) -> (r: i32)
        ensures
            r == self.container_size,
    {
        self.container_size
    }

    /// Whether the container extent is still unknown and should be resolved
    /// through the host's geometry query before the next move.
    pub fn needs_container_measure(&self) -> (r: bool)
        ensures
            r == (self.container_size == 0),
    {
        self.container_size == 0
    }

    /// A container-resize notification: overwrite the cached container
    /// extent. Valid in both states; never touches the ratio or the session.
    pub fn on_container_resize(&mut self, new_size: i32)
        ensures
            *final(self) == old(self).spec_resize(new_size),
            final(self).container_size == new_size,
            final(self).ratio == old(self).ratio,
            final(self).session == old(self).session,
    {
        self.container_size = new_size;
    }

    /// A lazy container measurement: take the measured extent only while the
    /// cached extent is still zero, as a move does before computing a ratio.
    pub fn resolve_container(&mut self, measured: i32)
        ensures
            *final(self) == old(self).spec_resolve(measured),
            old(self).container_size != 0 ==> *final(self) == *old(self),
            old(self).container_size == 0 ==> final(self).container_size == measured,
            final(self).ratio == old(self).ratio,
            final(self).session == old(self).session,
    {
        if self.container_size == 0 {
            self.container_size = measured;
        }
    }

    /// A press on the divider: capture the pointer coordinate and the first
    /// region's current extent as the drag anchor and start dragging. Any
    /// prior session is silently replaced; the ratio is untouched.
    pub fn on_divider_press(&mut self, pointer_coordinate: i32, sibling_size: i32)
        ensures
            *final(self) == old(self).spec_press(pointer_coordinate, sibling_size),
            final(self).spec_is_dragging(),
            final(self).session == Some(
                DragSession { anchor_coordinate: pointer_coordinate, anchor_size: sibling_size },
            ),
            final(self).ratio == old(self).ratio,
            final(self).container_size == old(self).container_size,
    {
        self.session = Some(
            DragSession { anchor_coordinate: pointer_coordinate, anchor_size: sibling_size },
        );
    }

    /// A pointer move. While idle this changes nothing, whatever the
    /// coordinate. While dragging it sets the ratio to `(anchor_size +
    /// delta) * 100 / container_size`, where `delta` is the pointer's
    /// displacement from the anchor coordinate; the value is not clamped,
    /// and a zero container extent passes through as a degenerate ratio.
    pub fn on_pointer_move(&mut self, pointer_coordinate: i32)
        ensures
            *final(self) == old(self).spec_move(pointer_coordinate),
            !old(self).spec_is_dragging() ==> *final(self) == *old(self),
            final(self).session == old(self).session,
            final(self).container_size == old(self).container_size,
            old(self).spec_is_dragging() ==> ({
                let session = old(self).session->Some_0;
                &&& final(self).ratio.num == (session.anchor_size + pointer_coordinate
                    - session.anchor_coordinate) * 100
                &&& final(self).ratio.den == old(self).container_size as int
            }),
    {
        match self.session {
            None => {},
            Some(session) => {
                let delta: i64 = pointer_coordinate as i64 - session.anchor_coordinate as i64;
                let num: i64 = (session.anchor_size as i64 + delta) * 100;
                self.ratio = Ratio { num, den: self.container_size as i64 };
            },
        }
    }

    /// A release of the divider: discard the session and stop dragging. The
    /// ratio and the cached container extent are kept; the host is expected
    /// to follow up with a fresh [`SplitController::on_container_resize`] so
    /// the next drag starts from accurate geometry.
    pub fn on_divider_release(&mut self)
        ensures
            *final(self) == old(self).spec_release(),
            !final(self).spec_is_dragging(),
            final(self).ratio == old(self).ratio,
            final(self).container_size == old(self).container_size,
            final(self).axis == old(self).axis,
    {
        self.session = None;
    }
}

} // verus!
