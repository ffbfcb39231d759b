//! The decisions of a scrollable mask: an element laid over a scroll
//! viewport that listens to the mouse wheel and scrolls one axis.
//!
//! The element itself (layout, hit box, painting, the scroll handle it
//! moves) belongs to the UI toolkit. What the mask decides for each wheel
//! event is here, in two steps:
//!
//! 1. [`ScrollableMask::scroll_wheel`]: whether the event is the mask's to
//!    handle at all, and by how much to move the scroll offset along the
//!    mask's axis. Only the capture phase is handled, so that the mask wins
//!    over ancestor scrollers that register their listeners after their
//!    children; an occluded mask (below a dialog or a menu) stays inert.
//!    When a trackpad reports movement on both axes, only the axis that moved
//!    more is kept.
//! 2. [`finish_wheel`]: given the offset before and after the move, whether
//!    the event is consumed (the offset is stored, the view is notified and
//!    propagation stops) or left to propagate to the parent scroller.
//!
//! Between the two, the caller adds the amount to the offset.
use vstd::prelude::*;
use crate::pixels::{Pixels, Point, abs_greater, is_nan, is_zero, points_equal, lemma_numbers_equal_reflexive};

verus! {

/// A scroll axis.
#[derive(Clone, Copy, Debug, PartialEq, Eq, Structural)]
pub enum Axis {
    Vertical,
    Horizontal,
}

impl Axis {
    pub fn is_horizontal(&self) -> (r: bool)
        ensures
            r == (*self == Axis::Horizontal),
    {
        match self {
            Axis::Horizontal => true,
            Axis::Vertical => false,
        }
    }
}

/// The phase in which an event listener runs: capture runs from the root
/// down to the target, bubble from the target back up.
#[derive(Clone, Copy, Debug, PartialEq, Eq, Structural)]
pub enum DispatchPhase {
    Bubble,
    Capture,
}

impl DispatchPhase {
    pub fn capture(&self) -> (r: bool)
        ensures
            r == (*self == DispatchPhase::Capture),
    {
        match self {
            DispatchPhase::Capture => true,
            DispatchPhase::Bubble => false,
        }
    }
}

/// What the mask does with a wheel event, before the offset is moved.
#[derive(Clone, Copy, Debug)]
pub enum WheelStep {
    /// The event is not the mask's: leave it alone.
    Ignore,
    /// Add this amount to the scroll offset along the mask's axis.
    ScrollBy(Pixels),
}

/// What becomes of a wheel event once the offset has been moved.
#[derive(Clone, Copy, Debug, PartialEq, Eq, Structural)]
pub enum WheelOutcome {
    /// The offset did not change: the event goes on to the parent scroller.
    Propagate,
    /// The offset changed: store it, notify the view, stop propagation.
    Consume,
}

/// A wheel delta reduced to its dominant axis: where both components are
/// non-zero, the one of smaller magnitude becomes (positive) zero, and on a
/// tie, or where a magnitude cannot be compared, the vertical one is kept.
pub open spec fn dominant_delta_of(delta: Point) -> Point {
    if is_zero(delta.x.bits) || is_zero(delta.y.bits) {
        delta
    } else if abs_greater(delta.x.bits, delta.y.bits) {
        Point { x: delta.x, y: Pixels { bits: 0 } }
    } else {
        Point { x: Pixels { bits: 0 }, y: delta.y }
    }
}

/// The component of `p` along `axis`.
pub open spec fn along(axis: Axis, p: Point) -> Pixels {
    match axis {
        Axis::Horizontal => p.x,
        Axis::Vertical => p.y,
    }
}

/// The first step for a mask on `axis`.
pub open spec fn wheel_step(
    axis: Axis,
    phase: DispatchPhase,
    handles_scroll: bool,
    delta: Point,
) -> WheelStep {
    if phase == DispatchPhase::Capture && handles_scroll {
        WheelStep::ScrollBy(along(axis, dominant_delta_of(delta)))
    } else {
        WheelStep::Ignore
    }
}

/// The second step: the event is consumed exactly when the offset changed.
pub open spec fn wheel_outcome(before: Point, after: Point) -> WheelOutcome {
    if points_equal(before, after) {
        WheelOutcome::Propagate
    } else {
        WheelOutcome::Consume
    }
}

/// Reduces a wheel delta to its dominant axis.
///
/// A trackpad rarely reports a swipe on one axis alone; only the axis that
/// moved more is allowed to scroll.
pub fn dominant_delta(delta: Point) -> (r: Point)
    ensures
        r == dominant_delta_of(delta),
        (delta.x.bits & 0x7fff_ffffu32) == 0 || (delta.y.bits & 0x7fff_ffffu32) == 0 ==> r == delta,
        (delta.x.bits & 0x7fff_ffffu32) != 0 && (delta.y.bits & 0x7fff_ffffu32) != 0 && (delta.x.bits
            & 0x7fff_ffffu32) <= 0x7f80_0000u32 && (delta.y.bits & 0x7fff_ffffu32) <= 0x7f80_0000u32
            && (delta.x.bits & 0x7fff_ffffu32) > (delta.y.bits & 0x7fff_ffffu32) ==> r.x == delta.x
            && r.y.bits == 0,
        (delta.x.bits & 0x7fff_ffffu32) != 0 && (delta.y.bits & 0x7fff_ffffu32) != 0 && !((delta.x.bits
            & 0x7fff_ffffu32) <= 0x7f80_0000u32 && (delta.y.bits & 0x7fff_ffffu32) <= 0x7f80_0000u32
            && (delta.x.bits & 0x7fff_ffffu32) > (delta.y.bits & 0x7fff_ffffu32)) ==> r.x.bits == 0
            && r.y == delta.y,
{
    if !delta.x.is_zero() && !delta.y.is_zero() {
        if delta.x.abs_greater(&delta.y) {
            Point { x: delta.x, y: Pixels::zero() }
        } else {
            Point { x: Pixels::zero(), y: delta.y }
        }
    } else {
        delta
    }
}

/// Decides the second step of a wheel event from the scroll offset before
/// and after the move.
///
/// The offset is not clamped here, so any non-zero move of an offset that
/// is a number changes it: the event is consumed even at the edge of the
/// content, rather than turned into a scroll of the parent.
pub fn finish_wheel(before: &Point, after: &Point) -> (r: WheelOutcome)
    ensures
        r == wheel_outcome(*before, *after),
        ({
            let x_equal = ((before.x.bits & 0x7fff_ffffu32) <= 0x7f80_0000u32 && (after.x.bits & 0x7fff_ffffu32)
                <= 0x7f80_0000u32 && (before.x.bits == after.x.bits || ((before.x.bits & 0x7fff_ffffu32) == 0
                && (after.x.bits & 0x7fff_ffffu32) == 0)));
            let y_equal = ((before.y.bits & 0x7fff_ffffu32) <= 0x7f80_0000u32 && (after.y.bits & 0x7fff_ffffu32)
                <= 0x7f80_0000u32 && (before.y.bits == after.y.bits || ((before.y.bits & 0x7fff_ffffu32) == 0
                && (after.y.bits & 0x7fff_ffffu32) == 0)));
            (r == WheelOutcome::Propagate) == (x_equal && y_equal)
        }),
{
    if before.equals(after) {
        WheelOutcome::Propagate
    } else {
        WheelOutcome::Consume
    }
}

/// A mask that turns wheel events over its bounds into scrolling along one
/// axis.
#[derive(Clone, Copy, Debug)]
pub struct ScrollableMask {
    /// The axis that the mask scrolls.
    pub axis: Axis,
    /// Whether the mask's bounds are painted with a debug border.
    pub debug: bool,
}

impl ScrollableMask {
    /// A mask scrolling along `axis`, without the debug border.
    pub fn new(axis: Axis) -> (r: ScrollableMask)
        ensures
            r.axis == axis,
            !r.debug,
    {
        ScrollableMask { axis, debug: false }
    }

    /// The same mask with the debug border, which shows the mask's bounds.
    pub fn debug(self) -> (r: ScrollableMask)
        ensures
            r.axis == self.axis,
            r.debug,
    {
        ScrollableMask { debug: true, ..self }
    }

    /// The first step for a wheel event `delta` (in pixels) that reaches the
    /// mask in `phase`; `handles_scroll` tells whether the mask's hit box is
    /// the one that should handle scrolling at the pointer (false while it is
    /// occluded).
    pub fn scroll_wheel(&self, phase: DispatchPhase, handles_scroll: bool, delta: Point) -> (r:
        WheelStep)
        ensures
            r == wheel_step(self.axis, phase, handles_scroll, delta),
            !(phase == DispatchPhase::Capture && handles_scroll) ==> r == WheelStep::Ignore,
            phase == DispatchPhase::Capture && handles_scroll ==> r == WheelStep::ScrollBy(
                if self.axis == Axis::Horizontal {
                    dominant_delta_of(delta).x
                } else {
                    dominant_delta_of(delta).y
                },
            ),
    {
        if !(phase.capture() && handles_scroll) {
            return WheelStep::Ignore;
        }
        let delta = dominant_delta(delta);
        if self.axis.is_horizontal() {
            WheelStep::ScrollBy(delta.x)
        } else {
            WheelStep::ScrollBy(delta.y)
        }
    }
}

/// After the reduction to the dominant axis, at most one component of a
/// wheel delta is non-zero.
pub proof fn law_dominant_delta_single_axis(delta: Point)
    ensures
        is_zero(dominant_delta_of(delta).x.bits) || is_zero(dominant_delta_of(delta).y.bits),
{
    assert(0u32 & 0x7fff_ffffu32 == 0) by (bit_vector);
}

/// The component of strictly greater magnitude passes the reduction
/// unchanged, and a delta along one axis only passes whole.
pub proof fn law_dominant_delta_keeps_dominant_axis(delta: Point)
    ensures
        abs_greater(delta.x.bits, delta.y.bits) ==> dominant_delta_of(delta).x == delta.x,
        abs_greater(delta.y.bits, delta.x.bits) ==> dominant_delta_of(delta).y == delta.y,
        is_zero(delta.x.bits) || is_zero(delta.y.bits) ==> dominant_delta_of(delta) == delta,
{
}

/// Reducing a reduced delta changes nothing.
pub proof fn law_dominant_delta_idempotent(delta: Point)
    ensures
        dominant_delta_of(dominant_delta_of(delta)) == dominant_delta_of(delta),
{
    assert(0u32 & 0x7fff_ffffu32 == 0) by (bit_vector);
}

/// Outside the capture phase, or while the mask is occluded, a wheel event
/// is left alone.
pub proof fn law_inert_outside_capture_or_occluded(
    axis: Axis,
    phase: DispatchPhase,
    handles_scroll: bool,
    delta: Point,
)
    requires
        phase == DispatchPhase::Bubble || !handles_scroll,
    ensures
        wheel_step(axis, phase, handles_scroll, delta) is Ignore,
{
}

/// A mask moves the offset by nothing for a wheel event dominated by the
/// other axis, so that the event can go on to a parent scroller of that
/// axis; an event dominated by its own axis moves it by that component.
pub proof fn law_only_own_axis_dominant_scrolls(axis: Axis, delta: Point)
    ensures
        axis == Axis::Horizontal && !is_zero(delta.y.bits) && !abs_greater(delta.x.bits, delta.y.bits)
            ==> (wheel_step(axis, DispatchPhase::Capture, true, delta) matches WheelStep::ScrollBy(d)
            && is_zero(d.bits)),
        axis == Axis::Vertical && !is_zero(delta.x.bits) && abs_greater(delta.x.bits, delta.y.bits)
            ==> (wheel_step(axis, DispatchPhase::Capture, true, delta) matches WheelStep::ScrollBy(d)
            && is_zero(d.bits)),
        axis == Axis::Horizontal && abs_greater(delta.x.bits, delta.y.bits) ==> wheel_step(
            axis,
            DispatchPhase::Capture,
            true,
            delta,
        ) == WheelStep::ScrollBy(delta.x),
        axis == Axis::Vertical && abs_greater(delta.y.bits, delta.x.bits) ==> wheel_step(
            axis,
            DispatchPhase::Capture,
            true,
            delta,
        ) == WheelStep::ScrollBy(delta.y),
{
    assert(0u32 & 0x7fff_ffffu32 == 0) by (bit_vector);
}

/// An offset left as it was (and holding no NaN) is not consumed: the event
/// propagates.
pub proof fn law_unchanged_offset_propagates(offset: Point)
    requires
        !is_nan(offset.x.bits),
        !is_nan(offset.y.bits),
    ensures
        wheel_outcome(offset, offset) == WheelOutcome::Propagate,
{
    lemma_numbers_equal_reflexive(offset.x.bits);
    lemma_numbers_equal_reflexive(offset.y.bits);
}

/// Of a delta with both components non-zero, the component whose magnitude
/// is strictly greater (as a number, neither being NaN) is kept whole and the
/// other becomes positive zero; otherwise the horizontal one becomes positive
/// zero and the vertical one is kept. A delta with a zero component is kept
/// whole.
pub proof fn law_dominant_delta_by_magnitude(delta: Point)
    ensures
        (delta.x.bits & 0x7fff_ffffu32) == 0 || (delta.y.bits & 0x7fff_ffffu32) == 0
            ==> dominant_delta_of(delta) == delta,
        (delta.x.bits & 0x7fff_ffffu32) != 0 && (delta.y.bits & 0x7fff_ffffu32) != 0 && (delta.x.bits
            & 0x7fff_ffffu32) <= 0x7f80_0000u32 && (delta.y.bits & 0x7fff_ffffu32) <= 0x7f80_0000u32
            && (delta.x.bits & 0x7fff_ffffu32) > (delta.y.bits & 0x7fff_ffffu32)
            ==> dominant_delta_of(delta).x == delta.x && dominant_delta_of(delta).y.bits == 0,
        (delta.x.bits & 0x7fff_ffffu32) != 0 && (delta.y.bits & 0x7fff_ffffu32) != 0 && !((delta.x.bits
            & 0x7fff_ffffu32) <= 0x7f80_0000u32 && (delta.y.bits & 0x7fff_ffffu32) <= 0x7f80_0000u32
            && (delta.x.bits & 0x7fff_ffffu32) > (delta.y.bits & 0x7fff_ffffu32))
            ==> dominant_delta_of(delta).x.bits == 0 && dominant_delta_of(delta).y == delta.y,
{
}

/// A horizontal mask, in the capture phase and not occluded, moves the offset
/// by the whole horizontal component of a delta whose horizontal magnitude
/// is strictly the greater, and by a zero for a delta with a non-zero
/// vertical component of at least the horizontal magnitude; a vertical mask
/// does the converse.
pub proof fn law_wheel_step_by_magnitude(delta: Point)
    ensures
        (delta.x.bits & 0x7fff_ffffu32) != 0 && (delta.x.bits & 0x7fff_ffffu32) <= 0x7f80_0000u32
            && (delta.y.bits & 0x7fff_ffffu32) < (delta.x.bits & 0x7fff_ffffu32) ==> wheel_step(
            Axis::Horizontal,
            DispatchPhase::Capture,
            true,
            delta,
        ) == WheelStep::ScrollBy(delta.x) && (wheel_step(
            Axis::Vertical,
            DispatchPhase::Capture,
            true,
            delta,
        ) matches WheelStep::ScrollBy(d) && (d.bits & 0x7fff_ffffu32) == 0),
        (delta.y.bits & 0x7fff_ffffu32) != 0 && (delta.y.bits & 0x7fff_ffffu32) <= 0x7f80_0000u32
            && (delta.x.bits & 0x7fff_ffffu32) <= (delta.y.bits & 0x7fff_ffffu32) ==> wheel_step(
            Axis::Vertical,
            DispatchPhase::Capture,
            true,
            delta,
        ) == WheelStep::ScrollBy(delta.y) && (wheel_step(
            Axis::Horizontal,
            DispatchPhase::Capture,
            true,
            delta,
        ) matches WheelStep::ScrollBy(d) && (d.bits & 0x7fff_ffffu32) == 0),
{
    assert(0u32 & 0x7fff_ffffu32 == 0) by (bit_vector);
}

/// A wheel event is consumed exactly when the offset changed: when, in some
/// coordinate, the offsets before and after are not equal as numbers.
pub proof fn law_consumed_iff_offset_changed(before: Point, after: Point)
    ensures
        ({
            let x_equal = ((before.x.bits & 0x7fff_ffffu32) <= 0x7f80_0000u32 && (after.x.bits & 0x7fff_ffffu32)
                <= 0x7f80_0000u32 && (before.x.bits == after.x.bits || ((before.x.bits & 0x7fff_ffffu32) == 0
                && (after.x.bits & 0x7fff_ffffu32) == 0)));
            let y_equal = ((before.y.bits & 0x7fff_ffffu32) <= 0x7f80_0000u32 && (after.y.bits & 0x7fff_ffffu32)
                <= 0x7f80_0000u32 && (before.y.bits == after.y.bits || ((before.y.bits & 0x7fff_ffffu32) == 0
                && (after.y.bits & 0x7fff_ffffu32) == 0)));
            &&& wheel_outcome(before, after) == WheelOutcome::Consume <==> !(x_equal && y_equal)
            &&& wheel_outcome(before, after) == WheelOutcome::Propagate <==> (x_equal && y_equal)
        }),
{
}

} // verus!
