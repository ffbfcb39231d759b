use gpui_component::pixels::{Pixels, Point};
use gpui_component::scrollable_mask::{
    dominant_delta, finish_wheel, Axis, DispatchPhase, ScrollableMask, WheelOutcome, WheelStep,
};

fn px(v: f32) -> Pixels {
    Pixels::from_bits(v.to_bits())
}

fn val(p: Pixels) -> f32 {
    f32::from_bits(p.to_bits())
}

fn point(x: f32, y: f32) -> Point {
    Point::new(px(x), px(y))
}

/// Runs one wheel event through a mask as the element does, against a
/// scroll offset. Returns the stored offset afterwards and what became of
/// the event (`None` where the mask left it alone).
fn wheel(
    mask: &ScrollableMask,
    phase: DispatchPhase,
    handles_scroll: bool,
    offset: (f32, f32),
    delta: (f32, f32),
) -> ((f32, f32), Option<WheelOutcome>) {
    match mask.scroll_wheel(phase, handles_scroll, point(delta.0, delta.1)) {
        WheelStep::Ignore => (offset, None),
        WheelStep::ScrollBy(amount) => {
            let mut moved = offset;
            if mask.axis.is_horizontal() {
                moved.0 += val(amount);
            } else {
                moved.1 += val(amount);
            }
            let outcome = finish_wheel(&point(offset.0, offset.1), &point(moved.0, moved.1));
            match outcome {
                WheelOutcome::Consume => (moved, Some(outcome)),
                WheelOutcome::Propagate => (offset, Some(outcome)),
            }
        }
    }
}

fn horizontal() -> ScrollableMask {
    ScrollableMask::new(Axis::Horizontal)
}

#[test]
fn horizontal_scroll_area_ignores_vertical_wheel() {
    let (offset, outcome) =
        wheel(&horizontal(), DispatchPhase::Capture, true, (0., 0.), (0., -40.));
    assert_eq!(offset.0, 0.);
    assert_eq!(outcome, Some(WheelOutcome::Propagate));
}

#[test]
fn horizontal_scroll_area_in_list_keeps_horizontal_dominant_wheel() {
    let (offset, outcome) =
        wheel(&horizontal(), DispatchPhase::Capture, true, (0., 0.), (-40., -10.));
    assert_eq!(offset.0, -40.);
    // Consumed in the capture phase: the outer list never sees it.
    assert_eq!(outcome, Some(WheelOutcome::Consume));
}

#[test]
fn horizontal_scroll_area_in_list_bubbles_vertical_dominant_wheel() {
    let (offset, outcome) =
        wheel(&horizontal(), DispatchPhase::Capture, true, (0., 0.), (-10., -40.));
    assert_eq!(offset.0, 0.);
    // Left to propagate: the outer list scrolls.
    assert_ne!(outcome, Some(WheelOutcome::Consume));
}

#[test]
fn horizontal_scroll_area_covers_viewport_after_scrolled() {
    let (offset, outcome) =
        wheel(&horizontal(), DispatchPhase::Capture, true, (-150., 0.), (-40., -10.));
    assert_eq!(offset.0, -190.);
    assert_eq!(outcome, Some(WheelOutcome::Consume));
}

#[test]
fn horizontal_scroll_area_ignores_wheel_when_occluded() {
    let (offset, outcome) =
        wheel(&horizontal(), DispatchPhase::Capture, false, (0., 0.), (-40., -10.));
    assert_eq!(offset.0, 0.);
    assert_eq!(outcome, None);
}

#[test]
fn horizontal_scroll_area_uses_horizontal_wheel() {
    let (offset, outcome) =
        wheel(&horizontal(), DispatchPhase::Capture, true, (0., 0.), (-40., 0.));
    assert_eq!(offset.0, -40.);
    assert_eq!(outcome, Some(WheelOutcome::Consume));
}

#[test]
fn bubble_phase_is_left_alone() {
    let (offset, outcome) =
        wheel(&horizontal(), DispatchPhase::Bubble, true, (0., 0.), (-40., 0.));
    assert_eq!(offset, (0., 0.));
    assert_eq!(outcome, None);
}

#[test]
fn vertical_mask_scrolls_vertical_dominant_wheel() {
    let mask = ScrollableMask::new(Axis::Vertical);
    let (offset, outcome) = wheel(&mask, DispatchPhase::Capture, true, (5., 10.), (-10., -40.));
    assert_eq!(offset, (5., -30.));
    assert_eq!(outcome, Some(WheelOutcome::Consume));
    let (offset, outcome) = wheel(&mask, DispatchPhase::Capture, true, (5., 10.), (-40., -10.));
    assert_eq!(offset, (5., 10.));
    assert_eq!(outcome, Some(WheelOutcome::Propagate));
}

#[test]
fn dominant_delta_keeps_larger_magnitude() {
    let d = dominant_delta(point(-40., 10.));
    assert_eq!((val(d.x), val(d.y)), (-40., 0.));
    assert_eq!(d.y.to_bits(), 0);
    let d = dominant_delta(point(3., -7.5));
    assert_eq!((val(d.x), val(d.y)), (0., -7.5));
    assert_eq!(d.x.to_bits(), 0);
}

#[test]
fn dominant_delta_tie_keeps_vertical() {
    let d = dominant_delta(point(12., -12.));
    assert_eq!((val(d.x), val(d.y)), (0., -12.));
}

#[test]
fn dominant_delta_single_axis_passes_whole() {
    let d = dominant_delta(point(-0., 25.));
    assert_eq!(d.x.to_bits(), (-0.0f32).to_bits());
    assert_eq!(val(d.y), 25.);
    let d = dominant_delta(point(25., 0.));
    assert_eq!((val(d.x), val(d.y)), (25., 0.));
}

#[test]
fn dominant_delta_is_idempotent() {
    for (x, y) in [(1.5f32, -2.0f32), (-9.0, 3.0), (0.0, 4.0), (f32::NAN, 1.0)] {
        let once = dominant_delta(point(x, y));
        let twice = dominant_delta(once);
        assert_eq!(once.x.to_bits(), twice.x.to_bits());
        assert_eq!(once.y.to_bits(), twice.y.to_bits());
        assert!(once.x.is_zero() || once.y.is_zero());
    }
}

#[test]
fn dominant_delta_nan_cannot_win() {
    let d = dominant_delta(point(f32::NAN, 1.0));
    assert_eq!(d.x.to_bits(), 0);
    assert_eq!(val(d.y), 1.0);
    let d = dominant_delta(point(1.0, f32::NAN));
    assert_eq!(d.x.to_bits(), 0);
    assert!(val(d.y).is_nan());
}

#[test]
fn dominant_delta_infinity_wins_over_finite() {
    let d = dominant_delta(point(f32::NEG_INFINITY, 1e30));
    assert_eq!(val(d.x), f32::NEG_INFINITY);
    assert_eq!(d.y.to_bits(), 0);
}

#[test]
fn pixels_comparisons_follow_f32() {
    let samples = [0.0f32, -0.0, 1.0, -1.0, 0.5, 1e-45, -3e38, f32::INFINITY, f32::NAN, 40.0, -40.0];
    for a in samples {
        assert_eq!(px(a).is_zero(), a == 0.0);
        for b in samples {
            assert_eq!(px(a).abs_greater(&px(b)), a.abs() > b.abs(), "{} {}", a, b);
            assert_eq!(px(a).equals(&px(b)), a == b, "{} {}", a, b);
        }
    }
}

#[test]
fn finish_wheel_consumes_exactly_when_offset_changed() {
    assert_eq!(finish_wheel(&point(-40., 0.), &point(-40., 0.)), WheelOutcome::Propagate);
    assert_eq!(finish_wheel(&point(0., 0.), &point(-0., 0.)), WheelOutcome::Propagate);
    assert_eq!(finish_wheel(&point(0., 0.), &point(-40., 0.)), WheelOutcome::Consume);
    assert_eq!(finish_wheel(&point(0., 3.), &point(0., 4.)), WheelOutcome::Consume);
    // An offset holding NaN never equals itself.
    assert_eq!(finish_wheel(&point(0., f32::NAN), &point(0., f32::NAN)), WheelOutcome::Consume);
}

#[test]
fn new_and_debug() {
    let mask = ScrollableMask::new(Axis::Horizontal);
    assert_eq!(mask.axis, Axis::Horizontal);
    assert!(!mask.debug);
    let mask = mask.debug();
    assert_eq!(mask.axis, Axis::Horizontal);
    assert!(mask.debug);
}

#[test]
fn phase_and_axis_helpers() {
    assert!(DispatchPhase::Capture.capture());
    assert!(!DispatchPhase::Bubble.capture());
    assert!(Axis::Horizontal.is_horizontal());
    assert!(!Axis::Vertical.is_horizontal());
    assert_eq!(Pixels::zero().to_bits(), 0);
}
