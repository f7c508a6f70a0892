use sursface::display::{CursorSample, Ratio, Viewport};
use sursface::gesture::{drags, pan_step, GestureRecognizer, WIGGLE_TOLERANCE_DENOM};
use sursface::interaction::InteractionState;
use sursface::transform::PanStep;

fn at(x: i32, y: i32) -> CursorSample {
    CursorSample { x, y }
}

#[test]
fn tolerance_is_a_thousandth_of_the_viewport() {
    assert_eq!(WIGGLE_TOLERANCE_DENOM, 1000);
    let viewport = Viewport::new(4000, 2000).unwrap();
    // Four pixels across are a thousandth of the width, two a thousandth of
    // the height.
    assert!(!drags(at(0, 0), at(3, 0), viewport));
    assert!(drags(at(0, 0), at(4, 0), viewport));
    assert!(!drags(at(0, 0), at(0, 1), viewport));
    assert!(drags(at(0, 0), at(0, 2), viewport));
    assert!(!drags(at(10, 10), at(13, 11), viewport));
    assert!(drags(at(10, 10), at(13, 12), viewport));
    assert!(!drags(at(10, 10), at(10, 10), viewport));
}

#[test]
fn a_drag_left_or_up_is_a_drag() {
    let viewport = Viewport::new(4000, 2000).unwrap();
    assert!(!drags(at(0, 0), at(-3, 0), viewport));
    assert!(drags(at(0, 0), at(-4, 0), viewport));
    assert!(!drags(at(0, 0), at(0, -1), viewport));
    assert!(drags(at(0, 0), at(0, -2), viewport));
    assert!(drags(at(100, 100), at(0, 100), viewport));
}

#[test]
fn one_pixel_is_a_drag_on_a_small_viewport() {
    let viewport = Viewport::new(720, 720).unwrap();
    assert!(drags(at(5, 5), at(6, 5), viewport));
    assert!(drags(at(5, 5), at(5, 4), viewport));
    assert!(!drags(at(5, 5), at(5, 5), viewport));
}

#[test]
fn the_farthest_movements_are_handled() {
    let viewport = Viewport::new(u32::MAX, u32::MAX).unwrap();
    assert!(drags(at(i32::MIN, 0), at(i32::MAX, 0), viewport));
    assert!(drags(at(0, i32::MAX), at(0, i32::MIN), viewport));
    assert!(!drags(at(0, 0), at(4_294_967, 0), viewport));
    assert!(drags(at(0, 0), at(4_294_968, 0), viewport));
    let step = pan_step(at(i32::MIN, i32::MIN), at(i32::MAX, i32::MAX), viewport, 0);
    assert_eq!(step.x.numer, -4_294_967_295);
    assert_eq!(step.y.numer, 4_294_967_295);
}

#[test]
fn pan_moves_against_the_pointer_across_and_with_it_down() {
    let viewport = Viewport::new(1000, 500).unwrap();
    let step = pan_step(at(100, 100), at(110, 90), viewport, 2_000_000);
    assert_eq!(
        step,
        PanStep {
            x: Ratio { numer: -10, denom: 1000 },
            y: Ratio { numer: -10, denom: 500 },
            scale_log2: 2_000_000,
        }
    );
    let step = pan_step(at(100, 100), at(90, 125), viewport, -3);
    assert_eq!(
        step,
        PanStep {
            x: Ratio { numer: 10, denom: 1000 },
            y: Ratio { numer: 25, denom: 500 },
            scale_log2: -3,
        }
    );
}

#[test]
fn movement_at_rest_only_tracks_the_pointer() {
    let viewport = Viewport::new(1000, 500).unwrap();
    let mut recognizer = GestureRecognizer::new(7, viewport);
    let before = recognizer.transform;
    assert_eq!(recognizer.on_pointer_move(300, 200, viewport), None);
    assert_eq!(recognizer.state, InteractionState::Idle { pre_tapped_at: None });
    assert_eq!(recognizer.cursor, at(300, 200));
    assert_eq!(recognizer.last_cursor, at(300, 200));
    assert_eq!(recognizer.transform, before);

    recognizer.state = InteractionState::Idle { pre_tapped_at: Some(3) };
    assert_eq!(recognizer.on_pointer_move(0, 0, viewport), None);
    assert_eq!(recognizer.state, InteractionState::Idle { pre_tapped_at: Some(3) });
}

#[test]
fn small_movement_pans_without_leaving_the_hold() {
    let viewport = Viewport::new(4000, 4000).unwrap();
    for held in [
        InteractionState::PressIdle { pressed_down_at: 9 },
        InteractionState::ZoomingIn,
        InteractionState::ZoomingOut,
        InteractionState::Panning,
    ] {
        let mut recognizer = GestureRecognizer::new(1_000_000, viewport);
        recognizer.state = held;
        let pan = recognizer.on_pointer_move(3, -3, viewport).unwrap();
        assert_eq!(recognizer.state, held);
        assert_eq!((pan.x.numer, pan.x.denom), (-3, 4000));
        assert_eq!((pan.y.numer, pan.y.denom), (-3, 4000));
        assert_eq!(pan.scale_log2, 1_000_000);
        assert_eq!(recognizer.transform.scale_log2, 1_000_000);
    }
}

#[test]
fn drag_leads_to_pan_from_every_held_state() {
    let viewport = Viewport::new(4000, 4000).unwrap();
    for held in [
        InteractionState::PressIdle { pressed_down_at: 9 },
        InteractionState::ZoomingIn,
        InteractionState::ZoomingOut,
        InteractionState::Panning,
    ] {
        for (x, y) in [(4, 0), (-4, 0), (0, 4), (0, -4), (500, -500)] {
            let mut recognizer = GestureRecognizer::new(0, viewport);
            recognizer.state = held;
            let pan = recognizer.on_pointer_move(x, y, viewport).unwrap();
            assert_eq!(recognizer.state, InteractionState::Panning);
            assert_eq!(pan.x.numer, -(x as i64));
            assert_eq!(pan.y.numer, y as i64);
        }
    }
}

#[test]
fn an_unchanged_position_is_no_movement() {
    let viewport = Viewport::new(1, 1).unwrap();
    let mut recognizer = GestureRecognizer::new(0, viewport);
    recognizer.on_pointer_move(12, 34, viewport);
    recognizer.on_pointer_down(0);
    let before = recognizer;
    assert_eq!(recognizer.on_pointer_move(12, 34, viewport), None);
    assert_eq!(recognizer, before);
}

#[test]
fn each_movement_is_measured_from_the_one_before() {
    let viewport = Viewport::new(1000, 1000).unwrap();
    let mut recognizer = GestureRecognizer::new(0, viewport);
    recognizer.on_pointer_move(100, 100, viewport);
    recognizer.on_pointer_down(0);
    let first = recognizer.on_pointer_move(105, 100, viewport).unwrap();
    let second = recognizer.on_pointer_move(105, 98, viewport).unwrap();
    assert_eq!((first.x.numer, first.y.numer), (-5, 0));
    assert_eq!((second.x.numer, second.y.numer), (0, -2));
}

#[test]
fn press_measures_the_next_movement_from_the_latest_position() {
    let viewport = Viewport::new(1000, 1000).unwrap();
    let mut recognizer = GestureRecognizer::new(0, viewport);
    recognizer.cursor = at(40, 50);
    recognizer.last_cursor = at(1, 2);
    recognizer.on_pointer_down(0);
    assert_eq!(recognizer.last_cursor, at(40, 50));
    assert_eq!(recognizer.cursor, at(40, 50));
    recognizer.on_pointer_up(1);
    assert_eq!(recognizer.last_cursor, at(40, 50));
}
