//! What holds of the recognizer over all inputs.
//!
//! Each law is stated twice where it matters: of the transition table alone,
//! and of a recognizer that handles the same inputs.

use vstd::prelude::*;
use crate::display::{CursorSample, Viewport};
use crate::gesture::{is_drag, GestureRecognizer};
use crate::interaction::{
    elapsed,
    run,
    InteractionState,
    Stimulus,
    DOUBLE_TAP_TIMEOUT,
    PRE_TAP_WINDOW,
};
use crate::transform::ZOOM_SPEED_LOG2;

verus! {

/// Tells whether a press at time `press` starts a hold: whether the state
/// is at rest and the press is no double tap.
pub open spec fn starts_hold(state: InteractionState, press: u64) -> bool {
    match state {
        InteractionState::Idle { pre_tapped_at: None } => true,
        InteractionState::Idle { pre_tapped_at: Some(tapped_at) } => elapsed(press, tapped_at)
            >= DOUBLE_TAP_TIMEOUT,
        InteractionState::PressIdle { .. }
        | InteractionState::Panning
        | InteractionState::ZoomingIn
        | InteractionState::ZoomingOut => false,
    }
}

/// A press that starts a hold, released before the tap window is over,
/// leaves a tap armed with the time of the press.
pub proof fn short_press_arms_tap(recognizer: GestureRecognizer, press: u64, release: u64)
    requires
        starts_hold(recognizer.state, press),
        elapsed(release, press) < PRE_TAP_WINDOW,
    ensures
        recognizer.state.after_down(press).after_up(release) == (InteractionState::Idle {
            pre_tapped_at: Some(press),
        }),
        recognizer.pressed(press).released(release).state == (InteractionState::Idle {
            pre_tapped_at: Some(press),
        }),
{
}

/// A press at rest, released when the tap window is over, leaves no tap
/// armed, whether the press started a hold or was a double tap.
pub proof fn long_press_arms_nothing(recognizer: GestureRecognizer, press: u64, release: u64)
    requires
        recognizer.state is Idle,
        elapsed(release, press) >= PRE_TAP_WINDOW,
    ensures
        recognizer.state.after_down(press).after_up(release) == InteractionState::initial(),
        recognizer.pressed(press).released(release).state == InteractionState::initial(),
{
}

/// With a tap armed at `tapped_at`, a press inside the double-tap window
/// starts zooming out, and a later press starts a hold of its own.
pub proof fn press_after_tap(recognizer: GestureRecognizer, tapped_at: u64, press: u64)
    requires
        recognizer.state == (InteractionState::Idle { pre_tapped_at: Some(tapped_at) }),
    ensures
        elapsed(press, tapped_at) < DOUBLE_TAP_TIMEOUT ==> recognizer.pressed(press).state
            == InteractionState::ZoomingOut,
        elapsed(press, tapped_at) >= DOUBLE_TAP_TIMEOUT ==> recognizer.pressed(press).state
            == (InteractionState::PressIdle { pressed_down_at: press }),
{
}

/// Tells whether an input is one that a contact held still receives: a
/// frame tick, or a movement too small to be a drag.
pub open spec fn keeps_still(input: Stimulus) -> bool {
    input is Tick || input == (Stimulus::Move { drag: false })
}

/// Tells whether an input is a tick at which a hold that began at
/// `pressed_down_at` has lasted longer than the timeout.
pub open spec fn crosses_timeout(pressed_down_at: u64, input: Stimulus) -> bool {
    input matches Stimulus::Tick { now } && elapsed(now, pressed_down_at) > DOUBLE_TAP_TIMEOUT
}

/// A contact held still stays a plain hold for as long as no tick finds the
/// timeout crossed.
pub proof fn hold_below_timeout_stays(pressed_down_at: u64, inputs: Seq<Stimulus>)
    requires
        forall|i: int| 0 <= i < inputs.len() ==> keeps_still(#[trigger] inputs[i]),
        forall|i: int|
            0 <= i < inputs.len() ==> !crosses_timeout(pressed_down_at, #[trigger] inputs[i]),
    ensures
        run(InteractionState::PressIdle { pressed_down_at }, inputs)
            == (InteractionState::PressIdle { pressed_down_at }),
    decreases inputs.len(),
{
    if inputs.len() > 0 {
        hold_below_timeout_stays(pressed_down_at, inputs.drop_last());
    }
}

/// A contact held still turns into zooming in exactly once, at the first
/// tick that finds the timeout crossed: up to and including the input
/// before that tick the state is the plain hold, and from that tick on it is
/// zooming in, whatever ticks and small movements follow.
pub proof fn hold_zooms_in_at_first_crossing(
    pressed_down_at: u64,
    inputs: Seq<Stimulus>,
    first: int,
    seen: int,
)
    requires
        forall|i: int| 0 <= i < inputs.len() ==> keeps_still(#[trigger] inputs[i]),
        0 <= first < inputs.len(),
        crosses_timeout(pressed_down_at, inputs[first]),
        forall|i: int| 0 <= i < first ==> !crosses_timeout(pressed_down_at, #[trigger] inputs[i]),
        0 <= seen <= inputs.len(),
    ensures
        run(InteractionState::PressIdle { pressed_down_at }, inputs.take(seen)) == if seen
            <= first {
            InteractionState::PressIdle { pressed_down_at }
        } else {
            InteractionState::ZoomingIn
        },
    decreases seen,
{
    let prefix = inputs.take(seen);
    if seen <= first {
        hold_below_timeout_stays(pressed_down_at, prefix);
    } else {
        hold_zooms_in_at_first_crossing(pressed_down_at, inputs, first, seen - 1);
        assert(prefix.drop_last() == inputs.take(seen - 1));
    }
}

/// A tick of a recognizer that is zooming in multiplies the scale by the
/// zoom speed raised to `dt`, and a tick of one that is zooming out divides
/// the scale by the same: the logarithm of the scale moves by `dt` times
/// the logarithm of the zoom speed, down or up. This holds wherever the
/// result fits in `i64`; beyond, the logarithm stops at the end of `i64`.
pub proof fn zooming_scales_by_speed_to_the_time(
    recognizer: GestureRecognizer,
    dt: u64,
    now: u64,
    viewport: Viewport,
)
    ensures
        recognizer.state is ZoomingIn && i64::MIN <= recognizer.transform.scale_log2
            + ZOOM_SPEED_LOG2 * dt ==> recognizer.ticked(dt, now, viewport).transform.scale_log2
            == recognizer.transform.scale_log2 + ZOOM_SPEED_LOG2 * dt,
        recognizer.state is ZoomingOut && recognizer.transform.scale_log2 - ZOOM_SPEED_LOG2 * dt
            <= i64::MAX ==> recognizer.ticked(dt, now, viewport).transform.scale_log2
            == recognizer.transform.scale_log2 - ZOOM_SPEED_LOG2 * dt,
        ZOOM_SPEED_LOG2 * dt == -dt,
{
    assert(ZOOM_SPEED_LOG2 * dt == -dt) by (nonlinear_arith)
        requires
            ZOOM_SPEED_LOG2 == -1,
    ;
}

/// The view changes only while a contact is held. No pointer event touches
/// the transform, movement at rest asks for no pan, and a tick leaves the
/// scale alone unless the state, as it is after the tick, is one of the two
/// zooming states.
pub proof fn view_changes_only_while_held(
    recognizer: GestureRecognizer,
    dt: u64,
    now: u64,
    to: CursorSample,
    viewport: Viewport,
)
    ensures
        recognizer.pressed(now).transform == recognizer.transform,
        recognizer.released(now).transform == recognizer.transform,
        recognizer.moved(to, viewport).transform == recognizer.transform,
        recognizer.state is Idle ==> recognizer.pan_on_move(to, viewport) is None,
        !(recognizer.ticked(dt, now, viewport).state is ZoomingIn) && !(recognizer.ticked(
            dt,
            now,
            viewport,
        ).state is ZoomingOut) ==> recognizer.ticked(dt, now, viewport).transform.scale_log2
            == recognizer.transform.scale_log2,
{
}

/// A drag while a contact is held leads to panning, whether the contact was
/// a plain hold or was zooming either way.
pub proof fn drag_supersedes_zoom(
    recognizer: GestureRecognizer,
    to: CursorSample,
    viewport: Viewport,
)
    requires
        viewport.width() > 0,
        viewport.height() > 0,
        recognizer.state is PressIdle || recognizer.state is ZoomingIn
            || recognizer.state is ZoomingOut,
        is_drag(recognizer.last_cursor, to, viewport),
    ensures
        recognizer.state.after_move(true) == InteractionState::Panning,
        recognizer.moved(to, viewport).state == InteractionState::Panning,
{
}

/// Lifting the pointer while panning or zooming leads to rest with no tap
/// armed, whenever it happens.
pub proof fn release_cancels_without_arming(recognizer: GestureRecognizer, now: u64)
    requires
        recognizer.state is Panning || recognizer.state is ZoomingIn
            || recognizer.state is ZoomingOut,
    ensures
        recognizer.state.after_up(now) == InteractionState::initial(),
        recognizer.released(now).state == InteractionState::initial(),
{
}

} // verus!
