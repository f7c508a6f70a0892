//! The gesture recognizer: pointer events and frame ticks in, interaction
//! state and view transform out.
//!
//! Calls must come from a single flow of control, in the order in which the
//! events arrived. Two things are taken as they come and not defended
//! against: a clock that runs backward, which makes elapsed times negative
//! and so shorter than every limit, and a second press while a contact is
//! held, which is ignored.

use vstd::prelude::*;
use crate::display::{CursorSample, Ratio, Viewport};
use crate::interaction::InteractionState;
use crate::transform::{pan_between, zoomed, PanStep, TransformState};

verus! {

/// A movement counts as a drag when, along either axis, it covers at least
/// one part in this many of the viewport.
pub const WIGGLE_TOLERANCE_DENOM: u32 = 1000;

/// The kind of a pointer event. A touch that starts, moves or ends is a
/// pointer that goes down, moves or goes up.
#[derive(Clone, Copy, Debug, PartialEq, Eq)]
pub enum PointerKind {
    Down,
    Up,
    Move,
}

/// A raw pointer event: what happened, where in device pixels, and when in
/// microseconds.
#[derive(Clone, Copy, Debug, PartialEq, Eq)]
pub struct PointerEvent {
    pub kind: PointerKind,
    pub x: i32,
    pub y: i32,
    pub timestamp: u64,
}

/// The size of a movement, whichever way it goes.
pub open spec fn magnitude(delta: int) -> int {
    if delta < 0 {
        -delta
    } else {
        delta
    }
}

/// Tells whether a movement by `delta` pixels along an axis of `extent`
/// pixels reaches the tolerance. Only the size of the movement counts, so
/// that a drag to the left or upward is a drag like any other.
pub open spec fn reaches_tolerance(delta: int, extent: int) -> bool {
    magnitude(delta) * WIGGLE_TOLERANCE_DENOM >= extent
}

/// Tells whether moving from `from` to `to` is a drag rather than jitter:
/// whether it reaches the tolerance along either axis.
pub open spec fn is_drag(from: CursorSample, to: CursorSample, viewport: Viewport) -> bool {
    reaches_tolerance(to.x - from.x, viewport.width() as int) || reaches_tolerance(
        to.y - from.y,
        viewport.height() as int,
    )
}

fn axis_reaches_tolerance(from: i32, to: i32, extent: u32) -> (reached: bool)
    ensures
        reached == reaches_tolerance(to - from, extent as int),
{
    let delta: i64 = to as i64 - from as i64;
    let size: i64 = if delta < 0 {
        -delta
    } else {
        delta
    };
    assert(0 <= size * WIGGLE_TOLERANCE_DENOM <= 0x1_0000_0000 * 1000) by (nonlinear_arith)
        requires
            0 <= size <= 0x1_0000_0000,
            WIGGLE_TOLERANCE_DENOM == 1000,
    ;
    size * (WIGGLE_TOLERANCE_DENOM as i64) >= extent as i64
}

/// Tells whether moving from `from` to `to` is a drag rather than jitter.
pub fn drags(from: CursorSample, to: CursorSample, viewport: Viewport) -> (drag: bool)
    ensures
        drag == is_drag(from, to, viewport),
{
    axis_reaches_tolerance(from.x, to.x, viewport.width()) || axis_reaches_tolerance(
        from.y,
        to.y,
        viewport.height(),
    )
}

/// The pan that moving the pointer from `from` to `to` asks for.
pub fn pan_step(from: CursorSample, to: CursorSample, viewport: Viewport, scale_log2: i64) -> (step:
    PanStep)
    ensures
        step == pan_between(from, to, viewport, scale_log2),
        step.x.denom > 0,
        step.y.denom > 0,
{
    PanStep {
        x: Ratio { numer: from.x as i64 - to.x as i64, denom: viewport.width() },
        y: Ratio { numer: to.y as i64 - from.y as i64, denom: viewport.height() },
        scale_log2,
    }
}

/// Interprets pointer events and frame ticks for one surface.
#[derive(Clone, Copy, Debug, PartialEq, Eq)]
pub struct GestureRecognizer {
    /// The current interaction state.
    pub state: InteractionState,
    /// The latest position of the pointer.
    pub cursor: CursorSample,
    /// The position from which the next movement is measured.
    pub last_cursor: CursorSample,
    /// The view transform.
    pub transform: TransformState,
}

impl GestureRecognizer {
    /// The recognizer after the pointer made contact at time `now`: the
    /// state follows the transition table, and the next movement is measured
    /// from the latest position.
    pub open spec fn pressed(self, now: u64) -> GestureRecognizer {
        GestureRecognizer {
            state: self.state.after_down(now),
            cursor: self.cursor,
            last_cursor: self.cursor,
            transform: self.transform,
        }
    }

    /// The recognizer after the pointer was lifted at time `now`.
    pub open spec fn released(self, now: u64) -> GestureRecognizer {
        GestureRecognizer {
            state: self.state.after_up(now),
            cursor: self.cursor,
            last_cursor: self.last_cursor,
            transform: self.transform,
        }
    }

    /// The recognizer after the pointer was seen at `to`. Where that is the
    /// position from which movements are measured, nothing has moved and
    /// the state stays. Otherwise a drag turns a held contact into a pan.
    /// The transform is left alone either way.
    pub open spec fn moved(self, to: CursorSample, viewport: Viewport) -> GestureRecognizer {
        GestureRecognizer {
            state: if to == self.last_cursor {
                self.state
            } else {
                self.state.after_move(is_drag(self.last_cursor, to, viewport))
            },
            cursor: to,
            last_cursor: to,
            transform: self.transform,
        }
    }

    /// The pan that seeing the pointer at `to` asks for: none at rest and
    /// none where nothing has moved, else the step from the last position to
    /// `to` at the scale as it is.
    pub open spec fn pan_on_move(self, to: CursorSample, viewport: Viewport) -> Option<PanStep> {
        if to != self.last_cursor && self.state.is_holding() {
            Some(pan_between(self.last_cursor, to, viewport, self.transform.scale_log2))
        } else {
            None
        }
    }

    /// The recognizer after a frame tick at time `now`, `dt` microseconds
    /// after the one before. A hold that has lasted longer than the timeout
    /// starts zooming in; then the scale changes by `dt` worth of zooming if
    /// the state, as it is after that, is one of the two zooming states. The
    /// pointer position and the aspect ratio of the transform are brought up
    /// to date in any state.
    pub open spec fn ticked(self, dt: u64, now: u64, viewport: Viewport) -> GestureRecognizer {
        GestureRecognizer {
            state: self.state.after_tick(now),
            cursor: self.cursor,
            last_cursor: self.last_cursor,
            transform: TransformState {
                scale_log2: zoomed(self.transform.scale_log2, self.state.after_tick(now), dt),
                cursor_normalized: self.cursor.normalized(viewport),
                aspect_ratio: viewport.aspect_ratio(),
            },
        }
    }

    /// The recognizer with the pointer placed at `at`, nothing else changed.
    pub open spec fn placed(self, at: CursorSample) -> GestureRecognizer {
        GestureRecognizer {
            state: self.state,
            cursor: at,
            last_cursor: self.last_cursor,
            transform: self.transform,
        }
    }

    /// The recognizer after a raw pointer event. A press first places the
    /// pointer where the event says; a release pays no attention to the
    /// position.
    pub open spec fn handled(self, event: PointerEvent, viewport: Viewport) -> GestureRecognizer {
        match event.kind {
            PointerKind::Down => self.placed(CursorSample { x: event.x, y: event.y }).pressed(
                event.timestamp,
            ),
            PointerKind::Up => self.released(event.timestamp),
            PointerKind::Move => self.moved(CursorSample { x: event.x, y: event.y }, viewport),
        }
    }

    /// The pan that a raw pointer event asks for: only a movement pans.
    pub open spec fn pan_on_event(self, event: PointerEvent, viewport: Viewport) -> Option<
        PanStep,
    > {
        match event.kind {
            PointerKind::Down => None,
            PointerKind::Up => None,
            PointerKind::Move => self.pan_on_move(CursorSample { x: event.x, y: event.y }, viewport),
        }
    }

    /// A recognizer for a fresh surface: at rest with no armed tap, the
    /// pointer at the origin, the view at the given scale.
    pub fn new(scale_log2: i64, viewport: Viewport) -> (recognizer: GestureRecognizer)
        ensures
            recognizer.state == InteractionState::initial(),
            recognizer.cursor == (CursorSample { x: 0, y: 0 }),
            recognizer.last_cursor == (CursorSample { x: 0, y: 0 }),
            recognizer.transform.scale_log2 == scale_log2,
            recognizer.transform.cursor_normalized == (CursorSample { x: 0, y: 0 }).normalized(
                viewport,
            ),
            recognizer.transform.aspect_ratio == viewport.aspect_ratio(),
    {
        GestureRecognizer {
            state: InteractionState::Idle { pre_tapped_at: None },
            cursor: CursorSample { x: 0, y: 0 },
            last_cursor: CursorSample { x: 0, y: 0 },
            transform: TransformState::new(scale_log2, viewport),
        }
    }

    /// The pointer made contact at time `now`, at its latest position.
    pub fn on_pointer_down(&mut self, now: u64)
        ensures
            *final(self) == old(self).pressed(now),
    {
        self.last_cursor = self.cursor;
        self.state = self.state.pointer_down(now);
    }

    /// The pointer was lifted at time `now`.
    pub fn on_pointer_up(&mut self, now: u64)
        ensures
            *final(self) == old(self).released(now),
    {
        self.state = self.state.pointer_up(now);
    }

    /// The pointer is now at `(x, y)`. Where this moves the view, the step
    /// by which to pan it is returned. The denominators of its fractions are
    /// the sides of the viewport, which are never zero.
    pub fn on_pointer_move(&mut self, x: i32, y: i32, viewport: Viewport) -> (pan: Option<PanStep>)
        ensures
            *final(self) == old(self).moved(CursorSample { x, y }, viewport),
            pan == old(self).pan_on_move(CursorSample { x, y }, viewport),
            pan matches Some(step) ==> step.x.denom > 0 && step.y.denom > 0,
    {
        let to = CursorSample { x, y };
        self.cursor = to;
        if to.same_as(self.last_cursor) {
            return None;
        }
        let from = self.last_cursor;
        self.last_cursor = to;
        if self.state.holding() {
            self.state = self.state.pointer_move(drags(from, to, viewport));
            Some(pan_step(from, to, viewport, self.transform.scale_log2))
        } else {
            None
        }
    }

    /// A frame is about to be drawn at time `now`, `dt` microseconds after
    /// the one before.
    pub fn tick(&mut self, dt: u64, now: u64, viewport: Viewport)
        ensures
            *final(self) == old(self).ticked(dt, now, viewport),
    {
        self.state = self.state.tick(now);
        self.transform.zoom(self.state, dt);
        self.transform.refresh(self.cursor, viewport);
    }

    /// Handles a raw pointer event, and returns the step by which to pan the
    /// view where the event moves it.
    pub fn on_event(&mut self, event: PointerEvent, viewport: Viewport) -> (pan: Option<PanStep>)
        ensures
            *final(self) == old(self).handled(event, viewport),
            pan == old(self).pan_on_event(event, viewport),
            pan matches Some(step) ==> step.x.denom > 0 && step.y.denom > 0,
    {
        match event.kind {
            PointerKind::Down => {
                self.cursor = CursorSample { x: event.x, y: event.y };
                self.on_pointer_down(event.timestamp);
                None
            },
            PointerKind::Up => {
                self.on_pointer_up(event.timestamp);
                None
            },
            PointerKind::Move => self.on_pointer_move(event.x, event.y, viewport),
        }
    }
}

} // verus!
