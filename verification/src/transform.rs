//! The view transform that the gestures drive and a renderer reads.

use vstd::prelude::*;
use crate::display::{CursorSample, Ratio, Viewport};
use crate::interaction::InteractionState;

verus! {

/// The number of units of `scale_log2` that double the scale. It equals the
/// number of microseconds in a second.
pub const LOG2_UNIT: i64 = 1_000_000;

/// Binary logarithm of the factor that one second of zooming in multiplies
/// the scale by: the scale halves every second. It is also the change of
/// `scale_log2` per microsecond, as `LOG2_UNIT` microseconds make a second.
pub const ZOOM_SPEED_LOG2: i64 = -1;

/// The view transform, as far as it has an exact finite form.
///
/// The scale is `2` to the power of `scale_log2 / LOG2_UNIT`, which is always
/// positive. Multiplying the scale by the zoom speed raised to a time is then
/// adding a multiple of that time to `scale_log2`.
///
/// The pan offset of the view is not held here. It is a sum of fractions
/// times such powers of two, which no integer or fraction holds exactly, so
/// each movement yields a `PanStep` for the holder of the offset to add.
#[derive(Clone, Copy, Debug, PartialEq, Eq)]
pub struct TransformState {
    /// Binary logarithm of the scale, in units of one in `LOG2_UNIT`.
    pub scale_log2: i64,
    /// The pointer position as fractions of the viewport, as of the last
    /// frame.
    pub cursor_normalized: (Ratio, Ratio),
    /// Width over height of the viewport, as of the last frame.
    pub aspect_ratio: Ratio,
}

/// A movement of the view that a drag asks for: add `x` times the scale to
/// the horizontal offset of the view and `y` times the scale to the vertical
/// one, where the scale is `2` to the power of `scale_log2 / LOG2_UNIT`.
#[derive(Clone, Copy, Debug, PartialEq, Eq)]
pub struct PanStep {
    pub x: Ratio,
    pub y: Ratio,
    pub scale_log2: i64,
}

/// The nearest `i64` to `value`.
pub open spec fn saturate(value: int) -> i64 {
    if value < i64::MIN {
        i64::MIN
    } else if value > i64::MAX {
        i64::MAX
    } else {
        value as i64
    }
}

/// The logarithm of the scale after `dt` microseconds in `state`, starting
/// from `scale_log2`. Zooming in multiplies the scale by the zoom speed
/// raised to the time, zooming out divides it by the same, and in any other
/// state the scale stays. The result stops at the ends of `i64`.
pub open spec fn zoomed(scale_log2: i64, state: InteractionState, dt: u64) -> i64 {
    match state {
        InteractionState::ZoomingIn => saturate(scale_log2 + ZOOM_SPEED_LOG2 * dt),
        InteractionState::ZoomingOut => saturate(scale_log2 - ZOOM_SPEED_LOG2 * dt),
        InteractionState::Idle { .. }
        | InteractionState::PressIdle { .. }
        | InteractionState::Panning => scale_log2,
    }
}

/// The pan that moving the pointer from `from` to `to` asks for. The view
/// follows the pointer: it moves against the pointer horizontally and with it
/// vertically, by the fraction of the viewport that the pointer crossed, and
/// in proportion to the scale.
pub open spec fn pan_between(
    from: CursorSample,
    to: CursorSample,
    viewport: Viewport,
    scale_log2: i64,
) -> PanStep {
    PanStep {
        x: Ratio { numer: (from.x - to.x) as i64, denom: viewport.width() },
        y: Ratio { numer: (to.y - from.y) as i64, denom: viewport.height() },
        scale_log2,
    }
}

impl TransformState {
    /// The transform of a fresh view: the given scale, the pointer at the
    /// origin.
    pub fn new(scale_log2: i64, viewport: Viewport) -> (transform: TransformState)
        ensures
            transform.scale_log2 == scale_log2,
            transform.cursor_normalized == (CursorSample { x: 0, y: 0 }).normalized(viewport),
            transform.aspect_ratio == viewport.aspect_ratio(),
    {
        let origin = CursorSample { x: 0, y: 0 };
        TransformState {
            scale_log2,
            cursor_normalized: origin.normalized(viewport),
            aspect_ratio: viewport.aspect_ratio(),
        }
    }

    /// Lets `dt` microseconds pass in `state`, which changes the scale while
    /// zooming and nothing otherwise.
    pub fn zoom(&mut self, state: InteractionState, dt: u64)
        ensures
            final(self).scale_log2 == zoomed(old(self).scale_log2, state, dt),
            final(self).cursor_normalized == old(self).cursor_normalized,
            final(self).aspect_ratio == old(self).aspect_ratio,
    {
        assert(ZOOM_SPEED_LOG2 * dt == -dt) by (nonlinear_arith)
            requires
                ZOOM_SPEED_LOG2 == -1,
        ;
        let toward_in: i128 = (ZOOM_SPEED_LOG2 as i128) * (dt as i128);
        let target: i128 = match state {
            InteractionState::ZoomingIn => self.scale_log2 as i128 + toward_in,
            InteractionState::ZoomingOut => self.scale_log2 as i128 - toward_in,
            InteractionState::Idle { .. }
            | InteractionState::PressIdle { .. }
            | InteractionState::Panning => self.scale_log2 as i128,
        };
        self.scale_log2 = if target < i64::MIN as i128 {
            i64::MIN
        } else if target > i64::MAX as i128 {
            i64::MAX
        } else {
            target as i64
        };
    }

    /// Takes over the pointer position and the viewport of the frame that is
    /// about to be drawn.
    pub fn refresh(&mut self, cursor: CursorSample, viewport: Viewport)
        ensures
            final(self).scale_log2 == old(self).scale_log2,
            final(self).cursor_normalized == cursor.normalized(viewport),
            final(self).aspect_ratio == viewport.aspect_ratio(),
    {
        self.cursor_normalized = cursor.normalized(viewport);
        self.aspect_ratio = viewport.aspect_ratio();
    }
}

} // verus!
