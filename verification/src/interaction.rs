//! The interaction modes and the transition table between them.

use vstd::prelude::*;

verus! {

/// Longest hold, in microseconds, that still counts as a tap.
pub const PRE_TAP_WINDOW: u64 = 300_000;

/// Longest gap, in microseconds, between the press of an armed tap and the
/// next press for the pair to count as a double tap. The same span is the
/// delay after which a stationary hold starts zooming in.
pub const DOUBLE_TAP_TIMEOUT: u64 = 1_000_000;

/// What the pointer is currently doing to the view.
#[derive(Clone, Copy, Debug, PartialEq, Eq)]
pub enum InteractionState {
    /// No contact. `pre_tapped_at` holds the press time of a recent short
    /// tap, if one armed the double-tap window.
    Idle { pre_tapped_at: Option<u64> },
    /// Contact held since `pressed_down_at`, neither dragged nor held long
    /// enough to zoom.
    PressIdle { pressed_down_at: u64 },
    /// Contact held and dragging.
    Panning,
    /// Contact held still for long enough: the view zooms in continuously.
    ZoomingIn,
    /// Contact held after a double tap: the view zooms out continuously.
    ZoomingOut,
}

/// One input to the transition table.
#[derive(Clone, Copy, Debug, PartialEq, Eq)]
pub enum Stimulus {
    /// The pointer made contact at time `now`.
    Down { now: u64 },
    /// The pointer was lifted at time `now`.
    Up { now: u64 },
    /// The pointer moved while the position changed; `drag` tells whether the
    /// movement was large enough to count as a drag.
    Move { drag: bool },
    /// A frame is about to be drawn at time `now`.
    Tick { now: u64 },
}

/// Time from `since` to `now`, in microseconds. Negative when the clock ran
/// backward between the two readings.
pub open spec fn elapsed(now: u64, since: u64) -> int {
    now - since
}

/// Tells whether less than `limit` microseconds passed from `since` to `now`.
pub fn elapsed_below(now: u64, since: u64, limit: u64) -> (below: bool)
    ensures
        below == (elapsed(now, since) < limit),
{
    now < since || now - since < limit
}

/// The state after a sequence of inputs, taken in order.
pub open spec fn run(state: InteractionState, inputs: Seq<Stimulus>) -> InteractionState
    decreases inputs.len(),
{
    if inputs.len() == 0 {
        state
    } else {
        run(state, inputs.drop_last()).step(inputs.last())
    }
}

impl InteractionState {
    /// The state at creation: no contact and no armed tap.
    pub open spec fn initial() -> InteractionState {
        InteractionState::Idle { pre_tapped_at: None }
    }

    /// Tells whether the pointer is in contact with the surface.
    pub open spec fn is_holding(self) -> bool {
        match self {
            InteractionState::Idle { .. } => false,
            InteractionState::PressIdle { .. }
            | InteractionState::Panning
            | InteractionState::ZoomingIn
            | InteractionState::ZoomingOut => true,
        }
    }

    /// The state after the pointer makes contact at time `now`.
    ///
    /// From rest, a press inside the double-tap window of an armed tap starts
    /// zooming out; any other press starts a hold. A press while a contact is
    /// already held is ignored.
    pub open spec fn after_down(self, now: u64) -> InteractionState {
        match self {
            InteractionState::Idle { pre_tapped_at: Some(tapped_at) } => {
                if elapsed(now, tapped_at) < DOUBLE_TAP_TIMEOUT {
                    InteractionState::ZoomingOut
                } else {
                    InteractionState::PressIdle { pressed_down_at: now }
                }
            },
            InteractionState::Idle { pre_tapped_at: None } => {
                InteractionState::PressIdle { pressed_down_at: now }
            },
            InteractionState::PressIdle { .. }
            | InteractionState::Panning
            | InteractionState::ZoomingIn
            | InteractionState::ZoomingOut => self,
        }
    }

    /// The state after the pointer is lifted at time `now`.
    ///
    /// Lifting always leads to rest. Only a hold shorter than the tap window
    /// arms a tap, and it arms it with the time of the press.
    pub open spec fn after_up(self, now: u64) -> InteractionState {
        match self {
            InteractionState::PressIdle { pressed_down_at } => {
                if elapsed(now, pressed_down_at) < PRE_TAP_WINDOW {
                    InteractionState::Idle { pre_tapped_at: Some(pressed_down_at) }
                } else {
                    InteractionState::Idle { pre_tapped_at: None }
                }
            },
            InteractionState::Idle { .. } => self,
            InteractionState::Panning
            | InteractionState::ZoomingIn
            | InteractionState::ZoomingOut => InteractionState::Idle { pre_tapped_at: None },
        }
    }

    /// The state after the pointer moved to a new position. A drag turns any
    /// held contact into a pan; anything less leaves the state as it is.
    pub open spec fn after_move(self, drag: bool) -> InteractionState {
        if drag && self.is_holding() {
            InteractionState::Panning
        } else {
            self
        }
    }

    /// The state after a frame tick at time `now`: a hold that has lasted
    /// longer than the timeout starts zooming in.
    pub open spec fn after_tick(self, now: u64) -> InteractionState {
        match self {
            InteractionState::PressIdle { pressed_down_at } => {
                if elapsed(now, pressed_down_at) > DOUBLE_TAP_TIMEOUT {
                    InteractionState::ZoomingIn
                } else {
                    self
                }
            },
            InteractionState::Idle { .. }
            | InteractionState::Panning
            | InteractionState::ZoomingIn
            | InteractionState::ZoomingOut => self,
        }
    }

    /// The state after one input, whichever it is.
    pub open spec fn step(self, input: Stimulus) -> InteractionState {
        match input {
            Stimulus::Down { now } => self.after_down(now),
            Stimulus::Up { now } => self.after_up(now),
            Stimulus::Move { drag } => self.after_move(drag),
            Stimulus::Tick { now } => self.after_tick(now),
        }
    }

    /// Handles a pointer contact at time `now`.
    pub fn pointer_down(self, now: u64) -> (next: InteractionState)
        ensures
            next == self.after_down(now),
    {
        match self {
            InteractionState::Idle { pre_tapped_at } => {
                let double_tap = match pre_tapped_at {
                    Some(tapped_at) => elapsed_below(now, tapped_at, DOUBLE_TAP_TIMEOUT),
                    None => false,
                };
                if double_tap {
                    InteractionState::ZoomingOut
                } else {
                    InteractionState::PressIdle { pressed_down_at: now }
                }
            },
            InteractionState::PressIdle { pressed_down_at } => {
                InteractionState::PressIdle { pressed_down_at }
            },
            InteractionState::Panning => InteractionState::Panning,
            InteractionState::ZoomingIn => InteractionState::ZoomingIn,
            InteractionState::ZoomingOut => InteractionState::ZoomingOut,
        }
    }

    /// Handles the release of the pointer at time `now`.
    pub fn pointer_up(self, now: u64) -> (next: InteractionState)
        ensures
            next == self.after_up(now),
    {
        match self {
            InteractionState::Idle { pre_tapped_at } => InteractionState::Idle { pre_tapped_at },
            InteractionState::PressIdle { pressed_down_at } => {
                let pre_tapped_at = if elapsed_below(now, pressed_down_at, PRE_TAP_WINDOW) {
                    Some(pressed_down_at)
                } else {
                    None
                };
                InteractionState::Idle { pre_tapped_at }
            },
            InteractionState::Panning | InteractionState::ZoomingIn | InteractionState::ZoomingOut => {
                InteractionState::Idle { pre_tapped_at: None }
            },
        }
    }

    /// Handles a change of the pointer's position; `drag` tells whether the
    /// movement was large enough to count as a drag.
    pub fn pointer_move(self, drag: bool) -> (next: InteractionState)
        ensures
            next == self.after_move(drag),
    {
        if drag && self.holding() {
            InteractionState::Panning
        } else {
            self
        }
    }

    /// Handles a frame tick at time `now`.
    pub fn tick(self, now: u64) -> (next: InteractionState)
        ensures
            next == self.after_tick(now),
    {
        match self {
            InteractionState::PressIdle { pressed_down_at } => {
                if now > pressed_down_at && now - pressed_down_at > DOUBLE_TAP_TIMEOUT {
                    InteractionState::ZoomingIn
                } else {
                    InteractionState::PressIdle { pressed_down_at }
                }
            },
            InteractionState::Idle { pre_tapped_at } => InteractionState::Idle { pre_tapped_at },
            InteractionState::Panning => InteractionState::Panning,
            InteractionState::ZoomingIn => InteractionState::ZoomingIn,
            InteractionState::ZoomingOut => InteractionState::ZoomingOut,
        }
    }

    /// Applies one input of any kind.
    pub fn advance(self, input: Stimulus) -> (next: InteractionState)
        ensures
            next == self.step(input),
    {
        match input {
            Stimulus::Down { now } => self.pointer_down(now),
            Stimulus::Up { now } => self.pointer_up(now),
            Stimulus::Move { drag } => self.pointer_move(drag),
            Stimulus::Tick { now } => self.tick(now),
        }
    }

    /// Applies a sequence of inputs in order.
    pub fn advance_all(self, inputs: &Vec<Stimulus>) -> (last: InteractionState)
        ensures
            last == run(self, inputs@),
    {
        let mut state = self;
        let mut done: usize = 0;
        while done < inputs.len()
            invariant
                done <= inputs.len(),
                state == run(self, inputs@.take(done as int)),
            decreases inputs.len() - done,
        {
            assert(inputs@.take(done + 1).drop_last() == inputs@.take(done as int));
            state = state.advance(inputs[done]);
            done += 1;
        }
        assert(inputs@.take(done as int) == inputs@);
        state
    }

    /// Tells whether the pointer is in contact with the surface, which is
    /// when moving it pans the view.
    pub fn holding(self) -> (held: bool)
        ensures
            held == self.is_holding(),
    {
        match self {
            InteractionState::Idle { .. } => false,
            InteractionState::PressIdle { .. }
            | InteractionState::Panning
            | InteractionState::ZoomingIn
            | InteractionState::ZoomingOut => true,
        }
    }
}

} // verus!
