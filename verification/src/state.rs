//! Locomotion state machine: folds one frame's directional key edges into
//! the next motion state and facing direction.

use vstd::prelude::*;

verus! {

/// The direction the player faces; it signs the horizontal run speed and
/// selects whether the sprite is mirrored.
#[derive(Clone, Copy, Debug, PartialEq, Eq, Structural)]
pub enum PlayerDirection {
    Right,
    Left,
}

/// The locomotion state; it selects the animation cycle and whether any
/// horizontal speed is applied.
#[derive(Clone, Copy, Debug, PartialEq, Eq, Structural)]
pub enum PlayerState {
    Idle,
    Run,
}

/// One frame's worth of key edges: a pulse for each key that was pressed or
/// released during the frame, distinct from "currently held".
#[derive(Clone, Copy, Debug, PartialEq, Eq, Structural)]
pub struct InputEdges {
    pub pressed_right: bool,
    pub released_right: bool,
    pub pressed_left: bool,
    pub released_left: bool,
}

impl InputEdges {
    /// A frame during which no key changed.
    pub open spec fn spec_none() -> InputEdges {
        InputEdges {
            pressed_right: false,
            released_right: false,
            pressed_left: false,
            released_left: false,
        }
    }

    /// Executable counterpart of [`InputEdges::spec_none`].
    pub fn none() -> (r: InputEdges)
        ensures
            r == InputEdges::spec_none(),
    {
        InputEdges {
            pressed_right: false,
            released_right: false,
            pressed_left: false,
            released_left: false,
        }
    }
}

/// The transition table, as one total function from the current state,
/// direction and edges to the next state and direction.
///
/// From `Idle`: simultaneous opposite edges (both pressed, or both released)
/// are an ambiguous tie and change nothing, by design; otherwise a right
/// press or a left release starts a run facing right, and a left press or a
/// right release starts a run facing left. From `Run`: releasing the key of
/// the current direction while pressing the opposite key flips the direction
/// without passing through `Idle`; releasing the current key alone, or
/// pressing the opposite key alone, stops the run with the direction kept;
/// everything else changes nothing.
pub open spec fn spec_transition(
    state: PlayerState,
    direction: PlayerDirection,
    edges: InputEdges,
) -> (PlayerState, PlayerDirection) {
    match state {
        PlayerState::Idle => {
            if (edges.pressed_right && edges.pressed_left)
                || (edges.released_right && edges.released_left) {
                (state, direction)
            } else if edges.pressed_right || edges.released_left {
                (PlayerState::Run, PlayerDirection::Right)
            } else if edges.pressed_left || edges.released_right {
                (PlayerState::Run, PlayerDirection::Left)
            } else {
                (state, direction)
            }
        }
        PlayerState::Run => {
            if direction is Right && edges.released_right && edges.pressed_left {
                (PlayerState::Run, PlayerDirection::Left)
            } else if direction is Right && (edges.released_right || edges.pressed_left) {
                (PlayerState::Idle, direction)
            } else if direction is Left && edges.released_left && edges.pressed_right {
                (PlayerState::Run, PlayerDirection::Right)
            } else if direction is Left && (edges.released_left || edges.pressed_right) {
                (PlayerState::Idle, direction)
            } else {
                (state, direction)
            }
        }
    }
}

/// Computes the next motion state and facing direction from this frame's
/// edges. Total over its inputs; at most one state change and one direction
/// change per call, exactly as the transition table says.
pub fn transition(
    state: PlayerState,
    direction: PlayerDirection,
    edges: InputEdges,
) -> (r: (PlayerState, PlayerDirection))
    ensures
        r == spec_transition(state, direction, edges),
{
    match state {
        PlayerState::Idle => {
            if (edges.pressed_right && edges.pressed_left)
                || (edges.released_right && edges.released_left) {
                (state, direction)
            } else if edges.pressed_right || edges.released_left {
                (PlayerState::Run, PlayerDirection::Right)
            } else if edges.pressed_left || edges.released_right {
                (PlayerState::Run, PlayerDirection::Left)
            } else {
                (state, direction)
            }
        }
        PlayerState::Run => {
            if matches!(direction, PlayerDirection::Right)
                && edges.released_right && edges.pressed_left {
                (PlayerState::Run, PlayerDirection::Left)
            } else if matches!(direction, PlayerDirection::Right)
                && (edges.released_right || edges.pressed_left) {
                (PlayerState::Idle, direction)
            } else if matches!(direction, PlayerDirection::Left)
                && edges.released_left && edges.pressed_right {
                (PlayerState::Run, PlayerDirection::Right)
            } else if matches!(direction, PlayerDirection::Left)
                && (edges.released_left || edges.pressed_right) {
                (PlayerState::Idle, direction)
            } else {
                (state, direction)
            }
        }
    }
}

/// A frame without edges changes nothing, so applying the transition twice
/// in a row with no new edges leaves both the motion state and the facing
/// direction exactly as they were.
pub proof fn lemma_no_edges_idempotent(state: PlayerState, direction: PlayerDirection)
    ensures
        spec_transition(state, direction, InputEdges::spec_none()) == (state, direction),
        spec_transition(
            spec_transition(state, direction, InputEdges::spec_none()).0,
            spec_transition(state, direction, InputEdges::spec_none()).1,
            InputEdges::spec_none(),
        ) == (state, direction),
{
}

} // verus!
