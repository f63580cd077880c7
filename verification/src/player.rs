//! The single controllable actor and its per-frame pipeline: locomotion
//! transition first, then the animation hooks and timer, then the movement
//! request — each stage reading the state the previous one committed.

use vstd::prelude::*;
use crate::animation::{
    spec_cycle_for, spec_tick, cycle_for, AnimationCursor, AnimationCycle, IDLE_FIRST_INDEX,
    IDLE_FRAME_MICROS, IDLE_LAST_INDEX, RUN_FIRST_INDEX, RUN_FRAME_MICROS, RUN_LAST_INDEX,
};
use crate::movement::{
    movement, spec_horizontal, spec_vertical, Displacement, MAX_FRAME_MICROS,
    MAX_GRAVITY_SCALE_MILLIS,
};
use crate::state::{spec_transition, transition, InputEdges, PlayerDirection, PlayerState};

verus! {

/// The default per-actor gravity multiplier, in thousandths: a multiplier
/// of one.
pub const DEFAULT_GRAVITY_SCALE_MILLIS: u32 = 1000;

/// The one player actor: its locomotion state and facing direction, the
/// animation cycle and cursor that follow them, the sprite mirror flag, and
/// the per-actor gravity multiplier fixed at spawn.
#[derive(Clone, Copy, Debug, PartialEq, Eq, Structural)]
pub struct Player {
    pub state: PlayerState,
    pub direction: PlayerDirection,
    pub cycle: AnimationCycle,
    pub cursor: AnimationCursor,
    pub mirrored: bool,
    pub gravity_scale_millis: u32,
}

impl Player {
    /// Well-formedness, established at spawn and preserved by every frame:
    /// the animation cycle is exactly the one configured for the active
    /// state, the cursor sits inside that cycle's index range, the sprite is
    /// mirrored exactly when facing left, the accumulated timer stays under
    /// the longest configured frame duration, and the gravity multiplier is
    /// within the accepted bound.
    pub open spec fn wf(self) -> bool {
        &&& self.cycle == spec_cycle_for(self.state)
        &&& self.cursor.in_range(self.cycle)
        &&& self.mirrored == (self.direction is Left)
        &&& self.cursor.elapsed_micros < IDLE_FRAME_MICROS
        &&& self.gravity_scale_millis <= MAX_GRAVITY_SCALE_MILLIS
    }

    /// The actor as it spawns: idle, facing right, showing the first idle
    /// frame with no accumulated time, unmirrored, with the default gravity
    /// multiplier.
    pub fn new() -> (r: Player)
        ensures
            r.wf(),
            r.state is Idle,
            r.direction is Right,
            r.cycle == spec_cycle_for(PlayerState::Idle),
            r.cursor.current_index == r.cycle.first_index,
            r.cursor.elapsed_micros == 0,
            !r.mirrored,
            r.gravity_scale_millis == DEFAULT_GRAVITY_SCALE_MILLIS,
    {
        let cycle = cycle_for(PlayerState::Idle);
        Player {
            state: PlayerState::Idle,
            direction: PlayerDirection::Right,
            cycle,
            cursor: AnimationCursor::at_start_of(&cycle),
            mirrored: false,
            gravity_scale_millis: DEFAULT_GRAVITY_SCALE_MILLIS,
        }
    }

    /// The whole frame as one mathematical step: the transition table picks
    /// the next state and direction; if the state changed, the cycle is
    /// replaced wholesale and the cursor is put on its first index (the
    /// repeating timer keeps its accumulated time); if the direction
    /// changed, the mirror flag is set for it; then the timer advances the
    /// cursor.
    pub open spec fn spec_frame(pre: Player, edges: InputEdges, dt_micros: u64) -> Player {
        let (next_state, next_direction) = spec_transition(pre.state, pre.direction, edges);
        let cycle = spec_cycle_for(next_state);
        let start = if next_state != pre.state {
            AnimationCursor {
                current_index: cycle.first_index,
                elapsed_micros: pre.cursor.elapsed_micros,
            }
        } else {
            pre.cursor
        };
        Player {
            state: next_state,
            direction: next_direction,
            cycle,
            cursor: spec_tick(start, cycle, dt_micros),
            mirrored: if next_direction != pre.direction {
                next_direction is Left
            } else {
                pre.mirrored
            },
            gravity_scale_millis: pre.gravity_scale_millis,
        }
    }

    /// Runs one frame: commits the locomotion transition, resets the
    /// animation cycle and cursor on a state change and the mirror flag on a
    /// direction change, advances the animation timer, and returns the
    /// kinematic displacement computed from the updated state — the request
    /// handed to the collision resolver.
    pub fn frame(&mut self, edges: InputEdges, dt_micros: u64) -> (r: Displacement)
        requires
            old(self).wf(),
            dt_micros <= MAX_FRAME_MICROS,
        ensures
            *final(self) == Player::spec_frame(*old(self), edges, dt_micros),
            final(self).wf(),
            (final(self).state, final(self).direction)
                == spec_transition(old(self).state, old(self).direction, edges),
            final(self).cycle == spec_cycle_for(final(self).state),
            final(self).cursor.in_range(final(self).cycle),
            r.x_nanopixels == spec_horizontal(final(self).state, final(self).direction, dt_micros),
            r.y_nanopixels == spec_vertical(old(self).gravity_scale_millis, dt_micros),
    {
        let (next_state, next_direction) = transition(self.state, self.direction, edges);
        if next_state != self.state {
            self.cycle = cycle_for(next_state);
            self.cursor.current_index = self.cycle.first_index;
        }
        self.state = next_state;
        if next_direction != self.direction {
            self.mirrored = matches!(next_direction, PlayerDirection::Left);
        }
        self.direction = next_direction;
        let cycle = self.cycle;
        self.cursor.tick(&cycle, dt_micros);
        movement(self.state, self.direction, self.gravity_scale_millis, dt_micros)
    }

    /// Executable check of [`Player::wf`], for callers outside the verified
    /// world that must validate an actor before stepping it.
    pub fn is_well_formed(&self) -> (b: bool)
        ensures
            b == self.wf(),
    {
        let configured = cycle_for(self.state);
        self.cycle == configured
            && configured.first_index <= self.cursor.current_index
            && self.cursor.current_index <= configured.last_index
            && self.mirrored == matches!(self.direction, PlayerDirection::Left)
            && self.cursor.elapsed_micros < IDLE_FRAME_MICROS
            && self.gravity_scale_millis <= MAX_GRAVITY_SCALE_MILLIS
    }
}

/// After any frame of a well-formed actor, the active animation cycle is the
/// one configured for the active motion state: a frame that lands in `Run`
/// leaves the run indices and the run frame duration active, and a frame
/// that lands in `Idle` leaves the idle ones — whether or not the state
/// changed.
pub proof fn lemma_frame_cycle_follows_state(pre: Player, edges: InputEdges, dt_micros: u64)
    requires
        pre.wf(),
    ensures
        ({
            let post = Player::spec_frame(pre, edges, dt_micros);
            &&& post.state is Run ==> post.cycle.first_index == RUN_FIRST_INDEX
                && post.cycle.last_index == RUN_LAST_INDEX
                && post.cycle.frame_duration_micros == RUN_FRAME_MICROS
            &&& post.state is Idle ==> post.cycle.first_index == IDLE_FIRST_INDEX
                && post.cycle.last_index == IDLE_LAST_INDEX
                && post.cycle.frame_duration_micros == IDLE_FRAME_MICROS
        }),
{
}

} // verus!
