//! Movement integrator: turns the motion state, facing direction and one
//! frame's elapsed time into the kinematic displacement handed to a
//! collision resolver.

use vstd::prelude::*;
use crate::state::{PlayerDirection, PlayerState};

verus! {

/// Horizontal run speed, in pixels per second.
pub const PLAYER_SPEED: i64 = 500;

/// Constant vertical acceleration term, in pixels per second, negative
/// because it points downward.
pub const GRAVITY: i64 = -250;

/// Nano-units per unit: a nano-pixel is a pixel split this many ways, and a
/// gravity multiplier of one is this many thousandths of a thousandth.
pub const NANO_PER_UNIT: i64 = 1_000_000_000;

/// Largest frame time a single step accepts, in microseconds (1000 s —
/// far beyond any real frame, but a bound the arithmetic needs).
pub const MAX_FRAME_MICROS: u64 = 1_000_000_000;

/// Largest accepted gravity multiplier, in thousandths (a thousandfold
/// multiplier).
pub const MAX_GRAVITY_SCALE_MILLIS: u32 = 1_000_000;

/// One frame's requested displacement, in nano-pixels (a nano-pixel is one
/// billionth of a pixel, so the values are exact integers). A collision
/// resolver, not this core, turns the request into a resolved position.
#[derive(Clone, Copy, Debug, PartialEq, Eq, Structural)]
pub struct Displacement {
    pub x_nanopixels: i64,
    pub y_nanopixels: i64,
}

/// The horizontal displacement of one frame, in nano-pixels: zero while
/// idle, otherwise the run speed over the frame time, positive toward the
/// right and negative toward the left.
pub open spec fn spec_horizontal(
    state: PlayerState,
    direction: PlayerDirection,
    dt_micros: u64,
) -> int {
    if state is Run {
        if direction is Right {
            PLAYER_SPEED * 1000 * dt_micros
        } else {
            -PLAYER_SPEED * 1000 * dt_micros
        }
    } else {
        0
    }
}

/// The vertical displacement of one frame, in nano-pixels: the gravity
/// constant times the per-actor multiplier (in thousandths) over the frame
/// time, always downward.
pub open spec fn spec_vertical(gravity_scale_millis: u32, dt_micros: u64) -> int {
    GRAVITY * gravity_scale_millis * dt_micros
}

/// Computes the frame's kinematic displacement from the already-updated
/// state and direction. Always produces a vector (possibly zero sideways);
/// never errors.
pub fn movement(
    state: PlayerState,
    direction: PlayerDirection,
    gravity_scale_millis: u32,
    dt_micros: u64,
) -> (r: Displacement)
    requires
        dt_micros <= MAX_FRAME_MICROS,
        gravity_scale_millis <= MAX_GRAVITY_SCALE_MILLIS,
    ensures
        r.x_nanopixels == spec_horizontal(state, direction, dt_micros),
        r.y_nanopixels == spec_vertical(gravity_scale_millis, dt_micros),
{
    let dt: i64 = dt_micros as i64;
    let scale: i64 = gravity_scale_millis as i64;
    proof {
        assert((GRAVITY * scale) * dt >= GRAVITY * MAX_GRAVITY_SCALE_MILLIS * MAX_FRAME_MICROS
            && (GRAVITY * scale) * dt <= 0) by (nonlinear_arith)
            requires
                0 <= scale <= MAX_GRAVITY_SCALE_MILLIS,
                0 <= dt <= MAX_FRAME_MICROS,
        ;
        assert(0 <= (PLAYER_SPEED * 1000) * dt
            <= PLAYER_SPEED * 1000 * MAX_FRAME_MICROS
            && 0 >= (-PLAYER_SPEED * 1000) * dt
            >= -PLAYER_SPEED * 1000 * MAX_FRAME_MICROS) by (nonlinear_arith)
            requires
                0 <= dt <= MAX_FRAME_MICROS,
        ;
    }
    let y: i64 = (GRAVITY * scale) * dt;
    let x: i64 = match state {
        PlayerState::Run => {
            match direction {
                PlayerDirection::Right => (PLAYER_SPEED * 1000) * dt,
                PlayerDirection::Left => (-PLAYER_SPEED * 1000) * dt,
            }
        }
        PlayerState::Idle => 0,
    };
    Displacement { x_nanopixels: x, y_nanopixels: y }
}

} // verus!
