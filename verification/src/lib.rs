//! Frame-stepped player-control core for a 2D side-scroller.
//!
//! Each frame, raw directional key edges are folded into a locomotion state
//! (`Idle`/`Run`) and a facing direction (`Left`/`Right`), a sprite-sheet
//! animation cursor is advanced on a wrapping cycle keyed by that state, and
//! a kinematic displacement (signed run speed plus constant gravity) is
//! produced for a collision resolver to apply.
//!
//! Time is carried as whole microseconds and displacements as whole
//! nano-pixels, so every quantity is exact integer arithmetic.

pub mod animation;
pub mod movement;
pub mod player;
pub mod state;
