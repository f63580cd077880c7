//! Animation driver: a sprite-sheet frame cycle keyed by the motion state,
//! and a cursor that walks it on a wrapping, timer-driven advance.

use vstd::prelude::*;
use crate::state::PlayerState;

verus! {

/// First sprite-sheet index of the idle cycle.
pub const IDLE_FIRST_INDEX: usize = 0;
/// Last sprite-sheet index of the idle cycle.
pub const IDLE_LAST_INDEX: usize = 9;
/// Display time of one idle frame, in microseconds.
pub const IDLE_FRAME_MICROS: u64 = 100_000;

/// First sprite-sheet index of the run cycle.
pub const RUN_FIRST_INDEX: usize = 10;
/// Last sprite-sheet index of the run cycle.
pub const RUN_LAST_INDEX: usize = 19;
/// Display time of one run frame, in microseconds.
pub const RUN_FRAME_MICROS: u64 = 50_000;

/// A contiguous range of sprite-sheet frame indices plus the display time of
/// each frame. Selected wholesale by the motion state, never interpolated.
#[derive(Clone, Copy, Debug, PartialEq, Eq, Structural)]
pub struct AnimationCycle {
    pub first_index: usize,
    pub last_index: usize,
    pub frame_duration_micros: u64,
}

impl AnimationCycle {
    /// A usable cycle: a nonempty index range and a nonzero frame time.
    pub open spec fn wf(self) -> bool {
        &&& self.first_index <= self.last_index
        &&& self.frame_duration_micros > 0
    }
}

/// The cycle configured for a motion state: idle frames are shown for
/// 0.1 s each, run frames for 0.05 s each.
pub open spec fn spec_cycle_for(state: PlayerState) -> AnimationCycle {
    match state {
        PlayerState::Idle => AnimationCycle {
            first_index: IDLE_FIRST_INDEX,
            last_index: IDLE_LAST_INDEX,
            frame_duration_micros: IDLE_FRAME_MICROS,
        },
        PlayerState::Run => AnimationCycle {
            first_index: RUN_FIRST_INDEX,
            last_index: RUN_LAST_INDEX,
            frame_duration_micros: RUN_FRAME_MICROS,
        },
    }
}

/// Executable counterpart of [`spec_cycle_for`].
pub fn cycle_for(state: PlayerState) -> (r: AnimationCycle)
    ensures
        r == spec_cycle_for(state),
        r.wf(),
{
    match state {
        PlayerState::Idle => AnimationCycle {
            first_index: IDLE_FIRST_INDEX,
            last_index: IDLE_LAST_INDEX,
            frame_duration_micros: IDLE_FRAME_MICROS,
        },
        PlayerState::Run => AnimationCycle {
            first_index: RUN_FIRST_INDEX,
            last_index: RUN_LAST_INDEX,
            frame_duration_micros: RUN_FRAME_MICROS,
        },
    }
}

/// The displayed sprite index plus the time accumulated toward the next
/// advance, in microseconds.
#[derive(Clone, Copy, Debug, PartialEq, Eq, Structural)]
pub struct AnimationCursor {
    pub current_index: usize,
    pub elapsed_micros: u64,
}

/// The index one step along the cycle: after `last_index` it wraps back to
/// `first_index` exactly.
pub open spec fn spec_wrapped_next(cycle: AnimationCycle, index: usize) -> usize {
    if index == cycle.last_index {
        cycle.first_index
    } else {
        (index + 1) as usize
    }
}

/// One frame of the repeating timer: the elapsed frame time is accumulated,
/// and when it reaches the cycle's frame duration the index advances by one
/// (wrapping) and the timer keeps only the remainder.
pub open spec fn spec_tick(
    cursor: AnimationCursor,
    cycle: AnimationCycle,
    dt_micros: u64,
) -> AnimationCursor {
    let total = cursor.elapsed_micros + dt_micros;
    if total >= cycle.frame_duration_micros {
        AnimationCursor {
            current_index: spec_wrapped_next(cycle, cursor.current_index),
            elapsed_micros: (total % (cycle.frame_duration_micros as int)) as u64,
        }
    } else {
        AnimationCursor {
            current_index: cursor.current_index,
            elapsed_micros: total as u64,
        }
    }
}

impl AnimationCursor {
    /// The cursor points inside the cycle's index range.
    pub open spec fn in_range(self, cycle: AnimationCycle) -> bool {
        cycle.first_index <= self.current_index <= cycle.last_index
    }

    /// A fresh cursor at the start of `cycle`, with no accumulated time.
    pub fn at_start_of(cycle: &AnimationCycle) -> (r: AnimationCursor)
        ensures
            r.current_index == cycle.first_index,
            r.elapsed_micros == 0,
    {
        AnimationCursor { current_index: cycle.first_index, elapsed_micros: 0 }
    }

    /// Advances the repeating animation timer by one frame's elapsed time,
    /// stepping the displayed index by one (with an exact wrap from
    /// `last_index` to `first_index`) each time the timer fires.
    pub fn tick(&mut self, cycle: &AnimationCycle, dt_micros: u64)
        requires
            cycle.wf(),
            old(self).in_range(*cycle),
            old(self).elapsed_micros + dt_micros <= u64::MAX,
        ensures
            *final(self) == spec_tick(*old(self), *cycle, dt_micros),
            final(self).in_range(*cycle),
            final(self).elapsed_micros < cycle.frame_duration_micros
                || final(self).elapsed_micros == old(self).elapsed_micros + dt_micros,
    {
        self.elapsed_micros = self.elapsed_micros + dt_micros;
        if self.elapsed_micros >= cycle.frame_duration_micros {
            if self.current_index == cycle.last_index {
                self.current_index = cycle.first_index;
            } else {
                self.current_index = self.current_index + 1;
            }
            self.elapsed_micros = self.elapsed_micros % cycle.frame_duration_micros;
        }
    }
}

/// The wrapping advance never leaves the active cycle's index range: from
/// any in-range index, one tick lands on an in-range index, and from
/// `last_index` a firing tick lands on `first_index` exactly — no frame is
/// skipped or repeated at the wrap boundary.
pub proof fn lemma_tick_stays_in_range(
    cursor: AnimationCursor,
    cycle: AnimationCycle,
    dt_micros: u64,
)
    requires
        cycle.wf(),
        cursor.in_range(cycle),
        cursor.elapsed_micros + dt_micros <= u64::MAX,
    ensures
        spec_tick(cursor, cycle, dt_micros).in_range(cycle),
        cursor.elapsed_micros + dt_micros >= cycle.frame_duration_micros
            ==> spec_tick(cursor, cycle, dt_micros).current_index
                == spec_wrapped_next(cycle, cursor.current_index),
        cursor.elapsed_micros + dt_micros >= cycle.frame_duration_micros
            && cursor.current_index == cycle.last_index
            ==> spec_tick(cursor, cycle, dt_micros).current_index == cycle.first_index,
        cursor.elapsed_micros + dt_micros >= cycle.frame_duration_micros
            && cursor.current_index < cycle.last_index
            ==> spec_tick(cursor, cycle, dt_micros).current_index == cursor.current_index + 1,
        cursor.elapsed_micros + dt_micros < cycle.frame_duration_micros
            ==> spec_tick(cursor, cycle, dt_micros).current_index == cursor.current_index,
{
}

} // verus!
