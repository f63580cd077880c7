use player_core::animation::{
    cycle_for, AnimationCursor, IDLE_FIRST_INDEX, IDLE_FRAME_MICROS, IDLE_LAST_INDEX,
    RUN_FIRST_INDEX, RUN_FRAME_MICROS, RUN_LAST_INDEX,
};
use player_core::player::Player;
use player_core::state::{InputEdges, PlayerDirection, PlayerState};

fn edges(pr: bool, rr: bool, pl: bool, rl: bool) -> InputEdges {
    InputEdges {
        pressed_right: pr,
        released_right: rr,
        pressed_left: pl,
        released_left: rl,
    }
}

fn run_left_player() -> Player {
    let cycle = cycle_for(PlayerState::Run);
    Player {
        state: PlayerState::Run,
        direction: PlayerDirection::Left,
        cycle,
        cursor: AnimationCursor {
            current_index: cycle.first_index,
            elapsed_micros: 0,
        },
        mirrored: true,
        gravity_scale_millis: 1000,
    }
}

#[test]
fn spawn_defaults() {
    let p = Player::new();
    assert!(p.is_well_formed());
    assert_eq!(p.state, PlayerState::Idle);
    assert_eq!(p.direction, PlayerDirection::Right);
    assert_eq!(p.cycle.first_index, IDLE_FIRST_INDEX);
    assert_eq!(p.cycle.last_index, IDLE_LAST_INDEX);
    assert_eq!(p.cycle.frame_duration_micros, IDLE_FRAME_MICROS);
    assert_eq!(p.cursor.current_index, IDLE_FIRST_INDEX);
    assert_eq!(p.cursor.elapsed_micros, 0);
    assert!(!p.mirrored);
}

#[test]
fn press_right_from_spawn() {
    // Idle facing right; a right-press edge starts a run without turning,
    // and a 0.02 s frame moves 10 pixels right and 5 pixels down.
    let mut p = Player::new();
    let m = p.frame(edges(true, false, false, false), 20_000);
    assert!(p.is_well_formed());
    assert_eq!(p.state, PlayerState::Run);
    assert_eq!(p.direction, PlayerDirection::Right);
    assert!(!p.mirrored);
    assert_eq!(m.x_nanopixels as f64 / 1e9, 10.0);
    assert_eq!(m.y_nanopixels as f64 / 1e9, -5.0);
}

#[test]
fn entering_run_resets_to_run_cycle() {
    let mut p = Player::new();
    p.frame(edges(true, false, false, false), 1_000);
    assert_eq!(p.cycle.first_index, RUN_FIRST_INDEX);
    assert_eq!(p.cycle.last_index, RUN_LAST_INDEX);
    assert_eq!(p.cycle.frame_duration_micros, RUN_FRAME_MICROS);
    assert_eq!(p.cursor.current_index, RUN_FIRST_INDEX);
}

#[test]
fn entering_idle_resets_to_idle_cycle() {
    let mut p = run_left_player();
    // Releasing the left key while running left stops the run.
    p.frame(edges(false, false, false, true), 1_000);
    assert_eq!(p.state, PlayerState::Idle);
    assert_eq!(p.direction, PlayerDirection::Left);
    assert_eq!(p.cycle.first_index, IDLE_FIRST_INDEX);
    assert_eq!(p.cycle.last_index, IDLE_LAST_INDEX);
    assert_eq!(p.cycle.frame_duration_micros, IDLE_FRAME_MICROS);
    assert_eq!(p.cursor.current_index, IDLE_FIRST_INDEX);
}

#[test]
fn run_left_three_quiet_frames() {
    // Running left for three 0.016 s frames with no new edges: the state,
    // direction and sprite index hold still (0.048 s accumulated is under
    // the 0.05 s run frame time) and each frame moves 8 pixels left.
    let mut p = run_left_player();
    let quiet = InputEdges::none();
    for expected_elapsed in [16_000u64, 32_000, 48_000] {
        let m = p.frame(quiet, 16_000);
        assert!(p.is_well_formed());
        assert_eq!(p.state, PlayerState::Run);
        assert_eq!(p.direction, PlayerDirection::Left);
        assert_eq!(m.x_nanopixels as f64 / 1e9, -8.0);
        assert_eq!(p.cursor.current_index, RUN_FIRST_INDEX);
        assert_eq!(p.cursor.elapsed_micros, expected_elapsed);
    }
    // The fourth frame crosses 0.05 s and advances exactly one sprite frame.
    p.frame(quiet, 16_000);
    assert_eq!(p.cursor.current_index, RUN_FIRST_INDEX + 1);
    assert_eq!(p.cursor.elapsed_micros, 14_000);
}

#[test]
fn stop_running_keeps_direction() {
    let cycle = cycle_for(PlayerState::Run);
    let mut p = Player {
        state: PlayerState::Run,
        direction: PlayerDirection::Right,
        cycle,
        cursor: AnimationCursor {
            current_index: cycle.first_index,
            elapsed_micros: 0,
        },
        mirrored: false,
        gravity_scale_millis: 1000,
    };
    p.frame(edges(false, true, false, false), 1_000);
    assert_eq!(p.state, PlayerState::Idle);
    assert_eq!(p.direction, PlayerDirection::Right);
    assert!(!p.mirrored);
}

#[test]
fn flip_while_running_mirrors_sprite() {
    let cycle = cycle_for(PlayerState::Run);
    let mut p = Player {
        state: PlayerState::Run,
        direction: PlayerDirection::Right,
        cycle,
        cursor: AnimationCursor {
            current_index: 13,
            elapsed_micros: 7_000,
        },
        mirrored: false,
        gravity_scale_millis: 1000,
    };
    let m = p.frame(edges(false, true, true, false), 16_000);
    assert!(p.is_well_formed());
    assert_eq!(p.state, PlayerState::Run);
    assert_eq!(p.direction, PlayerDirection::Left);
    assert!(p.mirrored);
    // The state did not change, so the cycle and cursor are not reset.
    assert_eq!(p.cycle.first_index, RUN_FIRST_INDEX);
    assert_eq!(p.cursor.current_index, 13);
    assert_eq!(m.x_nanopixels as f64 / 1e9, -8.0);
}

#[test]
fn turning_back_right_unmirrors() {
    let mut p = run_left_player();
    p.frame(edges(true, false, false, true), 1_000);
    assert_eq!(p.direction, PlayerDirection::Right);
    assert!(!p.mirrored);
}

#[test]
fn cursor_wraps_exactly_at_cycle_end() {
    let idle = cycle_for(PlayerState::Idle);
    let mut c = AnimationCursor {
        current_index: IDLE_LAST_INDEX,
        elapsed_micros: 0,
    };
    c.tick(&idle, IDLE_FRAME_MICROS);
    assert_eq!(c.current_index, IDLE_FIRST_INDEX);
    assert_eq!(c.elapsed_micros, 0);
}

#[test]
fn cursor_advances_one_frame_at_a_time() {
    let idle = cycle_for(PlayerState::Idle);
    let mut c = AnimationCursor {
        current_index: 4,
        elapsed_micros: 90_000,
    };
    c.tick(&idle, 25_000);
    assert_eq!(c.current_index, 5);
    assert_eq!(c.elapsed_micros, 15_000);
}

#[test]
fn cursor_holds_under_frame_duration() {
    let idle = cycle_for(PlayerState::Idle);
    let mut c = AnimationCursor {
        current_index: 4,
        elapsed_micros: 10_000,
    };
    c.tick(&idle, 25_000);
    assert_eq!(c.current_index, 4);
    assert_eq!(c.elapsed_micros, 35_000);
}

#[test]
fn tie_break_frame_is_a_full_noop() {
    let mut p = Player::new();
    let before = p;
    p.frame(edges(true, false, true, false), 0);
    assert_eq!(p, before);
}

#[test]
fn well_formedness_rejects_stray_cursor() {
    let mut p = Player::new();
    assert!(p.is_well_formed());
    p.cursor.current_index = RUN_LAST_INDEX;
    assert!(!p.is_well_formed());
}
