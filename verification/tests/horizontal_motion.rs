use platformer_core::config::MovementConfig;
use platformer_core::horizontal::{
    resolve, run, walk, DirectionalInput, Run, RunDirection, Speed, Walk,
};
use platformer_core::input::{handle_input, InputSnapshot};
use platformer_core::player::Player;
use platformer_core::vertical::{Jump, VerticalMotion};

fn keys(left: bool, right: bool, run_mod: bool) -> InputSnapshot {
    InputSnapshot {
        left_held: left,
        right_held: right,
        run_held: run_mod,
        jump_held: false,
        jump_just_released: false,
    }
}

#[test]
fn run_left_one_tick_moves_minus_2_4_units() {
    // dt = 16 ms, run speed 150 u/s: 2400 milliunits = 2.4 units, to the left
    let d = resolve(
        DirectionalInput { left: true, right: false },
        100,
        true,
        150,
        16,
    );
    assert_eq!(d, -2_400);
}

#[test]
fn walking_uses_the_base_speed() {
    let d = resolve(
        DirectionalInput { left: false, right: true },
        100,
        false,
        150,
        16,
    );
    assert_eq!(d, 1_600);
}

#[test]
fn no_movement_keys_no_displacement() {
    let d = resolve(DirectionalInput { left: false, right: false }, 100, true, 150, 16);
    assert_eq!(d, 0);
}

#[test]
fn left_wins_when_both_directions_are_held() {
    let d = resolve(DirectionalInput { left: true, right: true }, 100, false, 150, 16);
    assert_eq!(d, -1_600);
}

#[test]
fn run_marker_is_applied_once_and_removed() {
    let mut x: i64 = 5_000;
    let mut marker = Some(Run {
        speed: 150,
        direction: RunDirection::Left,
    });
    run(&mut x, &mut marker, 16);
    assert_eq!(x, 5_000 - 2_400);
    assert_eq!(marker, None);
    // a second tick without re-deriving the marker moves nothing
    run(&mut x, &mut marker, 16);
    assert_eq!(x, 5_000 - 2_400);
}

#[test]
fn walk_marker_is_applied_once_and_removed() {
    let mut x: i64 = 0;
    let mut marker = Some(Walk::Right);
    walk(&mut x, &mut marker, &Speed(100), 16);
    assert_eq!(x, 1_600);
    assert_eq!(marker, None);
    walk(&mut x, &mut marker, &Speed(100), 16);
    assert_eq!(x, 1_600);
}

#[test]
fn handle_input_derives_markers_fresh_each_tick() {
    let cfg = MovementConfig::standard();
    let mut vertical = VerticalMotion::new();
    let mut run_marker = None;
    let mut walk_marker = None;

    handle_input(&keys(true, false, true), &mut vertical, &mut run_marker, &mut walk_marker, &cfg);
    assert_eq!(
        run_marker,
        Some(Run { speed: 150, direction: RunDirection::Left })
    );
    assert_eq!(walk_marker, Some(Walk::Left));

    // with the modifier released, the run marker is gone on the next tick
    handle_input(&keys(true, false, false), &mut vertical, &mut run_marker, &mut walk_marker, &cfg);
    assert_eq!(run_marker, None);
    assert_eq!(walk_marker, Some(Walk::Left));

    // with no keys held, stale markers are cleared, not trusted
    walk_marker = Some(Walk::Right);
    handle_input(
        &keys(false, false, false),
        &mut vertical,
        &mut run_marker,
        &mut walk_marker,
        &cfg,
    );
    assert_eq!(run_marker, None);
    assert_eq!(walk_marker, None);
}

#[test]
fn handle_input_starts_a_jump_only_when_grounded() {
    let cfg = MovementConfig::standard();
    let mut run_marker = None;
    let mut walk_marker = None;
    let jump_keys = InputSnapshot {
        left_held: false,
        right_held: false,
        run_held: false,
        jump_held: true,
        jump_just_released: false,
    };

    let mut grounded = VerticalMotion::new();
    handle_input(&jump_keys, &mut grounded, &mut run_marker, &mut walk_marker, &cfg);
    assert_eq!(grounded.jump, Some(Jump(10_000)));

    let mut airborne = VerticalMotion { height: 500, jump: None };
    handle_input(&jump_keys, &mut airborne, &mut run_marker, &mut walk_marker, &cfg);
    assert_eq!(airborne.jump, None);
}

#[test]
fn player_movement_walks_from_raw_input() {
    let mut x: i64 = -300;
    Player::movement(&mut x, &Speed(100), &DirectionalInput { left: false, right: true }, 16);
    assert_eq!(x, -300 + 1_600);
    Player::movement(&mut x, &Speed(100), &DirectionalInput { left: false, right: false }, 16);
    assert_eq!(x, -300 + 1_600);
}

#[test]
fn standard_config_holds_the_canonical_tuning() {
    let cfg = MovementConfig::standard();
    assert_eq!(cfg.fall_speed, 95);
    assert_eq!(cfg.walk_speed, 100);
    assert_eq!(cfg.run_speed, 150);
    assert_eq!(cfg.jump_impulse, 10_000);
    assert_eq!(MovementConfig::default(), cfg);
}
