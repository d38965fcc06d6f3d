use platformer_core::animation::{Animation, AnimationTarget, PlayerAnimation};
use platformer_core::config::MovementConfig;
use platformer_core::horizontal::Speed;
use platformer_core::input::{classify_action, InputSnapshot, PlayerAction};
use platformer_core::player::{
    tick_player, ControllerStatus, EntityArena, PlayerState, TickReport,
};
use platformer_core::sprite_animation::AnimationPlayback;
use platformer_core::vertical::{Jump, MotionPhase, VerticalMotion};

fn snapshot(left: bool, right: bool, run_mod: bool, jump: bool) -> InputSnapshot {
    InputSnapshot {
        left_held: left,
        right_held: right,
        run_held: run_mod,
        jump_held: jump,
        jump_just_released: false,
    }
}

fn fresh_player(registry: &PlayerAnimation) -> PlayerState {
    let idle = registry.get(Animation::Idle).unwrap();
    PlayerState {
        x: 0,
        speed: Speed(100),
        vertical: VerticalMotion::new(),
        run_marker: None,
        walk_marker: None,
        target: AnimationTarget {
            current: Animation::Idle,
            texture: idle.texture,
            clip: idle.clip,
            playback: AnimationPlayback::new(),
            flip_x: false,
        },
    }
}

#[test]
fn an_idle_tick_changes_nothing_visible() {
    let registry = PlayerAnimation::default_set(1, 2, 3, 4);
    let cfg = MovementConfig::standard();
    let mut player = fresh_player(&registry);
    let r = tick_player(&mut player, &registry, &snapshot(false, false, false, false), &cfg, 16);
    assert_eq!(r, Ok(Animation::Idle));
    assert_eq!(player.x, 0);
    assert_eq!(player.vertical.height, 0);
    assert_eq!(player.target.current, Animation::Idle);
    assert_eq!(player.target.playback.frame_index, 0);
}

#[test]
fn running_left_moves_2_4_units_and_leaves_no_marker_behind() {
    let registry = PlayerAnimation::default_set(1, 2, 3, 4);
    let cfg = MovementConfig::standard();
    let mut player = fresh_player(&registry);
    let input = snapshot(true, false, true, false);

    let r = tick_player(&mut player, &registry, &input, &cfg, 16);
    assert_eq!(r, Ok(Animation::Run));
    assert_eq!(player.x, -2_400);
    assert_eq!(player.run_marker, None);
    assert_eq!(player.walk_marker, None);
    assert!(player.target.flip_x);
    assert_eq!(player.target.current, Animation::Run);
    assert_eq!(player.target.playback.frame_index, 0);

    // the next tick re-derives the intent from raw input: same displacement
    // again, nothing carried over from the consumed marker
    let r2 = tick_player(&mut player, &registry, &input, &cfg, 16);
    assert_eq!(r2, Ok(Animation::Run));
    assert_eq!(player.x, -4_800);
    assert_eq!(player.run_marker, None);
}

#[test]
fn walking_right_uses_the_base_speed_and_the_walk_clip() {
    let registry = PlayerAnimation::default_set(1, 2, 3, 4);
    let cfg = MovementConfig::standard();
    let mut player = fresh_player(&registry);
    let r = tick_player(&mut player, &registry, &snapshot(false, true, false, false), &cfg, 16);
    assert_eq!(r, Ok(Animation::Walk));
    assert_eq!(player.x, 1_600);
    assert!(!player.target.flip_x);
}

#[test]
fn a_jump_tick_rises_and_reports_the_missing_jump_clip() {
    // the startup clip set has no jump clip: the selector misses, the
    // entity keeps its last valid clip, and the motion still happens
    let registry = PlayerAnimation::default_set(1, 2, 3, 4);
    let cfg = MovementConfig::standard();
    let mut player = fresh_player(&registry);
    let r = tick_player(&mut player, &registry, &snapshot(false, false, false, true), &cfg, 16);
    assert_eq!(r, Err(Animation::Jump));
    // power = min(2 * 16 ms * 95 u/s, 10 units) = 3040 milliunits
    assert_eq!(player.vertical.height, 3_040);
    assert_eq!(player.vertical.jump, Some(Jump(10_000 - 3_040)));
    assert_eq!(player.target.current, Animation::Idle);
}

#[test]
fn a_jump_tick_binds_the_jump_clip_when_the_registry_has_one() {
    let mut registry = PlayerAnimation::default_set(1, 2, 3, 4);
    registry.set(
        Animation::Jump,
        9,
        platformer_core::sprite_animation::SpriteAnimation::new(2, 20).unwrap(),
    );
    let cfg = MovementConfig::standard();
    let mut player = fresh_player(&registry);
    let r = tick_player(&mut player, &registry, &snapshot(false, false, false, true), &cfg, 16);
    assert_eq!(r, Ok(Animation::Jump));
    assert_eq!(player.target.current, Animation::Jump);
    assert_eq!(player.target.texture, 9);
    assert_eq!(player.target.playback.frame_index, 0);
}

#[test]
fn ticks_advance_the_bound_clip_between_switches() {
    let registry = PlayerAnimation::default_set(1, 2, 3, 4);
    let cfg = MovementConfig::standard();
    let mut player = fresh_player(&registry);
    let input = snapshot(false, true, false, false);
    // first tick binds the walk clip and resets playback
    tick_player(&mut player, &registry, &input, &cfg, 16).unwrap();
    assert_eq!(player.target.playback.frame_index, 0);
    assert_eq!(player.target.playback.frame_time.0, 0);
    // four more ticks accumulate 64 ms on the 50 ms walk clip: one frame
    for _ in 0..4 {
        tick_player(&mut player, &registry, &input, &cfg, 16).unwrap();
    }
    assert_eq!(player.target.playback.frame_index, 1);
    assert_eq!(player.target.playback.frame_time.0, 14);
}

#[test]
fn an_empty_arena_ticks_as_a_no_op() {
    let mut arena = EntityArena::new();
    let registry = PlayerAnimation::default_set(1, 2, 3, 4);
    let cfg = MovementConfig::standard();
    let report = arena.tick(&registry, &snapshot(true, false, false, false), &cfg, 16);
    assert_eq!(
        report,
        TickReport { status: ControllerStatus::NoController, animation: None }
    );
}

#[test]
fn a_single_player_ticks_normally() {
    let mut arena = EntityArena::new();
    let registry = PlayerAnimation::default_set(1, 2, 3, 4);
    let cfg = MovementConfig::standard();
    let h = arena.spawn(fresh_player(&registry));
    let report = arena.tick(&registry, &snapshot(true, false, false, false), &cfg, 16);
    assert_eq!(report.status, ControllerStatus::SingleController);
    assert_eq!(report.animation, Some(Ok(Animation::Walk)));
    assert_eq!(arena.get(h).unwrap().x, -1_600);
}

#[test]
fn multiple_controllers_are_reported_and_the_first_is_updated() {
    let mut arena = EntityArena::new();
    let registry = PlayerAnimation::default_set(1, 2, 3, 4);
    let cfg = MovementConfig::standard();
    let first = arena.spawn(fresh_player(&registry));
    let second = arena.spawn(fresh_player(&registry));
    let report = arena.tick(&registry, &snapshot(false, true, false, false), &cfg, 16);
    assert_eq!(report.status, ControllerStatus::MultipleControllersFound);
    // the first match moved; the other entity is untouched
    assert_eq!(arena.get(first).unwrap().x, 1_600);
    assert_eq!(arena.get(second).unwrap().x, 0);
}

#[test]
fn despawning_frees_the_slot_and_the_next_entity_takes_over() {
    let mut arena = EntityArena::new();
    let registry = PlayerAnimation::default_set(1, 2, 3, 4);
    let cfg = MovementConfig::standard();
    let first = arena.spawn(fresh_player(&registry));
    let second = arena.spawn(fresh_player(&registry));
    let removed = arena.despawn(first);
    assert!(removed.is_some());
    assert_eq!(arena.get(first), None);
    let report = arena.tick(&registry, &snapshot(false, true, false, false), &cfg, 16);
    assert_eq!(report.status, ControllerStatus::SingleController);
    assert_eq!(arena.get(second).unwrap().x, 1_600);
    // spawning reuses the freed slot
    let third = arena.spawn(fresh_player(&registry));
    assert_eq!(third, first);
}

#[test]
fn classify_action_names_the_primary_intent() {
    let jump_keys = InputSnapshot {
        left_held: false,
        right_held: false,
        run_held: false,
        jump_held: true,
        jump_just_released: false,
    };
    assert_eq!(
        classify_action(&jump_keys, MotionPhase::Grounded),
        Some(PlayerAction::Jump)
    );
    assert_eq!(
        classify_action(&snapshot(true, true, false, false), MotionPhase::Grounded),
        Some(PlayerAction::WalkLeft)
    );
    assert_eq!(
        classify_action(&snapshot(false, true, false, false), MotionPhase::Grounded),
        Some(PlayerAction::WalkRight)
    );
    assert_eq!(
        classify_action(&snapshot(false, false, false, false), MotionPhase::Falling),
        Some(PlayerAction::Fall)
    );
    assert_eq!(
        classify_action(&snapshot(false, false, false, false), MotionPhase::Grounded),
        None
    );
}
