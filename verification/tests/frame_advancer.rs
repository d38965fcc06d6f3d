use platformer_core::sprite_animation::{
    animate_sprite, AnimationPlayback, FrameTime, InvalidClip, SpriteAnimation,
};

fn clip(len: usize, frame_time_ms: u32) -> SpriteAnimation {
    SpriteAnimation::from_frame_time_ms(len, frame_time_ms).unwrap()
}

#[test]
fn advance_four_frames_from_one_large_step() {
    // 200 ms against a 50 ms frame duration: 4 whole frames, nothing left
    let c = clip(11, 50);
    let mut p = AnimationPlayback::new();
    animate_sprite(&mut p, &c, 200);
    assert_eq!(p.frame_index, 4);
    assert_eq!(p.frame_time.0, 0);
}

#[test]
fn whole_frame_total_spread_over_ticks_leaves_no_remainder() {
    // 30 + 20 + 50 + 100 = 200 ms = 4 * 50 ms, so index 4 and accumulator 0
    let c = clip(11, 50);
    let mut p = AnimationPlayback::new();
    for dt in [30, 20, 50, 100] {
        animate_sprite(&mut p, &c, dt);
    }
    assert_eq!(p.frame_index, 4);
    assert_eq!(p.frame_time.0, 0);
}

#[test]
fn remainder_time_is_kept_exactly() {
    let c = clip(11, 50);
    let mut p = AnimationPlayback::new();
    animate_sprite(&mut p, &c, 70);
    assert_eq!(p.frame_index, 1);
    assert_eq!(p.frame_time.0, 20);
    animate_sprite(&mut p, &c, 30);
    assert_eq!(p.frame_index, 2);
    assert_eq!(p.frame_time.0, 0);
}

#[test]
fn frame_index_wraps_and_stays_in_range_on_huge_steps() {
    let c = clip(3, 1);
    let mut p = AnimationPlayback::new();
    animate_sprite(&mut p, &c, u32::MAX);
    assert!(p.frame_index < 3);
    assert!(p.frame_time.0 < 1);
    // (u32::MAX whole 1 ms frames) mod 3
    assert_eq!(p.frame_index, (u32::MAX % 3) as usize);
}

#[test]
fn single_frame_clip_never_advances() {
    let c = clip(1, 1000);
    let mut p = AnimationPlayback::new();
    animate_sprite(&mut p, &c, 123_456);
    assert_eq!(p.frame_index, 0);
    assert_eq!(p.frame_time.0, 0);
}

#[test]
fn index_wraps_modulo_frame_count() {
    let c = clip(4, 10);
    let mut p = AnimationPlayback {
        frame_index: 3,
        frame_time: FrameTime(5),
    };
    animate_sprite(&mut p, &c, 25);
    // (5 + 25) / 10 = 3 frames, (3 + 3) mod 4 = 2, remainder 0
    assert_eq!(p.frame_index, 2);
    assert_eq!(p.frame_time.0, 0);
}

#[test]
fn clip_from_fps_computes_frame_duration() {
    let c = SpriteAnimation::new(11, 20).unwrap();
    assert_eq!(c.len, 11);
    assert_eq!(c.frame_time_ms, 50);
    let idle = SpriteAnimation::new(1, 1).unwrap();
    assert_eq!(idle.frame_time_ms, 1000);
}

#[test]
fn degenerate_clips_are_rejected_at_construction() {
    assert_eq!(SpriteAnimation::new(0, 20), Err(InvalidClip::ZeroFrames));
    assert_eq!(SpriteAnimation::new(11, 0), Err(InvalidClip::ZeroFrameDuration));
    assert_eq!(SpriteAnimation::new(11, 1001), Err(InvalidClip::ZeroFrameDuration));
    assert_eq!(
        SpriteAnimation::from_frame_time_ms(0, 50),
        Err(InvalidClip::ZeroFrames)
    );
    assert_eq!(
        SpriteAnimation::from_frame_time_ms(3, 0),
        Err(InvalidClip::ZeroFrameDuration)
    );
}

#[test]
fn playback_reset_returns_to_frame_zero() {
    let mut p = AnimationPlayback {
        frame_index: 7,
        frame_time: FrameTime(33),
    };
    p.reset();
    assert_eq!(p.frame_index, 0);
    assert_eq!(p.frame_time.0, 0);
}
