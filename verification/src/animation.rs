//! Animation clip registry and state selector.
//!
//! [`PlayerAnimation`] maps each clip id ([`Animation`]) to the texture
//! handle and clip descriptor loaded for it at startup. The selector picks
//! the clip id the current input and motion phase ask for, re-evaluated
//! every tick, and [`update_animation`] applies the selection to an
//! [`AnimationTarget`], resetting playback whenever the bound clip changes.

use vstd::prelude::*;
use crate::input::InputSnapshot;
use crate::sprite_animation::{AnimationPlayback, FrameTime, SpriteAnimation};
use crate::vertical::MotionPhase;

verus! {

/// Identifier of an animation clip in the registry.
#[derive(Clone, Copy, Debug, PartialEq, Eq, Structural)]
pub enum Animation {
    /// Barking on the spot.
    Bark,
    /// Airborne without jump power.
    Fall,
    /// Standing still.
    Idle,
    /// Jump-powered ascent.
    Jump,
    /// Fast horizontal movement.
    Run,
    /// Ordinary horizontal movement.
    Walk,
}

/// What the registry stores for one clip id: the texture handle (opaque to
/// the core) and the clip descriptor.
#[derive(Clone, Copy, Debug, PartialEq, Eq, Structural)]
pub struct ClipEntry {
    /// Handle of the texture atlas the clip draws from.
    pub texture: u64,
    /// The clip descriptor.
    pub clip: SpriteAnimation,
}

/// The per-player animation registry, populated once at startup and read
/// every tick.
#[derive(Clone, Copy, Debug, PartialEq, Eq, Structural)]
pub struct PlayerAnimation {
    bark: Option<ClipEntry>,
    fall: Option<ClipEntry>,
    idle: Option<ClipEntry>,
    jump: Option<ClipEntry>,
    run: Option<ClipEntry>,
    walk: Option<ClipEntry>,
}

impl PlayerAnimation {
    /// The entry stored for a clip id, if any.
    pub closed spec fn spec_get(self, id: Animation) -> Option<ClipEntry> {
        match id {
            Animation::Bark => self.bark,
            Animation::Fall => self.fall,
            Animation::Idle => self.idle,
            Animation::Jump => self.jump,
            Animation::Run => self.run,
            Animation::Walk => self.walk,
        }
    }

    /// Every stored clip descriptor is well formed; the constructors keep
    /// it so.
    pub open spec fn wf(self) -> bool {
        forall|id: Animation| (#[trigger] self.spec_get(id)) matches Some(e) ==> e.clip.wf()
    }

    /// An empty registry.
    pub fn new() -> (r: PlayerAnimation)
        ensures
            forall|id: Animation| #[trigger] r.spec_get(id) is None,
            r.wf(),
    {
        PlayerAnimation { bark: None, fall: None, idle: None, jump: None, run: None, walk: None }
    }

    /// Stores the texture handle and clip for a clip id, replacing any
    /// earlier entry for that id and leaving every other id untouched.
    pub fn set(&mut self, id: Animation, texture: u64, clip: SpriteAnimation)
        requires
            old(self).wf(),
            clip.wf(),
        ensures
            final(self).wf(),
            final(self).spec_get(id) == Some(ClipEntry { texture, clip }),
            forall|other: Animation|
                other != id ==> #[trigger] final(self).spec_get(other) == old(self).spec_get(
                    other,
                ),
    {
        proof {
            assert(forall|other: Animation|
                (#[trigger] old(self).spec_get(other)) matches Some(e) ==> e.clip.wf());
        }
        let entry = Some(ClipEntry { texture, clip });
        match id {
            Animation::Bark => {
                self.bark = entry;
            },
            Animation::Fall => {
                self.fall = entry;
            },
            Animation::Idle => {
                self.idle = entry;
            },
            Animation::Jump => {
                self.jump = entry;
            },
            Animation::Run => {
                self.run = entry;
            },
            Animation::Walk => {
                self.walk = entry;
            },
        }
        proof {
            assert forall|other: Animation|
                ((#[trigger] self.spec_get(other)) matches Some(e) ==> e.clip.wf()) by {
                let prev = old(self).spec_get(other);
                assert(prev matches Some(pe) ==> pe.clip.wf());
            }
        }
    }

    /// Builds the registry the game starts with, given the texture handles
    /// the asset layer loaded: a 4-frame bark, a single-frame idle, a
    /// 5-frame run and a 6-frame walk, all at 20 frames per second except
    /// the idle, which shows its one frame forever. Jump and fall clips are
    /// not part of this set.
    pub fn default_set(
        bark_texture: u64,
        idle_texture: u64,
        run_texture: u64,
        walk_texture: u64,
    ) -> (r: PlayerAnimation)
        ensures
            r.wf(),
            r.spec_get(Animation::Bark) == Some(
                ClipEntry {
                    texture: bark_texture,
                    clip: SpriteAnimation { len: 4, frame_time_ms: 50 },
                },
            ),
            r.spec_get(Animation::Idle) == Some(
                ClipEntry {
                    texture: idle_texture,
                    clip: SpriteAnimation { len: 1, frame_time_ms: 1000 },
                },
            ),
            r.spec_get(Animation::Run) == Some(
                ClipEntry {
                    texture: run_texture,
                    clip: SpriteAnimation { len: 5, frame_time_ms: 50 },
                },
            ),
            r.spec_get(Animation::Walk) == Some(
                ClipEntry {
                    texture: walk_texture,
                    clip: SpriteAnimation { len: 6, frame_time_ms: 50 },
                },
            ),
            r.spec_get(Animation::Jump) is None,
            r.spec_get(Animation::Fall) is None,
    {
        let mut r = PlayerAnimation::new();
        let bark = SpriteAnimation::new(4, 20).unwrap();
        r.set(Animation::Bark, bark_texture, bark);
        let idle = SpriteAnimation::new(1, 1).unwrap();
        r.set(Animation::Idle, idle_texture, idle);
        let run = SpriteAnimation::new(5, 20).unwrap();
        r.set(Animation::Run, run_texture, run);
        let walk = SpriteAnimation::new(6, 20).unwrap();
        r.set(Animation::Walk, walk_texture, walk);
        r
    }

    /// Looks a clip id up in the registry.
    pub fn get(&self, id: Animation) -> (r: Option<ClipEntry>)
        ensures
            r == self.spec_get(id),
    {
        match id {
            Animation::Bark => self.bark,
            Animation::Fall => self.fall,
            Animation::Idle => self.idle,
            Animation::Jump => self.jump,
            Animation::Run => self.run,
            Animation::Walk => self.walk,
        }
    }
}

/// The clip id the current input and motion phase select, by precedence:
/// a rising entity shows the jump clip; an airborne entity whose jump key
/// was just released shows the fall clip; held movement shows the run clip
/// with the run modifier and the walk clip without; otherwise the idle
/// clip.
pub open spec fn spec_select(input: InputSnapshot, phase: MotionPhase) -> Animation {
    if phase is Rising {
        Animation::Jump
    } else if input.jump_just_released && phase is Falling {
        Animation::Fall
    } else if input.moving() && input.run_held {
        Animation::Run
    } else if input.moving() {
        Animation::Walk
    } else {
        Animation::Idle
    }
}

/// Selects the clip id for this tick from input and motion phase alone;
/// nothing is cached between ticks.
pub fn select_animation(input: &InputSnapshot, phase: MotionPhase) -> (id: Animation)
    ensures
        id == spec_select(*input, phase),
{
    if matches!(phase, MotionPhase::Rising) {
        Animation::Jump
    } else if input.jump_just_released && matches!(phase, MotionPhase::Falling) {
        Animation::Fall
    } else if (input.left_held || input.right_held) && input.run_held {
        Animation::Run
    } else if input.left_held || input.right_held {
        Animation::Walk
    } else {
        Animation::Idle
    }
}

/// The renderable-facing animation state of one entity: which clip is
/// bound, its playback position, and the horizontal flip.
#[derive(Clone, Copy, Debug, PartialEq, Eq, Structural)]
pub struct AnimationTarget {
    /// Id of the clip currently bound.
    pub current: Animation,
    /// Texture handle currently bound.
    pub texture: u64,
    /// Descriptor of the clip currently bound.
    pub clip: SpriteAnimation,
    /// Playback state within the bound clip.
    pub playback: AnimationPlayback,
    /// Whether the sprite is mirrored horizontally; facing left flips.
    pub flip_x: bool,
}

impl AnimationTarget {
    /// The bound clip is well formed and the playback is valid for it.
    pub open spec fn wf(self) -> bool {
        self.clip.wf() && self.playback.wf(self.clip)
    }
}

/// The flip the selector leaves on the sprite: facing left flips, facing
/// right unflips, and without movement input the old flip is kept.
pub open spec fn spec_select_flip(input: InputSnapshot, old_flip: bool) -> bool {
    if input.left_held {
        true
    } else if input.right_held {
        false
    } else {
        old_flip
    }
}

/// The animation target after one selector update: when the registry has
/// the selected clip, it is bound, playback carries over only when both the
/// clip id and the bound descriptor are unchanged (and resets to frame 0
/// otherwise, so a stale frame index never outlives its clip), and the flip
/// follows the movement direction; when the registry lacks the selected
/// clip, the target keeps its state.
pub open spec fn spec_update_animation(
    target: AnimationTarget,
    animations: PlayerAnimation,
    input: InputSnapshot,
    phase: MotionPhase,
) -> AnimationTarget {
    let id = spec_select(input, phase);
    match animations.spec_get(id) {
        Some(entry) => AnimationTarget {
            current: id,
            texture: entry.texture,
            clip: entry.clip,
            playback: if id == target.current && entry.clip == target.clip {
                target.playback
            } else {
                AnimationPlayback { frame_index: 0, frame_time: FrameTime(0) }
            },
            flip_x: spec_select_flip(input, target.flip_x),
        },
        None => target,
    }
}

/// Applies this tick's clip selection to the target. Returns the selected
/// clip id as `Ok`, or as `Err` when the registry has no entry for it, in
/// which case the target keeps its last valid clip and the caller is
/// expected to log the miss and go on.
pub fn update_animation(
    target: &mut AnimationTarget,
    animations: &PlayerAnimation,
    input: &InputSnapshot,
    phase: MotionPhase,
) -> (r: Result<Animation, Animation>)
    requires
        old(target).wf(),
        animations.wf(),
    ensures
        final(target).wf(),
        *final(target) == spec_update_animation(*old(target), *animations, *input, phase),
        // switching clip ids always restarts playback at frame 0 with an
        // empty accumulator
        spec_select(*input, phase) != old(target).current && animations.spec_get(
            spec_select(*input, phase),
        ) is Some ==> final(target).playback.is_reset(),
        r == (if animations.spec_get(spec_select(*input, phase)) is Some {
            Ok::<Animation, Animation>(spec_select(*input, phase))
        } else {
            Err::<Animation, Animation>(spec_select(*input, phase))
        }),
{
    let id = select_animation(input, phase);
    match animations.get(id) {
        Some(entry) => {
            proof {
                assert(animations.spec_get(id) matches Some(e) ==> e.clip.wf());
            }
            if !(id == target.current && entry.clip == target.clip) {
                target.playback = AnimationPlayback { frame_index: 0, frame_time: FrameTime(0) };
            }
            target.current = id;
            target.texture = entry.texture;
            target.clip = entry.clip;
            if input.left_held {
                target.flip_x = true;
            } else if input.right_held {
                target.flip_x = false;
            }
            Ok(id)
        },
        None => Err(id),
    }
}

/// Selecting twice in one tick is the same as selecting once: with the
/// input and phase unchanged, a second selector update returns the same
/// clip id and leaves the target exactly as it was — in particular it does
/// not reset the playback a second time.
pub proof fn lemma_selector_idempotent(
    target: AnimationTarget,
    animations: PlayerAnimation,
    input: InputSnapshot,
    phase: MotionPhase,
)
    ensures
        spec_update_animation(
            spec_update_animation(target, animations, input, phase),
            animations,
            input,
            phase,
        ) == spec_update_animation(target, animations, input, phase),
{
}

} // verus!
