//! The controlled player entity: its per-tick update and the arena that
//! stores entities.
//!
//! Each tick runs in a fixed order on the controlled entity: input handling,
//! horizontal movement, vertical motion, frame advance, then the animation
//! selector. [`EntityArena`] owns the per-entity state behind integer
//! handles; its [`EntityArena::tick`] tolerates a missing player (a no-op)
//! and reports — but still operates on the first match — when more than one
//! controlled entity is present.

use vstd::prelude::*;
use crate::animation::{
    spec_select, spec_update_animation, Animation, AnimationTarget, PlayerAnimation,
    update_animation,
};
use crate::config::MovementConfig;
use crate::horizontal::{run, spec_resolve, walk, DirectionalInput, Run, Speed, Walk};
use crate::input::{handle_input, InputSnapshot};
use crate::sprite_animation::{animate_sprite, spec_advance};
use crate::vertical::{spec_step, Jump, VerticalMotion};

verus! {

/// Marker for the one entity the player controls.
#[derive(Clone, Copy, Debug, PartialEq, Eq, Structural)]
pub struct Player;

impl Player {
    /// Moves the player horizontally at its base speed for this tick,
    /// directly from directional input: left wins ties, and without input
    /// the position does not change.
    pub fn movement(x: &mut i64, speed: &Speed, input: &DirectionalInput, dt_ms: u32)
        requires
            dt_ms * speed.0 <= i64::MAX,
            *old(x) + dt_ms * speed.0 <= i64::MAX,
            i64::MIN <= *old(x) - dt_ms * speed.0,
        ensures
            *final(x) == *old(x) + spec_resolve(
                *input,
                speed.0 as int,
                false,
                speed.0 as int,
                dt_ms as int,
            ),
    {
        let delta = crate::horizontal::resolve(*input, speed.0, false, speed.0, dt_ms);
        proof {
            vstd::arithmetic::mul::lemma_mul_nonnegative(dt_ms as int, speed.0 as int);
            assert((dt_ms as int) * (speed.0 as int) * (-1) == -((dt_ms as int) * (
            speed.0 as int))) by (nonlinear_arith);
            assert((dt_ms as int) * (speed.0 as int) * 1 == (dt_ms as int) * (speed.0 as int))
                by (nonlinear_arith);
        }
        *x = *x + delta;
    }
}

/// The whole per-entity state of a controlled player.
#[derive(Clone, Copy, Debug, PartialEq, Eq, Structural)]
pub struct PlayerState {
    /// Horizontal position, in milliunits.
    pub x: i64,
    /// Base walking speed, in world units per second.
    pub speed: Speed,
    /// Vertical state: height and jump budget.
    pub vertical: VerticalMotion,
    /// Transient one-tick run intent.
    pub run_marker: Option<Run>,
    /// Transient one-tick walk intent.
    pub walk_marker: Option<Walk>,
    /// The renderable-facing animation state.
    pub target: AnimationTarget,
}

impl PlayerState {
    /// The vertical state and the bound animation are well formed.
    pub open spec fn wf(self) -> bool {
        self.vertical.wf() && self.target.wf()
    }
}

/// The vertical state after input handling: holding the jump key while
/// grounded starts a jump with the configured impulse; anything else leaves
/// the vertical state alone.
pub open spec fn spec_vertical_after_input(
    v: VerticalMotion,
    input: InputSnapshot,
    cfg: MovementConfig,
) -> VerticalMotion {
    if input.jump_held && v.spec_phase() is Grounded {
        VerticalMotion { height: 0u64, jump: Some(Jump(cfg.jump_impulse)) }
    } else {
        v
    }
}

/// The player state after one full tick, in the fixed order: input
/// handling, horizontal movement (run speed exactly when a movement key and
/// the run modifier are held, re-derived from raw input), one vertical
/// step, one frame advance on the previously bound clip, then the animation
/// selector on the new motion phase. Both transient markers are consumed.
pub open spec fn spec_tick_player(
    s: PlayerState,
    animations: PlayerAnimation,
    input: InputSnapshot,
    cfg: MovementConfig,
    dt: int,
) -> PlayerState {
    let vert1 = spec_step(
        spec_vertical_after_input(s.vertical, input, cfg),
        dt,
        cfg.fall_speed as int,
    );
    let x1 = s.x + spec_resolve(
        input.spec_directional(),
        s.speed.0 as int,
        input.moving() && input.run_held,
        cfg.run_speed as int,
        dt,
    );
    let target1 = AnimationTarget {
        current: s.target.current,
        texture: s.target.texture,
        clip: s.target.clip,
        playback: spec_advance(s.target.playback, s.target.clip, dt),
        flip_x: s.target.flip_x,
    };
    PlayerState {
        x: x1 as i64,
        speed: s.speed,
        vertical: vert1,
        run_marker: None,
        walk_marker: None,
        target: spec_update_animation(target1, animations, input, vert1.spec_phase()),
    }
}

/// What one tick reports about the animation selection: the selected clip
/// id, as `Err` when the registry has no entry for it.
pub open spec fn spec_tick_outcome(
    s: PlayerState,
    animations: PlayerAnimation,
    input: InputSnapshot,
    cfg: MovementConfig,
    dt: int,
) -> Result<Animation, Animation> {
    let vert1 = spec_step(
        spec_vertical_after_input(s.vertical, input, cfg),
        dt,
        cfg.fall_speed as int,
    );
    let id = spec_select(input, vert1.spec_phase());
    if animations.spec_get(id) is Some {
        Ok(id)
    } else {
        Err(id)
    }
}

/// Runs one full tick on a player: input handling, horizontal movement,
/// vertical motion, frame advance, and the animation selector, in that
/// order. Returns the selected clip id, as `Err` when the registry lacks it
/// (in which case the entity keeps its last valid clip). Both transient
/// markers are consumed, so run and walk intent never outlive the tick.
pub fn tick_player(
    state: &mut PlayerState,
    animations: &PlayerAnimation,
    input: &InputSnapshot,
    cfg: &MovementConfig,
    dt_ms: u32,
) -> (r: Result<Animation, Animation>)
    requires
        old(state).wf(),
        animations.wf(),
        cfg.wf(),
        dt_ms * old(state).speed.0 <= i64::MAX,
        dt_ms * cfg.run_speed <= i64::MAX,
        old(state).x + dt_ms * old(state).speed.0 <= i64::MAX,
        old(state).x + dt_ms * cfg.run_speed <= i64::MAX,
        i64::MIN <= old(state).x - dt_ms * old(state).speed.0,
        i64::MIN <= old(state).x - dt_ms * cfg.run_speed,
    ensures
        final(state).wf(),
        *final(state) == spec_tick_player(*old(state), *animations, *input, *cfg, dt_ms as int),
        r == spec_tick_outcome(*old(state), *animations, *input, *cfg, dt_ms as int),
        final(state).run_marker is None,
        final(state).walk_marker is None,
{
    handle_input(input, &mut state.vertical, &mut state.run_marker, &mut state.walk_marker, cfg);
    if state.run_marker.is_some() {
        run(&mut state.x, &mut state.run_marker, dt_ms);
        state.walk_marker = None;
    } else {
        walk(&mut state.x, &mut state.walk_marker, &state.speed, dt_ms);
    }
    crate::vertical::tick(&mut state.vertical, dt_ms, cfg.fall_speed);
    animate_sprite(&mut state.target.playback, &state.target.clip, dt_ms);
    let phase = state.vertical.phase();
    update_animation(&mut state.target, animations, input, phase)
}

/// How many controlled entities a tick found where exactly one was
/// expected.
#[derive(Clone, Copy, Debug, PartialEq, Eq, Structural)]
pub enum ControllerStatus {
    /// No controlled entity is present; the tick was a no-op.
    NoController,
    /// Exactly one controlled entity was updated.
    SingleController,
    /// More than one controlled entity is present; the first one was
    /// updated and the condition is reported for logging.
    MultipleControllersFound,
}

/// What one arena tick did and found.
#[derive(Clone, Copy, Debug, PartialEq, Eq)]
pub struct TickReport {
    /// How many controlled entities were found.
    pub status: ControllerStatus,
    /// The animation selection of the updated entity, if one was updated.
    pub animation: Option<Result<Animation, Animation>>,
}

/// Index of the first occupied slot, or the length when every slot is
/// free. The arena's tick operates on this entity.
pub open spec fn first_controlled(slots: Seq<Option<PlayerState>>) -> int
    decreases slots.len(),
{
    if slots.len() == 0 {
        0
    } else if slots[0] is Some {
        0
    } else {
        1 + first_controlled(slots.drop_first())
    }
}

/// A scan that saw only free slots before `i`, and an occupied slot at `i`
/// if `i` is in range, has found `first_controlled`.
proof fn lemma_first_controlled_from(s: Seq<Option<PlayerState>>, i: int)
    requires
        0 <= i <= s.len(),
        forall|k: int| 0 <= k < i ==> (#[trigger] s[k]) is None,
        i < s.len() ==> s[i] is Some,
    ensures
        first_controlled(s) == i,
    decreases s.len(),
{
    if s.len() == 0 {
    } else if s[0] is Some {
        if i > 0 {
            assert(s[0] is None);
        }
    } else {
        assert(i >= 1);
        let d = s.drop_first();
        assert forall|k: int| 0 <= k < i - 1 implies (#[trigger] d[k]) is None by {
            assert(d[k] == s[k + 1]);
        }
        if i - 1 < d.len() {
            assert(d[i - 1] == s[i]);
        }
        lemma_first_controlled_from(d, i - 1);
    }
}

/// An arena of per-entity state, addressed by integer handles. Slots of
/// despawned entities stay in place as `None` and are reused by `spawn`, so
/// handles of living entities never move.
pub struct EntityArena {
    /// The slots; an entity's handle is its index here.
    pub slots: Vec<Option<PlayerState>>,
}

impl EntityArena {
    /// An empty arena.
    pub fn new() -> (a: EntityArena)
        ensures
            a.slots@.len() == 0,
    {
        EntityArena { slots: Vec::new() }
    }

    /// Stores an entity, reusing a free slot when one exists and growing by
    /// one slot otherwise; returns the entity's handle. Other slots are
    /// untouched.
    pub fn spawn(&mut self, state: PlayerState) -> (handle: usize)
        ensures
            handle < final(self).slots@.len(),
            final(self).slots@[handle as int] == Some(state),
            forall|j: int|
                0 <= j < old(self).slots@.len() && j != handle
                    ==> final(self).slots@[j] == old(self).slots@[j],
            handle < old(self).slots@.len()
                ==> final(self).slots@.len() == old(self).slots@.len()
                    && old(self).slots@[handle as int] is None,
            handle >= old(self).slots@.len()
                ==> handle == old(self).slots@.len()
                    && final(self).slots@.len() == old(self).slots@.len() + 1,
    {
        let n = self.slots.len();
        let mut i: usize = 0;
        while i < n
            invariant
                i <= n,
                n == self.slots@.len(),
                *self == *old(self),
            decreases n - i,
        {
            if self.slots[i].is_none() {
                self.slots[i] = Some(state);
                return i;
            }
            i = i + 1;
        }
        self.slots.push(Some(state));
        n
    }

    /// Frees the slot of a handle and hands its entity back; a handle
    /// beyond the arena changes nothing. Other slots are untouched.
    pub fn despawn(&mut self, handle: usize) -> (removed: Option<PlayerState>)
        ensures
            final(self).slots@.len() == old(self).slots@.len(),
            handle < old(self).slots@.len() ==> removed == old(self).slots@[handle as int]
                && final(self).slots@ == old(self).slots@.update(
                handle as int,
                None::<PlayerState>,
            ),
            handle >= old(self).slots@.len() ==> removed is None && *final(self) == *old(self),
    {
        if handle < self.slots.len() {
            let removed = self.slots[handle];
            self.slots[handle] = None;
            removed
        } else {
            None
        }
    }

    /// Reads the entity behind a handle, if it is alive.
    pub fn get(&self, handle: usize) -> (r: Option<PlayerState>)
        ensures
            r == (if handle < self.slots@.len() {
                self.slots@[handle as int]
            } else {
                None::<PlayerState>
            }),
    {
        if handle < self.slots.len() {
            self.slots[handle]
        } else {
            None
        }
    }

    /// Runs one tick on the first controlled entity, as [`tick_player`]
    /// does. With no controlled entity present the tick is a no-op, not an
    /// error; with more than one present the first is updated and the
    /// report says `MultipleControllersFound` so the caller can log it.
    /// Every other slot is untouched.
    pub fn tick(
        &mut self,
        animations: &PlayerAnimation,
        input: &InputSnapshot,
        cfg: &MovementConfig,
        dt_ms: u32,
    ) -> (report: TickReport)
        requires
            animations.wf(),
            cfg.wf(),
            forall|i: int|
                0 <= i < old(self).slots@.len() ==> ((#[trigger] old(self).slots@[i]) matches Some(
                    p,
                ) ==> p.wf()),
            ({
                let s = old(self).slots@;
                let f = first_controlled(s);
                f < s.len() ==> (s[f] matches Some(p) ==> dt_ms * p.speed.0 <= i64::MAX && dt_ms
                    * cfg.run_speed <= i64::MAX && p.x + dt_ms * p.speed.0 <= i64::MAX && p.x
                    + dt_ms * cfg.run_speed <= i64::MAX && i64::MIN <= p.x - dt_ms * p.speed.0
                    && i64::MIN <= p.x - dt_ms * cfg.run_speed)
            }),
        ensures
            final(self).slots@.len() == old(self).slots@.len(),
            ({
                let s = old(self).slots@;
                let f = first_controlled(s);
                &&& (f == s.len() ==> final(self).slots@ == s && report == (TickReport {
                    status: ControllerStatus::NoController,
                    animation: None::<Result<Animation, Animation>>,
                }))
                &&& (f < s.len() ==> (s[f] matches Some(p0)
                    && final(self).slots@ == s.update(
                    f,
                    Some(spec_tick_player(p0, *animations, *input, *cfg, dt_ms as int)),
                )
                    && report.animation == Some(
                    spec_tick_outcome(p0, *animations, *input, *cfg, dt_ms as int),
                )
                    && (report.status is MultipleControllersFound <==> exists|j: int|
                    f < j < s.len() && (#[trigger] s[j]) is Some)
                    && (report.status is SingleController <==> !(exists|j: int|
                    f < j < s.len() && (#[trigger] s[j]) is Some))))
            }),
    {
        let ghost s0 = self.slots@;
        let n = self.slots.len();
        let mut idx: usize = 0;
        while idx < n && self.slots[idx].is_none()
            invariant
                idx <= n,
                n == self.slots@.len(),
                self.slots@ == s0,
                forall|k: int| 0 <= k < idx ==> (#[trigger] self.slots@[k]) is None,
            decreases n - idx,
        {
            idx = idx + 1;
        }
        proof {
            lemma_first_controlled_from(s0, idx as int);
        }
        if idx == n {
            return TickReport { status: ControllerStatus::NoController, animation: None };
        }
        let mut j: usize = idx + 1;
        let mut multiple: bool = false;
        while j < n
            invariant
                idx < n,
                idx + 1 <= j <= n,
                n == self.slots@.len(),
                self.slots@ == s0,
                multiple <==> exists|k: int| idx < k < j && (#[trigger] self.slots@[k]) is Some,
            decreases n - j,
        {
            if self.slots[j].is_some() {
                multiple = true;
            }
            j = j + 1;
        }
        let mut p = self.slots[idx].unwrap();
        let anim = tick_player(&mut p, animations, input, cfg, dt_ms);
        self.slots[idx] = Some(p);
        TickReport {
            status: if multiple {
                ControllerStatus::MultipleControllersFound
            } else {
                ControllerStatus::SingleController
            },
            animation: Some(anim),
        }
    }
}

} // verus!
