//! Sprite-frame advancer.
//!
//! A [`SpriteAnimation`] describes an animation clip: how many frames it has
//! and how long each frame lasts. An [`AnimationPlayback`] is the per-entity
//! playback state: the current frame index and the time accumulated since the
//! last frame advance. [`animate_sprite`] converts accumulated time into
//! discrete frame advances, keeping the remainder exactly, so frame rates are
//! independent of the tick rate.

use vstd::prelude::*;
use vstd::arithmetic::div_mod::{
    lemma_add_mod_noop, lemma_basic_div, lemma_div_multiples_vanish,
    lemma_fundamental_div_mod, lemma_fundamental_div_mod_converse_div,
    lemma_fundamental_div_mod_converse_mod, lemma_mod_division_less_than_divisor,
    lemma_mod_multiples_basic, lemma_small_mod,
};
use vstd::arithmetic::mul::lemma_mul_is_distributive_add_other_way;
use crate::{lemma_total_time_nonneg, nonneg, total_time};

verus! {

/// Why a clip descriptor was rejected at construction time.
#[derive(Clone, Copy, Debug, PartialEq, Eq, Structural)]
pub enum InvalidClip {
    /// The clip would have no frames at all.
    ZeroFrames,
    /// The per-frame duration would be zero milliseconds.
    ZeroFrameDuration,
}

/// An immutable animation-clip descriptor: the number of frames and the
/// duration of each frame in milliseconds.
#[derive(Clone, Copy, Debug, PartialEq, Eq, Structural)]
pub struct SpriteAnimation {
    /// Number of frames in the clip, at least 1.
    pub len: usize,
    /// Duration of one frame in milliseconds, at least 1.
    pub frame_time_ms: u32,
}

impl SpriteAnimation {
    /// A clip is well formed when it has at least one frame and each frame
    /// lasts a positive amount of time. Degenerate descriptors are rejected
    /// by the constructors and never reach the frame advancer.
    pub open spec fn wf(self) -> bool {
        self.len >= 1 && self.frame_time_ms >= 1
    }

    /// Builds a clip from a frame count and a frame rate in frames per
    /// second. The frame duration is `1000 / fps` milliseconds, rounded
    /// down; a rate above 1000 would round down to a zero duration and is
    /// rejected, as are a zero rate and a zero frame count.
    pub fn new(len: usize, fps: u32) -> (r: Result<SpriteAnimation, InvalidClip>)
        ensures
            len == 0 ==> r == Err::<SpriteAnimation, InvalidClip>(InvalidClip::ZeroFrames),
            len >= 1 && (fps == 0 || fps > 1000) ==> r == Err::<SpriteAnimation, InvalidClip>(
                InvalidClip::ZeroFrameDuration,
            ),
            len >= 1 && 1 <= fps <= 1000 ==> r == Ok::<SpriteAnimation, InvalidClip>(
                SpriteAnimation { len, frame_time_ms: 1000u32 / fps },
            ),
            r matches Ok(c) ==> c.wf(),
    {
        if len == 0 {
            Err(InvalidClip::ZeroFrames)
        } else if fps == 0 || fps > 1000 {
            Err(InvalidClip::ZeroFrameDuration)
        } else {
            proof {
                // fps <= 1000, so 1000 / fps >= 1000 / 1000 == 1
                vstd::arithmetic::div_mod::lemma_div_is_ordered_by_denominator(
                    1000,
                    fps as int,
                    1000,
                );
            }
            Ok(SpriteAnimation { len, frame_time_ms: 1000 / fps })
        }
    }

    /// Builds a clip directly from a frame count and a frame duration in
    /// milliseconds, rejecting the degenerate descriptors.
    pub fn from_frame_time_ms(len: usize, frame_time_ms: u32) -> (r: Result<
        SpriteAnimation,
        InvalidClip,
    >)
        ensures
            len == 0 ==> r == Err::<SpriteAnimation, InvalidClip>(InvalidClip::ZeroFrames),
            len >= 1 && frame_time_ms == 0 ==> r == Err::<SpriteAnimation, InvalidClip>(
                InvalidClip::ZeroFrameDuration,
            ),
            len >= 1 && frame_time_ms >= 1 ==> r == Ok::<SpriteAnimation, InvalidClip>(
                SpriteAnimation { len, frame_time_ms },
            ),
            r matches Ok(c) ==> c.wf(),
    {
        if len == 0 {
            Err(InvalidClip::ZeroFrames)
        } else if frame_time_ms == 0 {
            Err(InvalidClip::ZeroFrameDuration)
        } else {
            Ok(SpriteAnimation { len, frame_time_ms })
        }
    }
}

/// Time accumulated since the last frame advance, in milliseconds.
#[derive(Clone, Copy, Debug, PartialEq, Eq, Structural)]
pub struct FrameTime(pub u64);

/// Per-entity playback state for one animation clip.
#[derive(Clone, Copy, Debug, PartialEq, Eq, Structural)]
pub struct AnimationPlayback {
    /// Current frame index, always within `[0, clip.len)`.
    pub frame_index: usize,
    /// Time accumulated towards the next frame advance, always less than the
    /// clip's frame duration.
    pub frame_time: FrameTime,
}

impl AnimationPlayback {
    /// Playback state is well formed for a clip when the frame index is in
    /// range and the accumulator holds less than one whole frame duration.
    pub open spec fn wf(self, clip: SpriteAnimation) -> bool {
        self.frame_index < clip.len && self.frame_time.0 < clip.frame_time_ms
    }

    /// Whether the playback is at the start of a clip with nothing
    /// accumulated, as it is right after a clip switch.
    pub open spec fn is_reset(self) -> bool {
        self.frame_index == 0 && self.frame_time.0 == 0
    }

    /// Fresh playback state: frame 0, nothing accumulated.
    pub fn new() -> (p: AnimationPlayback)
        ensures
            p.is_reset(),
            forall|clip: SpriteAnimation| clip.wf() ==> p.wf(clip),
    {
        AnimationPlayback { frame_index: 0, frame_time: FrameTime(0) }
    }

    /// Returns playback to frame 0 with nothing accumulated, as required
    /// whenever the active clip changes.
    pub fn reset(&mut self)
        ensures
            final(self).is_reset(),
            forall|clip: SpriteAnimation| clip.wf() ==> final(self).wf(clip),
    {
        self.frame_index = 0;
        self.frame_time = FrameTime(0);
    }
}

/// The playback state after feeding `dt` milliseconds to the advancer.
///
/// A single-frame clip never advances: its playback stays fixed. Otherwise
/// `(acc + dt) / d` whole frames elapse and the remainder `(acc + dt) % d`
/// is retained exactly, so no time is ever lost.
pub open spec fn spec_advance(p: AnimationPlayback, clip: SpriteAnimation, dt: int)
    -> AnimationPlayback {
    if clip.len == 1 {
        p
    } else {
        AnimationPlayback {
            frame_index: (
                (p.frame_index + (p.frame_time.0 + dt) / (clip.frame_time_ms as int))
                % (clip.len as int)
            ) as usize,
            frame_time: FrameTime(((p.frame_time.0 + dt) % (clip.frame_time_ms as int)) as u64),
        }
    }
}

/// Accumulates elapsed time and advances the frame index by exactly the
/// number of whole frame durations elapsed, retaining the remainder.
pub fn animate_sprite(playback: &mut AnimationPlayback, animation: &SpriteAnimation, dt_ms: u32)
    requires
        animation.wf(),
        old(playback).wf(*animation),
    ensures
        final(playback).wf(*animation),
        *final(playback) == spec_advance(*old(playback), *animation, dt_ms as int),
{
    if animation.len == 1 {
        return ;
    }
    let acc: u64 = playback.frame_time.0 + dt_ms as u64;
    let d: u64 = animation.frame_time_ms as u64;
    if acc >= d {
        let frames: u64 = acc / d;
        let rem: u64 = acc % d;
        let step: usize = (frames % (animation.len as u64)) as usize;
        proof {
            lemma_mod_division_less_than_divisor(frames as int, animation.len as int);
        }
        let new_index: usize = if step < animation.len - playback.frame_index {
            playback.frame_index + step
        } else {
            playback.frame_index - (animation.len - step)
        };
        proof {
            let len = animation.len as int;
            let i = playback.frame_index as int;
            let f = frames as int;
            // (i + f) % len == (i + f % len) % len
            lemma_small_mod(playback.frame_index as nat, animation.len as nat);
            lemma_add_mod_noop(i, f, len);
            lemma_add_mod_noop(i, f % len, len);
            lemma_mod_division_less_than_divisor(f % len, len);
            // reduce (i + step) % len to the branch expression
            if i + f % len < len {
                lemma_small_mod((i + f % len) as nat, animation.len as nat);
            } else {
                lemma_fundamental_div_mod_converse_mod(i + f % len, len, 1, i + f % len - len);
            }
            lemma_mod_division_less_than_divisor(acc as int, d as int);
        }
        playback.frame_index = new_index;
        playback.frame_time = FrameTime(rem);
    } else {
        proof {
            lemma_basic_div(acc as int, d as int);
            lemma_small_mod(acc as nat, d as nat);
            lemma_small_mod(playback.frame_index as nat, animation.len as nat);
        }
        playback.frame_time = FrameTime(acc);
    }
}

/// The playback state after feeding a whole sequence of tick durations, one
/// advance per tick.
pub open spec fn spec_advance_all(p: AnimationPlayback, clip: SpriteAnimation, dts: Seq<int>)
    -> AnimationPlayback
    decreases dts.len(),
{
    if dts.len() == 0 {
        p
    } else {
        spec_advance_all(spec_advance(p, clip, dts[0]), clip, dts.drop_first())
    }
}

/// One advance keeps playback well formed: the frame index stays in
/// `[0, clip.len)` and the accumulator stays below one frame duration.
pub proof fn lemma_advance_wf(p: AnimationPlayback, clip: SpriteAnimation, dt: int)
    requires
        clip.wf(),
        p.wf(clip),
        dt >= 0,
    ensures
        spec_advance(p, clip, dt).wf(clip),
{
    if clip.len != 1 {
        lemma_mod_division_less_than_divisor(
            p.frame_index + (p.frame_time.0 + dt) / (clip.frame_time_ms as int),
            clip.len as int,
        );
        lemma_mod_division_less_than_divisor(p.frame_time.0 + dt, clip.frame_time_ms as int);
    }
}

/// Advancing by `dt1` and then by `dt2` is the same as advancing once by
/// `dt1 + dt2`: the advancer loses no time to rounding.
pub proof fn lemma_advance_compose(
    p: AnimationPlayback,
    clip: SpriteAnimation,
    dt1: int,
    dt2: int,
)
    requires
        clip.wf(),
        p.wf(clip),
        dt1 >= 0,
        dt2 >= 0,
    ensures
        spec_advance(spec_advance(p, clip, dt1), clip, dt2) == spec_advance(p, clip, dt1 + dt2),
{
    if clip.len != 1 {
        let len = clip.len as int;
        let d = clip.frame_time_ms as int;
        let i = p.frame_index as int;
        let a = p.frame_time.0 as int;
        let x = a + dt1;
        let q1 = x / d;
        let r1 = x % d;
        lemma_fundamental_div_mod(x, d);
        lemma_mod_division_less_than_divisor(x, d);
        let y = r1 + dt2;
        let q2 = y / d;
        let r2 = y % d;
        lemma_fundamental_div_mod(y, d);
        lemma_mod_division_less_than_divisor(y, d);
        assert((q1 + q2) * d == q1 * d + q2 * d) by {
            lemma_mul_is_distributive_add_other_way(d, q1, q2);
        }
        assert(a + (dt1 + dt2) == (q1 + q2) * d + r2);
        lemma_fundamental_div_mod_converse_div(a + (dt1 + dt2), d, q1 + q2, r2);
        lemma_fundamental_div_mod_converse_mod(a + (dt1 + dt2), d, q1 + q2, r2);
        // fold the two index updates into one
        lemma_mod_division_less_than_divisor(i + q1, len);
        lemma_add_mod_noop((i + q1) % len, q2, len);
        lemma_add_mod_noop(i + q1, q2, len);
        let m1 = (i + q1) % len;
        assert((m1 % len + q2 % len) % len == (m1 + q2) % len);
        lemma_small_mod(m1 as nat, clip.len as nat);
        assert(((i + q1) % len + q2 % len) % len == (i + q1 + q2) % len);
        assert((m1 + q2) % len == (i + q1 + q2) % len);
    }
}

/// Feeding a sequence of ticks one by one equals feeding their total in a
/// single call: there is no drift between tick rate and frame rate.
pub proof fn lemma_advance_batch(p: AnimationPlayback, clip: SpriteAnimation, dts: Seq<int>)
    requires
        clip.wf(),
        p.wf(clip),
        nonneg(dts),
    ensures
        spec_advance_all(p, clip, dts) == spec_advance(p, clip, total_time(dts)),
    decreases dts.len(),
{
    if dts.len() == 0 {
        // advancing by zero time changes nothing
        if clip.len != 1 {
            lemma_basic_div(p.frame_time.0 as int, clip.frame_time_ms as int);
            lemma_small_mod(p.frame_time.0 as nat, clip.frame_time_ms as nat);
            lemma_small_mod(p.frame_index as nat, clip.len as nat);
        }
    } else {
        let rest = dts.drop_first();
        assert(nonneg(rest));
        lemma_advance_wf(p, clip, dts[0]);
        lemma_advance_batch(spec_advance(p, clip, dts[0]), clip, rest);
        lemma_total_time_nonneg(rest);
        lemma_advance_compose(p, clip, dts[0], total_time(rest));
    }
}

/// Whole-frame totals land exactly on a frame boundary: if the tick
/// durations sum to `k` whole frame durations and nothing was accumulated
/// beforehand, the final frame index is `(initial + k) mod len` and the
/// accumulator is exactly zero.
pub proof fn lemma_whole_frames(
    p: AnimationPlayback,
    clip: SpriteAnimation,
    dts: Seq<int>,
    k: int,
)
    requires
        clip.wf(),
        p.wf(clip),
        nonneg(dts),
        p.frame_time.0 == 0,
        total_time(dts) == k * clip.frame_time_ms,
    ensures
        spec_advance_all(p, clip, dts).frame_index == (p.frame_index + k) % (clip.len as int),
        spec_advance_all(p, clip, dts).frame_time.0 == 0,
{
    let len = clip.len as int;
    let d = clip.frame_time_ms as int;
    let i = p.frame_index as int;
    lemma_advance_batch(p, clip, dts);
    lemma_total_time_nonneg(dts);
    if clip.len == 1 {
        // a single-frame clip stays at frame 0 with nothing accumulated
        assert(k * d >= 0);
        lemma_fundamental_div_mod_converse_mod(i + k, 1, i + k, 0);
    } else {
        assert((0 + k * d) % d == 0) by {
            lemma_mod_multiples_basic(k, d);
        }
        assert((0 + k * d) / d == k) by {
            lemma_div_multiples_vanish(k, d);
            vstd::arithmetic::mul::lemma_mul_is_commutative(d, k);
        }
    }
}

/// The frame index stays within `[0, clip.len)` after any sequence of
/// advances, however large the individual steps are.
pub proof fn lemma_frame_index_in_range(p: AnimationPlayback, clip: SpriteAnimation, dts: Seq<int>)
    requires
        clip.wf(),
        p.wf(clip),
        nonneg(dts),
    ensures
        spec_advance_all(p, clip, dts).wf(clip),
        0 <= spec_advance_all(p, clip, dts).frame_index < clip.len,
    decreases dts.len(),
{
    if dts.len() > 0 {
        let rest = dts.drop_first();
        assert(nonneg(rest));
        lemma_advance_wf(p, clip, dts[0]);
        lemma_frame_index_in_range(spec_advance(p, clip, dts[0]), clip, rest);
    }
}

} // verus!
