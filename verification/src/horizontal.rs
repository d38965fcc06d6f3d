//! Horizontal movement resolver.
//!
//! Directional input maps to a horizontal displacement each tick. A held
//! run modifier selects the run speed instead of the base speed for exactly
//! that tick: the [`Run`] and [`Walk`] markers are transient, consumed by
//! the functions that apply them, and re-derived from raw input every tick.
//! When both directions are held, left wins.

use vstd::prelude::*;

verus! {

/// Direction of a run, matching the movement keys held.
#[derive(Clone, Copy, Debug, PartialEq, Eq, Structural)]
pub enum RunDirection {
    /// Moving towards positive x.
    Right,
    /// Moving towards negative x.
    Left,
}

/// One-tick marker: move at the given run speed in the given direction this
/// tick. Removed by [`run`] after being applied.
#[derive(Clone, Copy, Debug, PartialEq, Eq, Structural)]
pub struct Run {
    /// Speed to use this tick, in world units per second.
    pub speed: u32,
    /// Direction to move in.
    pub direction: RunDirection,
}

/// One-tick marker: walk in the given direction this tick. Removed by
/// [`walk`] after being applied.
#[derive(Clone, Copy, Debug, PartialEq, Eq, Structural)]
pub enum Walk {
    /// Walking towards negative x.
    Left,
    /// Walking towards positive x.
    Right,
}

/// Base horizontal speed of an entity, in world units per second.
#[derive(Clone, Copy, Debug, PartialEq, Eq, Structural)]
pub struct Speed(pub u32);

/// Which movement keys are held this tick.
#[derive(Clone, Copy, Debug, PartialEq, Eq, Structural)]
pub struct DirectionalInput {
    /// A left movement key is held.
    pub left: bool,
    /// A right movement key is held.
    pub right: bool,
}

/// The sign a run direction contributes to a displacement.
pub open spec fn spec_run_sign(d: RunDirection) -> int {
    match d {
        RunDirection::Right => 1,
        RunDirection::Left => -1,
    }
}

/// The sign a walk direction contributes to a displacement.
pub open spec fn spec_walk_sign(w: Walk) -> int {
    match w {
        Walk::Right => 1,
        Walk::Left => -1,
    }
}

/// The horizontal displacement of one tick, in milliunits: zero without a
/// movement key; otherwise `dt` times the effective speed (run speed when
/// requested, base speed otherwise), negative when moving left. Left wins
/// when both directions are held.
pub open spec fn spec_resolve(
    input: DirectionalInput,
    speed: int,
    run_requested: bool,
    run_speed: int,
    dt: int,
) -> int {
    if !input.left && !input.right {
        0
    } else {
        let eff = if run_requested {
            run_speed
        } else {
            speed
        };
        let dir: int = if input.left {
            -1
        } else {
            1
        };
        dt * eff * dir
    }
}

/// Resolves directional input into this tick's horizontal displacement in
/// milliunits. Run intent is passed in fresh each tick; the resolver never
/// keeps state.
pub fn resolve(
    input: DirectionalInput,
    speed: u32,
    run_requested: bool,
    run_speed: u32,
    dt_ms: u32,
) -> (delta: i64)
    requires
        dt_ms * speed <= i64::MAX,
        dt_ms * run_speed <= i64::MAX,
    ensures
        delta == spec_resolve(input, speed as int, run_requested, run_speed as int, dt_ms as int),
{
    if !(input.left || input.right) {
        return 0;
    }
    let eff: u32 = if run_requested {
        run_speed
    } else {
        speed
    };
    let mag: u64 = (dt_ms as u64) * (eff as u64);
    let mag_i: i64 = mag as i64;
    proof {
        assert((dt_ms as int) * (eff as int) * (-1) == -((dt_ms as int) * (eff as int)))
            by (nonlinear_arith);
        assert((dt_ms as int) * (eff as int) * 1 == (dt_ms as int) * (eff as int))
            by (nonlinear_arith);
    }
    if input.left {
        -mag_i
    } else {
        mag_i
    }
}

/// Applies a pending [`Run`] marker to the horizontal position and removes
/// it, so the run lasts exactly one tick. Without a marker, nothing
/// changes.
pub fn run(x: &mut i64, marker: &mut Option<Run>, dt_ms: u32)
    requires
        (*old(marker)) matches Some(r) ==> dt_ms * r.speed <= i64::MAX,
        (*old(marker)) matches Some(r) ==> (r.direction is Right ==> *old(x) + dt_ms * r.speed
            <= i64::MAX),
        (*old(marker)) matches Some(r) ==> (r.direction is Left ==> i64::MIN <= *old(x) - dt_ms
            * r.speed),
    ensures
        *final(marker) is None,
        (*old(marker)) matches Some(r) ==> *final(x) == *old(x) + dt_ms * r.speed * spec_run_sign(
            r.direction,
        ),
        (*old(marker)) is None ==> *final(x) == *old(x),
{
    match *marker {
        Some(r) => {
            let mag: u64 = (dt_ms as u64) * (r.speed as u64);
            let mag_i: i64 = mag as i64;
            match r.direction {
                RunDirection::Left => {
                    *x = *x - mag_i;
                },
                RunDirection::Right => {
                    *x = *x + mag_i;
                },
            }
            *marker = None;
        },
        None => {},
    }
}

/// Applies a pending [`Walk`] marker to the horizontal position at the
/// entity's base speed and removes it, so the walk intent lasts exactly one
/// tick. Without a marker, nothing changes.
pub fn walk(x: &mut i64, marker: &mut Option<Walk>, speed: &Speed, dt_ms: u32)
    requires
        (*old(marker)) is Some ==> dt_ms * speed.0 <= i64::MAX,
        (*old(marker)) matches Some(w) ==> (w is Right ==> *old(x) + dt_ms * speed.0 <= i64::MAX),
        (*old(marker)) matches Some(w) ==> (w is Left ==> i64::MIN <= *old(x) - dt_ms * speed.0),
    ensures
        *final(marker) is None,
        (*old(marker)) matches Some(w) ==> *final(x) == *old(x) + dt_ms * speed.0 * spec_walk_sign(w),
        (*old(marker)) is None ==> *final(x) == *old(x),
{
    match *marker {
        Some(w) => {
            let mag: u64 = (dt_ms as u64) * (speed.0 as u64);
            let mag_i: i64 = mag as i64;
            match w {
                Walk::Left => {
                    *x = *x - mag_i;
                },
                Walk::Right => {
                    *x = *x + mag_i;
                },
            }
            *marker = None;
        },
        None => {},
    }
}

} // verus!
