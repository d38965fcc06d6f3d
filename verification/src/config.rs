//! Tunable constants for the control core.
//!
//! Every speed and impulse the core uses is named here once; nothing else in
//! the crate hardcodes them. Callers that want different tuning build their
//! own [`MovementConfig`].

use vstd::prelude::*;

verus! {

/// Downward speed while falling, in world units per second.
pub const FALL_SPEED: u32 = 95;

/// Base horizontal speed while walking, in world units per second.
pub const WALK_SPEED: u32 = 100;

/// Horizontal speed while the run modifier is held, in world units per second.
pub const RUN_SPEED: u32 = 150;

/// Upward-motion budget granted by one jump, in milliunits (10 world units).
pub const JUMP_IMPULSE: u64 = 10000;

/// The tunable-constants surface of the core: one source of truth for the
/// speeds and the jump impulse.
#[derive(Clone, Copy, Debug, PartialEq, Eq, Structural)]
pub struct MovementConfig {
    /// Downward speed while falling, in world units per second.
    pub fall_speed: u32,
    /// Base horizontal speed while walking, in world units per second.
    pub walk_speed: u32,
    /// Horizontal speed while running, in world units per second.
    pub run_speed: u32,
    /// Upward-motion budget granted by one jump, in milliunits.
    pub jump_impulse: u64,
}

impl MovementConfig {
    /// A configuration is usable when falling makes progress and a jump
    /// grants a positive budget.
    pub open spec fn wf(self) -> bool {
        self.fall_speed >= 1 && self.jump_impulse >= 1
    }

    /// The canonical tuning of the game.
    pub fn standard() -> (c: MovementConfig)
        ensures
            c.fall_speed == FALL_SPEED,
            c.walk_speed == WALK_SPEED,
            c.run_speed == RUN_SPEED,
            c.jump_impulse == JUMP_IMPULSE,
            c.wf(),
    {
        MovementConfig {
            fall_speed: FALL_SPEED,
            walk_speed: WALK_SPEED,
            run_speed: RUN_SPEED,
            jump_impulse: JUMP_IMPULSE,
        }
    }
}

impl Default for MovementConfig {
    /// The default configuration is the canonical tuning.
    fn default() -> (c: MovementConfig)
        ensures
            c.fall_speed == FALL_SPEED,
            c.walk_speed == WALK_SPEED,
            c.run_speed == RUN_SPEED,
            c.jump_impulse == JUMP_IMPULSE,
            c.wf(),
    {
        MovementConfig::standard()
    }
}

} // verus!
