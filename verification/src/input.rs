//! Input handling.
//!
//! The engine-facing layer maps physical keys to the logical key set
//! (move-left, move-right, run modifier, jump) and hands the core an
//! [`InputSnapshot`] each tick. [`handle_input`] derives this tick's
//! transient movement markers from the snapshot alone — never from leftover
//! state — and starts a jump when the jump key is held while grounded.

use vstd::prelude::*;
use crate::config::MovementConfig;
use crate::horizontal::{DirectionalInput, Run, RunDirection, Walk};
use crate::vertical::{Jump, MotionPhase, VerticalMotion};

verus! {

/// The state of the logical key set during one tick.
#[derive(Clone, Copy, Debug, PartialEq, Eq, Structural)]
pub struct InputSnapshot {
    /// A left movement key is held.
    pub left_held: bool,
    /// A right movement key is held.
    pub right_held: bool,
    /// The run modifier is held.
    pub run_held: bool,
    /// The jump key is held.
    pub jump_held: bool,
    /// The jump key was released this tick.
    pub jump_just_released: bool,
}

impl InputSnapshot {
    /// A movement key is held.
    pub open spec fn moving(self) -> bool {
        self.left_held || self.right_held
    }

    /// The directional part of the snapshot.
    pub open spec fn spec_directional(self) -> DirectionalInput {
        DirectionalInput { left: self.left_held, right: self.right_held }
    }

    /// The run direction the held keys ask for; left wins ties.
    pub open spec fn spec_run_dir(self) -> RunDirection {
        if self.left_held {
            RunDirection::Left
        } else {
            RunDirection::Right
        }
    }

    /// The walk direction the held keys ask for; left wins ties.
    pub open spec fn spec_walk_dir(self) -> Walk {
        if self.left_held {
            Walk::Left
        } else {
            Walk::Right
        }
    }

    /// Extracts the directional part of the snapshot.
    pub fn directional(&self) -> (d: DirectionalInput)
        ensures
            d == self.spec_directional(),
    {
        DirectionalInput { left: self.left_held, right: self.right_held }
    }
}

/// The run marker this tick's input asks for: present exactly when a
/// movement key and the run modifier are held together.
pub open spec fn spec_derive_run(input: InputSnapshot, cfg: MovementConfig) -> Option<Run> {
    if input.moving() && input.run_held {
        Some(Run { speed: cfg.run_speed, direction: input.spec_run_dir() })
    } else {
        None
    }
}

/// The walk marker this tick's input asks for: present exactly when a
/// movement key is held.
pub open spec fn spec_derive_walk(input: InputSnapshot) -> Option<Walk> {
    if input.moving() {
        Some(input.spec_walk_dir())
    } else {
        None
    }
}

/// Derives this tick's transient movement markers from the raw input alone
/// — any leftover markers are overwritten, so stale intent is never
/// trusted — and starts a jump if the jump key is held while the entity is
/// grounded.
pub fn handle_input(
    input: &InputSnapshot,
    vertical: &mut VerticalMotion,
    run_marker: &mut Option<Run>,
    walk_marker: &mut Option<Walk>,
    cfg: &MovementConfig,
)
    requires
        old(vertical).wf(),
        cfg.wf(),
    ensures
        final(vertical).wf(),
        *final(run_marker) == spec_derive_run(*input, *cfg),
        *final(walk_marker) == spec_derive_walk(*input),
        *final(vertical) == (if input.jump_held && old(vertical).spec_phase() is Grounded {
            VerticalMotion { height: 0u64, jump: Some(Jump(cfg.jump_impulse)) }
        } else {
            *old(vertical)
        }),
{
    if (input.left_held || input.right_held) && input.run_held {
        let direction = if input.left_held {
            RunDirection::Left
        } else {
            RunDirection::Right
        };
        *run_marker = Some(Run { speed: cfg.run_speed, direction });
    } else {
        *run_marker = None;
    }
    if input.left_held || input.right_held {
        let walk_action = if input.left_held {
            Walk::Left
        } else {
            Walk::Right
        };
        *walk_marker = Some(walk_action);
    } else {
        *walk_marker = None;
    }
    if input.jump_held {
        let _ = vertical.trigger_jump(cfg.jump_impulse);
    }
}

/// The per-tick actions the input layer can request of the player.
#[derive(Clone, Copy, Debug, PartialEq, Eq, Structural)]
pub enum PlayerAction {
    /// Descend towards the ground.
    Fall,
    /// Start a jump.
    Jump,
    /// Move towards positive x.
    WalkRight,
    /// Move towards negative x.
    WalkLeft,
}

/// The primary action this tick's input and motion phase ask for, if any:
/// a jump when the jump key is held while grounded, otherwise movement in
/// the held direction (left wins ties), otherwise a fall while airborne
/// and unpowered.
pub open spec fn spec_primary_action(input: InputSnapshot, phase: MotionPhase) -> Option<
    PlayerAction,
> {
    if input.jump_held && phase is Grounded {
        Some(PlayerAction::Jump)
    } else if input.left_held {
        Some(PlayerAction::WalkLeft)
    } else if input.right_held {
        Some(PlayerAction::WalkRight)
    } else if phase is Falling {
        Some(PlayerAction::Fall)
    } else {
        None
    }
}

/// Classifies this tick's input into its primary [`PlayerAction`], chiefly
/// for logging and diagnostics at the engine edge.
pub fn classify_action(input: &InputSnapshot, phase: MotionPhase) -> (a: Option<PlayerAction>)
    ensures
        a == spec_primary_action(*input, phase),
{
    if input.jump_held && matches!(phase, MotionPhase::Grounded) {
        Some(PlayerAction::Jump)
    } else if input.left_held {
        Some(PlayerAction::WalkLeft)
    } else if input.right_held {
        Some(PlayerAction::WalkRight)
    } else if matches!(phase, MotionPhase::Falling) {
        Some(PlayerAction::Fall)
    } else {
        None
    }
}

} // verus!
