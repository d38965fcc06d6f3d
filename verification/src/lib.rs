//! Character-control core for a 2D side-scrolling game.
//!
//! The crate advances sprite animation frames, integrates vertical motion for
//! jumping and falling, and resolves horizontal movement each tick. All
//! quantities are fixed-point integers so that every update is exact:
//!
//! * time is measured in milliseconds (`dt_ms`),
//! * distances are measured in milliunits (1000 milliunits = 1 world unit),
//! * speeds are measured in world units per second.
//!
//! With these units, `dt_ms * speed` is exactly the displacement in
//! milliunits: (dt_ms / 1000 s) * (speed units/s) * (1000 milliunits/unit).

use vstd::prelude::*;

pub mod animation;
pub mod config;
pub mod horizontal;
pub mod input;
pub mod player;
pub mod sprite_animation;
pub mod vertical;

verus! {

/// Milliunits per world unit: distances are stored as thousandths of a unit.
pub const MILLI_PER_UNIT: u64 = 1000;

/// Sum of a sequence of tick durations.
pub open spec fn total_time(dts: Seq<int>) -> int
    decreases dts.len(),
{
    if dts.len() == 0 {
        0
    } else {
        dts[0] + total_time(dts.drop_first())
    }
}

/// All tick durations in the sequence are nonnegative, as delta time always
/// is.
pub open spec fn nonneg(dts: Seq<int>) -> bool {
    forall|i: int| 0 <= i < dts.len() ==> dts[i] >= 0
}

/// A sum of nonnegative durations is nonnegative.
pub proof fn lemma_total_time_nonneg(dts: Seq<int>)
    requires
        nonneg(dts),
    ensures
        total_time(dts) >= 0,
    decreases dts.len(),
{
    if dts.len() > 0 {
        assert(nonneg(dts.drop_first()));
        lemma_total_time_nonneg(dts.drop_first());
    }
}

} // verus!
