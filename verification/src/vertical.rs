//! Vertical motion state machine.
//!
//! [`VerticalMotion`] owns an entity's vertical offset from the ground
//! (`height`, in milliunits) and, while the entity is jump-powered, the
//! remaining jump budget ([`Jump`], also in milliunits). The derived
//! [`MotionPhase`] classifies the state: `Grounded` (no budget, height 0),
//! `Rising` (budget present), `Falling` (no budget, height above 0).
//!
//! Rising consumes the budget at twice the fall speed and converts it into
//! height; falling reduces the height at the fall speed, clamped at the
//! ground. The asymmetry (fast rise, slower descent) is the intended feel,
//! not physics.

use vstd::prelude::*;
use vstd::arithmetic::mul::{
    lemma_mul_is_commutative, lemma_mul_is_distributive_add, lemma_mul_nonnegative,
    lemma_mul_upper_bound,
};
use crate::{lemma_total_time_nonneg, nonneg, total_time};

verus! {

/// Remaining upward-motion budget of a jump, in milliunits. The component
/// is present only while the entity is jump-powered.
#[derive(Clone, Copy, Debug, PartialEq, Eq, Structural)]
pub struct Jump(pub u64);

/// Derived classification of the vertical state.
#[derive(Clone, Copy, Debug, PartialEq, Eq, Structural)]
pub enum MotionPhase {
    /// On the ground: no jump budget and height 0.
    Grounded,
    /// Jump-powered: a jump budget is present.
    Rising,
    /// Airborne without budget: height above 0.
    Falling,
}

/// Per-entity vertical state: the height above ground and, while rising,
/// the remaining jump budget.
#[derive(Clone, Copy, Debug, PartialEq, Eq, Structural)]
pub struct VerticalMotion {
    /// Vertical offset from the ground, in milliunits.
    pub height: u64,
    /// Remaining jump budget, present only while jump-powered.
    pub jump: Option<Jump>,
}

impl VerticalMotion {
    /// A present jump budget is positive (it is removed the moment it
    /// reaches zero), and height plus budget fits in a `u64`, which keeps
    /// the rising step free of overflow: rising only moves budget into
    /// height.
    pub open spec fn wf(self) -> bool {
        self.jump matches Some(j) ==> j.0 >= 1 && self.height + j.0 <= u64::MAX
    }

    /// The motion phase derived from the stored state.
    pub open spec fn spec_phase(self) -> MotionPhase {
        if self.jump is Some {
            MotionPhase::Rising
        } else if self.height > 0 {
            MotionPhase::Falling
        } else {
            MotionPhase::Grounded
        }
    }

    /// Computes the derived motion phase.
    pub fn phase(&self) -> (p: MotionPhase)
        ensures
            p == self.spec_phase(),
    {
        match self.jump {
            Some(_) => MotionPhase::Rising,
            None => {
                if self.height > 0 {
                    MotionPhase::Falling
                } else {
                    MotionPhase::Grounded
                }
            },
        }
    }

    /// Fresh vertical state: grounded.
    pub fn new() -> (v: VerticalMotion)
        ensures
            v == (VerticalMotion { height: 0u64, jump: None::<Jump> }),
            v.wf(),
            v.spec_phase() is Grounded,
    {
        VerticalMotion { height: 0, jump: None }
    }

    /// Starts a jump if and only if the entity is grounded, granting the
    /// full impulse as jump budget. Airborne entities are unaffected.
    pub fn trigger_jump(&mut self, impulse: u64) -> (started: bool)
        requires
            old(self).wf(),
            impulse >= 1,
        ensures
            final(self).wf(),
            started == (old(self).spec_phase() is Grounded),
            started ==> *final(self) == (VerticalMotion {
                height: 0u64,
                jump: Some(Jump(impulse)),
            }),
            !started ==> *final(self) == *old(self),
    {
        if self.jump.is_none() && self.height == 0 {
            self.jump = Some(Jump(impulse));
            true
        } else {
            false
        }
    }
}

/// The smaller of two integers.
pub open spec fn spec_min(a: int, b: int) -> int {
    if a <= b {
        a
    } else {
        b
    }
}

/// The larger of two integers.
pub open spec fn spec_max(a: int, b: int) -> int {
    if a >= b {
        a
    } else {
        b
    }
}

/// One rising tick: the power released this tick is the smaller of
/// `2 * dt * fall_speed` and the remaining budget; it leaves the budget and
/// enters the height. A budget that reaches exactly zero is removed, which
/// moves the state to `Falling` (or `Grounded` if the height is 0).
/// States without a budget are unchanged.
pub open spec fn spec_rise(vm: VerticalMotion, dt: int, fall_speed: int) -> VerticalMotion {
    match vm.jump {
        Some(j) => {
            let power = spec_min(2 * dt * fall_speed, j.0 as int);
            VerticalMotion {
                height: (vm.height + power) as u64,
                jump: if power == j.0 {
                    None
                } else {
                    Some(Jump((j.0 - power) as u64))
                },
            }
        },
        None => vm,
    }
}

/// One falling tick: the height drops by `dt * fall_speed`, clamped at the
/// ground. States with a jump budget, or already grounded, are unchanged.
pub open spec fn spec_fall(vm: VerticalMotion, dt: int, fall_speed: int) -> VerticalMotion {
    if vm.jump is None && vm.height > 0 {
        let drop = dt * fall_speed;
        VerticalMotion {
            height: spec_max(0, vm.height - drop) as u64,
            jump: None,
        }
    } else {
        vm
    }
}

/// One full vertical tick: a rising state takes the rising step, any other
/// state takes the falling step. Exactly one transition happens per tick.
pub open spec fn spec_step(vm: VerticalMotion, dt: int, fall_speed: int) -> VerticalMotion {
    if vm.jump is Some {
        spec_rise(vm, dt, fall_speed)
    } else {
        spec_fall(vm, dt, fall_speed)
    }
}

/// Applies one rising tick to a jump-powered entity; entities without a
/// jump budget are unaffected.
pub fn jump(motion: &mut VerticalMotion, dt_ms: u32, fall_speed: u32)
    requires
        old(motion).wf(),
    ensures
        final(motion).wf(),
        *final(motion) == spec_rise(*old(motion), dt_ms as int, fall_speed as int),
{
    let budget: u64 = match motion.jump {
        Some(Jump(b)) => b,
        None => {
            return ;
        },
    };
    proof {
        lemma_mul_upper_bound(dt_ms as int, u32::MAX as int, fall_speed as int, u32::MAX as int);
    }
    let m: u64 = (dt_ms as u64) * (fall_speed as u64);
    // power = min(2 * m, budget), computed without overflowing 2 * m
    let half_up: u64 = budget / 2 + budget % 2;
    let power: u64 = if m >= half_up {
        budget
    } else {
        2 * m
    };
    assert(power == spec_min(2 * (dt_ms as int) * (fall_speed as int), budget as int)) by {
        vstd::arithmetic::mul::lemma_mul_is_associative(2, dt_ms as int, fall_speed as int);
    }
    motion.height = motion.height + power;
    if power == budget {
        motion.jump = None;
    } else {
        motion.jump = Some(Jump(budget - power));
    }
}

/// Applies one falling tick to an airborne, unpowered entity, clamping the
/// height at the ground; other states are unaffected.
pub fn fall(motion: &mut VerticalMotion, dt_ms: u32, fall_speed: u32)
    requires
        old(motion).wf(),
    ensures
        final(motion).wf(),
        *final(motion) == spec_fall(*old(motion), dt_ms as int, fall_speed as int),
{
    if motion.jump.is_none() && motion.height > 0 {
        proof {
            lemma_mul_upper_bound(
                dt_ms as int,
                u32::MAX as int,
                fall_speed as int,
                u32::MAX as int,
            );
        }
        let drop: u64 = (dt_ms as u64) * (fall_speed as u64);
        motion.height = if drop >= motion.height {
            0
        } else {
            motion.height - drop
        };
    }
}

/// Applies one full vertical tick: rising while a jump budget is present,
/// falling otherwise.
pub fn tick(motion: &mut VerticalMotion, dt_ms: u32, fall_speed: u32)
    requires
        old(motion).wf(),
    ensures
        final(motion).wf(),
        *final(motion) == spec_step(*old(motion), dt_ms as int, fall_speed as int),
{
    if motion.jump.is_some() {
        jump(motion, dt_ms, fall_speed);
    } else {
        fall(motion, dt_ms, fall_speed);
    }
}

/// The vertical state after feeding a whole sequence of tick durations, one
/// full vertical tick per entry.
pub open spec fn spec_run(vm: VerticalMotion, dts: Seq<int>, fall_speed: int) -> VerticalMotion
    decreases dts.len(),
{
    if dts.len() == 0 {
        vm
    } else {
        spec_run(spec_step(vm, dts[0], fall_speed), dts.drop_first(), fall_speed)
    }
}

/// The jump budget stored in the state, or 0 when none is present.
pub open spec fn budget_of(vm: VerticalMotion) -> int {
    match vm.jump {
        Some(j) => j.0 as int,
        None => 0,
    }
}

/// One tick keeps the state well formed, and it never increases the sum of
/// height and remaining budget: rising only moves budget into height, and
/// falling only lowers the height.
pub proof fn lemma_step_conserves(vm: VerticalMotion, dt: int, fall_speed: int)
    requires
        vm.wf(),
        dt >= 0,
        fall_speed >= 0,
    ensures
        spec_step(vm, dt, fall_speed).wf(),
        spec_step(vm, dt, fall_speed).height + budget_of(spec_step(vm, dt, fall_speed)) <= vm.height
            + budget_of(vm),
        vm.jump is Some ==> spec_step(vm, dt, fall_speed).height + budget_of(
            spec_step(vm, dt, fall_speed),
        ) == vm.height + budget_of(vm),
{
    match vm.jump {
        Some(j) => {
            assert(2 * dt * fall_speed >= 0) by {
                lemma_mul_nonnegative(2 * dt, fall_speed);
            }
        },
        None => {
            if vm.height > 0 {
                assert(dt * fall_speed >= 0) by {
                    lemma_mul_nonnegative(dt, fall_speed);
                }
            }
        },
    }
}

/// Falling in closed form: from an unpowered state, a sequence of ticks
/// lowers the height by the fall speed times the total elapsed time,
/// clamped at the ground, and never grants a jump budget.
pub proof fn lemma_falling_run(vm: VerticalMotion, dts: Seq<int>, fall_speed: int)
    requires
        vm.wf(),
        vm.jump is None,
        nonneg(dts),
        fall_speed >= 0,
    ensures
        spec_run(vm, dts, fall_speed).jump is None,
        spec_run(vm, dts, fall_speed).height == spec_max(
            0,
            vm.height - fall_speed * total_time(dts),
        ),
    decreases dts.len(),
{
    if dts.len() == 0 {
        assert(fall_speed * 0 == 0) by {
            lemma_mul_is_commutative(fall_speed, 0);
        }
    } else {
        let rest = dts.drop_first();
        assert(nonneg(rest));
        let vm1 = spec_step(vm, dts[0], fall_speed);
        lemma_step_conserves(vm, dts[0], fall_speed);
        assert(dts[0] * fall_speed == fall_speed * dts[0]) by {
            lemma_mul_is_commutative(dts[0], fall_speed);
        }
        lemma_falling_run(vm1, rest, fall_speed);
        lemma_total_time_nonneg(rest);
        assert(fall_speed * total_time(rest) >= 0) by {
            lemma_mul_nonnegative(fall_speed, total_time(rest));
        }
        assert(fall_speed * dts[0] >= 0) by {
            lemma_mul_nonnegative(fall_speed, dts[0]);
        }
        assert(fall_speed * (dts[0] + total_time(rest)) == fall_speed * dts[0] + fall_speed
            * total_time(rest)) by {
            lemma_mul_is_distributive_add(fall_speed, dts[0], total_time(rest));
        }
    }
}

/// Over any run, the sum of height and remaining budget never grows, so the
/// height itself never exceeds that initial sum at any intermediate tick.
pub proof fn lemma_run_height_bounded(vm: VerticalMotion, dts: Seq<int>, fall_speed: int, cap: int)
    requires
        vm.wf(),
        nonneg(dts),
        fall_speed >= 0,
        vm.height + budget_of(vm) <= cap,
    ensures
        spec_run(vm, dts, fall_speed).wf(),
        spec_run(vm, dts, fall_speed).height + budget_of(spec_run(vm, dts, fall_speed)) <= cap,
        forall|n: int|
            0 <= n <= dts.len() ==> #[trigger] spec_run(vm, dts.take(n), fall_speed).height <= cap,
    decreases dts.len(),
{
    if dts.len() == 0 {
        assert(dts.take(0) =~= dts);
    } else {
        lemma_step_conserves(vm, dts[0], fall_speed);
        let vm1 = spec_step(vm, dts[0], fall_speed);
        let rest = dts.drop_first();
        assert(nonneg(rest));
        lemma_run_height_bounded(vm1, rest, fall_speed, cap);
        assert forall|n: int| 0 <= n <= dts.len() implies #[trigger] spec_run(
            vm,
            dts.take(n),
            fall_speed,
        ).height <= cap by {
            if n == 0 {
                assert(dts.take(0) =~= Seq::<int>::empty());
            } else {
                let prefix = dts.take(n);
                assert(prefix.len() == n);
                assert(prefix[0] == dts[0]);
                assert(prefix.drop_first() =~= rest.take(n - 1));
                assert(spec_run(vm1, rest.take(n - 1), fall_speed).height <= cap);
            }
        }
    }
}

/// The full jump arc: from a grounded state, triggering a jump and feeding
/// ticks until the budget is exhausted, then feeding enough further ticks
/// for the fall speed to cover the impulse, brings the height back to
/// exactly 0 and the phase back to `Grounded`; and the height never exceeds
/// the impulse at any intermediate tick (it can never go below 0, since
/// heights are unsigned).
pub proof fn lemma_jump_round_trip(
    start: VerticalMotion,
    impulse: u64,
    dts1: Seq<int>,
    dts2: Seq<int>,
    fall_speed: int,
)
    requires
        start.wf(),
        start.spec_phase() is Grounded,
        impulse >= 1,
        fall_speed >= 1,
        nonneg(dts1),
        nonneg(dts2),
        spec_run(
            VerticalMotion { height: 0u64, jump: Some(Jump(impulse)) },
            dts1,
            fall_speed,
        ).jump is None,
        fall_speed * total_time(dts2) >= impulse,
    ensures
        ({
            let jumped = VerticalMotion { height: 0u64, jump: Some(Jump(impulse)) };
            let mid = spec_run(jumped, dts1, fall_speed);
            let end = spec_run(mid, dts2, fall_speed);
            &&& end.height == 0
            &&& end.spec_phase() is Grounded
            &&& forall|n: int|
                0 <= n <= dts1.len() ==> #[trigger] spec_run(jumped, dts1.take(n), fall_speed).height
                    <= impulse
            &&& forall|n: int|
                0 <= n <= dts2.len() ==> #[trigger] spec_run(mid, dts2.take(n), fall_speed).height
                    <= impulse
        }),
{
    let jumped = VerticalMotion { height: 0u64, jump: Some(Jump(impulse)) };
    let mid = spec_run(jumped, dts1, fall_speed);
    lemma_run_height_bounded(jumped, dts1, fall_speed, impulse as int);
    lemma_falling_run(mid, dts2, fall_speed);
    assert forall|n: int| 0 <= n <= dts2.len() implies #[trigger] spec_run(
        mid,
        dts2.take(n),
        fall_speed,
    ).height <= impulse by {
        let prefix = dts2.take(n);
        assert(nonneg(prefix));
        lemma_falling_run(mid, prefix, fall_speed);
        lemma_total_time_nonneg(prefix);
        lemma_mul_nonnegative(fall_speed, total_time(prefix));
    }
}

} // verus!
