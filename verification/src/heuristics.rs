//! Goal objects and admissible distance estimators. The search consults a
//! goal object for a lower bound on the remaining steps and for the goal
//! predicate; estimators must never overestimate, but that is a contract
//! with the scenario author, checked by tests rather than proved.

use vstd::prelude::*;
use crate::emu::EmuResult;
use crate::options::Platform;
use crate::state::{Dist, State};

verus! {

/// A scenario's goal: a pruning lower-bound estimator, the goal predicate,
/// and optional telemetry hooks. The goal predicate has a specification
/// function so that the search's result contract can speak about it; the
/// estimator is advisory and carries no promise (an inadmissible estimate
/// costs completeness, never soundness).
pub trait SearchGoal: Sized {
    /// The goal predicate as a mathematical relation.
    spec fn spec_goal(&self, s: State, r: EmuResult) -> bool;

    /// The estimator as a mathematical function: a lower bound on the
    /// steps still needed from `s`, or `None` to declare `s` dead.
    spec fn spec_estimate(&self, s: State, steps_already_taken: Dist) -> Option<Dist>;

    /// A lower bound on the steps still needed from `s`, or `None` to
    /// declare `s` dead; computes exactly `spec_estimate`.
    fn distance_to_goal_heuristic(&self, s: &State, steps_already_taken: Dist) -> (r: Option<
        Dist,
    >)
        ensures
            r == self.spec_estimate(*s, steps_already_taken),
    ;

    fn is_goal_state(&self, s: &State, emu_result: &EmuResult) -> (r: bool)
        ensures
            r == self.spec_goal(*s, *emu_result),
    ;

    /// Telemetry hook; must not change what counts as a goal.
    fn track_metric(&mut self, s: &State)
        ensures
            forall|s2: State, r2: EmuResult| final(self).spec_goal(s2, r2) == old(
                self,
            ).spec_goal(s2, r2),
    {
    }

    /// Telemetry hook.
    fn report_metrics(&self) {
    }
}

/// A goal that never succeeds: useful to exhaust a search space.
pub struct ImpossibleSearchGoal {
}

impl ImpossibleSearchGoal {
    pub fn new() -> (r: ImpossibleSearchGoal)
        ensures
            forall|s2: State, r2: EmuResult| !r.spec_goal(s2, r2),
    {
        ImpossibleSearchGoal {  }
    }
}

impl SearchGoal for ImpossibleSearchGoal {
    open spec fn spec_goal(&self, s: State, r: EmuResult) -> bool {
        false
    }

    open spec fn spec_estimate(&self, s: State, steps_already_taken: Dist) -> Option<Dist> {
        Option::Some(0u16)
    }

    fn distance_to_goal_heuristic(&self, s: &State, steps_already_taken: Dist) -> (r: Option<
        Dist,
    >) {
        Option::Some(0)
    }

    fn is_goal_state(&self, s: &State, emu_result: &EmuResult) -> (r: bool) {
        false
    }
}

/// A goal that never succeeds but records the best x-position seen, to
/// explore how far right the player can get.
pub struct MaxXPosMetric {
    pub platform: Platform,
    pub max_x_pos: i32,
}

impl MaxXPosMetric {
    pub fn new(platform: Platform) -> (r: MaxXPosMetric)
        ensures
            r.platform == platform,
            r.max_x_pos == -0x80000000,
    {
        MaxXPosMetric { platform, max_x_pos: -0x80000000 }
    }
}

impl SearchGoal for MaxXPosMetric {
    open spec fn spec_goal(&self, s: State, r: EmuResult) -> bool {
        false
    }

    open spec fn spec_estimate(&self, s: State, steps_already_taken: Dist) -> Option<Dist> {
        if self.max_x_pos >= 0xfffff00 || self.max_x_pos <= -0xfffff00 {
            Option::Some(0u16)
        } else if s.x_pos >= 0x10000000 || s.x_pos <= -0x10000000 {
            Option::Some(0u16)
        } else {
            Option::Some(
                spec_min_x_pos_steps(
                    self.platform,
                    s.x_pos as int,
                    s.x_spd as int,
                    self.max_x_pos as int + 0x10,
                    0xffff,
                ) as u16,
            )
        }
    }

    fn distance_to_goal_heuristic(&self, s: &State, steps_already_taken: Dist) -> (r: Option<
        Dist,
    >) {
        if self.max_x_pos >= 0xfffff00 || self.max_x_pos <= -0xfffff00 {
            return Option::Some(0);
        }
        if s.x_pos >= 0x10000000 || s.x_pos <= -0x10000000 {
            return Option::Some(0);
        }
        proof {
            lemma_min_x_pos_steps_le_fuel(
                self.platform,
                s.x_pos as int,
                s.x_spd as int,
                self.max_x_pos as int + 0x10,
                0xffff,
            );
        }
        Option::Some(min_x_pos_heuristic(self.platform, s, self.max_x_pos + 0x10))
    }

    fn is_goal_state(&self, s: &State, emu_result: &EmuResult) -> (r: bool) {
        false
    }

    fn track_metric(&mut self, s: &State) {
        if self.max_x_pos < s.x_pos {
            self.max_x_pos = s.x_pos;
        }
    }
}

/// A goal at a configurable x-position: succeed as soon as the player is
/// at or past `target`.
pub struct ReachXGoal {
    pub platform: Platform,
    pub target: i32,
}

impl ReachXGoal {
    pub fn new(platform: Platform, target: i32) -> (r: ReachXGoal)
        ensures
            r.platform == platform,
            r.target == target,
            forall|s2: State, r2: EmuResult| #[trigger] r.spec_goal(s2, r2) == (s2.x_pos
                >= target),
    {
        ReachXGoal { platform, target }
    }
}

impl SearchGoal for ReachXGoal {
    open spec fn spec_goal(&self, s: State, r: EmuResult) -> bool {
        s.x_pos >= self.target
    }

    open spec fn spec_estimate(&self, s: State, steps_already_taken: Dist) -> Option<Dist> {
        if s.x_pos >= 0x10000000 || s.x_pos <= -0x10000000 || self.target >= 0x10000000
            || self.target <= -0x10000000 {
            Option::Some(0u16)
        } else {
            Option::Some(
                spec_min_x_pos_steps(
                    self.platform,
                    s.x_pos as int,
                    s.x_spd as int,
                    self.target as int,
                    0xffff,
                ) as u16,
            )
        }
    }

    fn distance_to_goal_heuristic(&self, s: &State, steps_already_taken: Dist) -> (r: Option<
        Dist,
    >) {
        if s.x_pos >= 0x10000000 || s.x_pos <= -0x10000000 || self.target >= 0x10000000
            || self.target <= -0x10000000 {
            return Option::Some(0);
        }
        proof {
            lemma_min_x_pos_steps_le_fuel(
                self.platform,
                s.x_pos as int,
                s.x_spd as int,
                self.target as int,
                0xffff,
            );
        }
        Option::Some(min_x_pos_heuristic(self.platform, s, self.target))
    }

    fn is_goal_state(&self, s: &State, emu_result: &EmuResult) -> (r: bool) {
        s.x_pos >= self.target
    }
}

/// A two-axis bound estimator. The horizontal axis uses the closed-form
/// full-acceleration bound; the vertical axis conservatively reports zero,
/// which is always admissible.
pub struct BoundsHeuristic {
    pub platform: Platform,
}

impl BoundsHeuristic {
    pub fn new(platform: Platform) -> (r: BoundsHeuristic)
        ensures
            r.platform == platform,
    {
        BoundsHeuristic { platform }
    }

    /// Whether a state's position is inside the estimator's working range.
    pub open spec fn in_range(s: State, target: i32) -> bool {
        -0x10000000 < s.x_pos < 0x10000000 && -0x10000000 < target < 0x10000000
    }

    /// The x-axis estimate: the full-acceleration position model.
    pub open spec fn spec_x_at_least(self, s: State, target: int) -> nat {
        spec_min_x_pos_steps(self.platform, s.x_pos as int, s.x_spd as int, target, 0xffff)
    }

    /// The y-axis estimate of this estimator: always zero, the bound that
    /// is admissible without a table of reachable vertical speeds.
    pub open spec fn spec_y_at_least(self, s: State, target: int) -> nat {
        0
    }

    /// The dispatch of the between form: push up when below the window,
    /// otherwise the (zero) push-down bound.
    pub open spec fn spec_x_between(self, s: State, min_x_pos: int) -> nat {
        if s.x_pos < min_x_pos {
            self.spec_x_at_least(s, min_x_pos)
        } else {
            0
        }
    }

    pub fn get_steps_until_x_pos_at_least(&self, s: &State, target_x_pos: i32) -> (r: Dist)
        requires
            BoundsHeuristic::in_range(*s, target_x_pos),
        ensures
            r as nat == self.spec_x_at_least(*s, target_x_pos as int),
            target_x_pos <= s.x_pos ==> r == 0,
    {
        min_x_pos_heuristic(self.platform, s, target_x_pos)
    }

    /// Moving left costs at least one step per full-speed frame; zero is
    /// the safe bound without a table of reachable speeds.
    pub fn get_steps_until_x_pos_at_most(&self, s: &State, target_x_pos: i32) -> (r: Dist)
        ensures
            r == 0,
    {
        0
    }

    pub fn get_steps_until_x_pos_between(&self, s: &State, min_x_pos: i32, max_x_pos: i32) -> (r:
        Dist)
        requires
            BoundsHeuristic::in_range(*s, min_x_pos),
        ensures
            r as nat == self.spec_x_between(*s, min_x_pos as int),
            min_x_pos <= s.x_pos ==> r == 0,
    {
        if s.x_pos < min_x_pos {
            self.get_steps_until_x_pos_at_least(s, min_x_pos)
        } else {
            self.get_steps_until_x_pos_at_most(s, max_x_pos)
        }
    }

    pub fn get_steps_until_y_pos_at_least(&self, s: &State, target_y_pos: i32) -> (r: Dist)
        ensures
            r == 0,
    {
        0
    }

    pub fn get_steps_until_y_pos_at_most(&self, s: &State, target_y_pos: i32) -> (r: Dist)
        ensures
            r == 0,
    {
        0
    }

    pub fn get_steps_until_y_pos_between(&self, s: &State, min_y_pos: i32, max_y_pos: i32) -> (r:
        Dist)
        ensures
            r == 0,
    {
        0
    }

    /// Both bounds must hold at once, so the slower axis dominates: the
    /// result is the maximum of the two per-axis estimates.
    pub fn get_steps_until_bounds_at_least(&self, s: &State, target_x_pos: i32, target_y_pos: i32)
        -> (r: Dist)
        requires
            BoundsHeuristic::in_range(*s, target_x_pos),
        ensures
            r as nat == spec_max_dist(
                self.spec_x_at_least(*s, target_x_pos as int),
                self.spec_y_at_least(*s, target_y_pos as int),
            ),
            target_x_pos <= s.x_pos ==> r == 0,
    {
        let x = self.get_steps_until_x_pos_at_least(s, target_x_pos);
        let y = self.get_steps_until_y_pos_at_least(s, target_y_pos);
        if x >= y {
            x
        } else {
            y
        }
    }

    pub fn get_steps_until_bounds_at_most(&self, s: &State, target_x_pos: i32, target_y_pos: i32)
        -> (r: Dist)
        ensures
            r == 0,
    {
        let x = self.get_steps_until_x_pos_at_most(s, target_x_pos);
        let y = self.get_steps_until_y_pos_at_most(s, target_y_pos);
        if x >= y {
            x
        } else {
            y
        }
    }

    pub fn get_steps_until_bounds_between(
        &self,
        s: &State,
        min_x_pos: i32,
        max_x_pos: i32,
        min_y_pos: i32,
        max_y_pos: i32,
    ) -> (r: Dist)
        requires
            BoundsHeuristic::in_range(*s, min_x_pos),
        ensures
            r as nat == spec_max_dist(self.spec_x_between(*s, min_x_pos as int), 0),
            min_x_pos <= s.x_pos ==> r == 0,
    {
        let x = self.get_steps_until_x_pos_between(s, min_x_pos, max_x_pos);
        let y = self.get_steps_until_y_pos_between(s, min_y_pos, max_y_pos);
        if x >= y {
            x
        } else {
            y
        }
    }
}

/// The larger of two per-axis step estimates.
pub open spec fn spec_max_dist(a: nat, b: nat) -> nat {
    if a >= b {
        a
    } else {
        b
    }
}

/// The exact value of the speed bound: zero once the target speed is
/// reached, otherwise the ceiling of the speed gap over the largest
/// per-step gain, saturated at the largest representable distance.
pub open spec fn spec_min_x_speed_steps(p: Platform, x_spd: int, target: int) -> int {
    if x_spd >= target {
        0
    } else {
        let d = ((target - x_spd + 2 * p.spec_friction_run() - 1) / 2) / (p.spec_friction_run() as int);
        if d > 0xffff {
            0xffff
        } else {
            d
        }
    }
}

/// Steps needed at full acceleration to reach at least `target_x_spd`
/// horizontal speed.
pub fn min_x_speed_heuristic(p: Platform, s: &State, target_x_spd: i16) -> (r: Dist)
    ensures
        r as int == spec_min_x_speed_steps(p, s.x_spd as int, target_x_spd as int),
        s.x_spd >= target_x_spd ==> r == 0,
{
    if s.x_spd >= target_x_spd {
        0
    } else {
        let f: i32 = p.friction_run() as i32;
        let num: i32 = target_x_spd as i32 - s.x_spd as i32 + 2 * f - 1;
        let d: i32 = (num / 2) / f;
        if d > 0xffff {
            0xffff
        } else {
            d as u16
        }
    }
}

/// The full-acceleration position model: each step the speed gains twice
/// the running friction (capped at the running maximum) and the position
/// advances by the speed's whole pixels. The value is the least step
/// count, within `fuel` steps, at which the position reaches `target`.
pub open spec fn spec_min_x_pos_steps(
    p: Platform,
    x_pos: int,
    x_spd: int,
    target: int,
    fuel: nat,
) -> nat
    decreases fuel,
{
    if target <= x_pos || fuel == 0 {
        0
    } else {
        let ns = if x_spd + 2 * p.spec_friction_run() < p.spec_max_x_spd_run() as int {
            x_spd + 2 * p.spec_friction_run()
        } else {
            p.spec_max_x_spd_run() as int
        };
        1 + spec_min_x_pos_steps(p, x_pos + (ns / 256) * 16, ns, target, (fuel - 1) as nat)
    }
}

/// The model's count never exceeds its fuel.
pub proof fn lemma_min_x_pos_steps_le_fuel(
    p: Platform,
    x_pos: int,
    x_spd: int,
    target: int,
    fuel: nat,
)
    ensures
        spec_min_x_pos_steps(p, x_pos, x_spd, target, fuel) <= fuel,
    decreases fuel,
{
    if !(target <= x_pos || fuel == 0) {
        let ns = if x_spd + 2 * p.spec_friction_run() < p.spec_max_x_spd_run() as int {
            x_spd + 2 * p.spec_friction_run()
        } else {
            p.spec_max_x_spd_run() as int
        };
        lemma_min_x_pos_steps_le_fuel(p, x_pos + (ns / 256) * 16, ns, target, (fuel - 1) as nat);
    }
}

/// Floor division of a speed by the sub-pixel unit.
fn div_floor_i64(x: i64, d: i64) -> (r: i64)
    requires
        0 < d,
    ensures
        r as int == x as int / d as int,
{
    proof {
        assert(i64::MIN <= x as int / d as int <= i64::MAX) by (nonlinear_arith)
            requires
                i64::MIN <= x <= i64::MAX,
                0 < d,
        {
        }
    }
    match x.checked_div_euclid(d) {
        Option::Some(q) => q,
        Option::None => {
            proof {
                assert(false);
            }
            0
        },
    }
}

/// Steps needed to reach at least `target_x_pos`, assuming the player can
/// accelerate at the running rate every frame; an admissible lower bound
/// because no frame can gain position faster.
pub fn min_x_pos_heuristic(p: Platform, s: &State, target_x_pos: i32) -> (r: Dist)
    requires
        -0x10000000 < s.x_pos < 0x10000000,
        -0x10000000 < target_x_pos < 0x10000000,
    ensures
        r as nat == spec_min_x_pos_steps(
            p,
            s.x_pos as int,
            s.x_spd as int,
            target_x_pos as int,
            0xffff,
        ),
        target_x_pos <= s.x_pos ==> r == 0,
{
    let mut x_pos: i64 = s.x_pos as i64;
    let mut x_spd: i64 = s.x_spd as i64;
    let mut steps: u16 = 0;
    let f: i64 = p.friction_run() as i64;
    let max_run: i64 = p.max_x_spd_run() as i64;
    while target_x_pos as i64 > x_pos && steps < 0xffff
        invariant
            f == p.spec_friction_run(),
            max_run == p.spec_max_x_spd_run(),
            0 < f <= 0x1c0,
            0 < max_run <= 0x3000,
            -0x8000 <= x_spd <= 0x10000,
            -0x20000000 - 0x1100 * steps <= x_pos <= 0x20000000 + 0x1100 * steps,
            steps <= 0xffff,
            steps == 0 ==> x_pos == s.x_pos,
            steps > 0 ==> target_x_pos > s.x_pos,
            spec_min_x_pos_steps(p, s.x_pos as int, s.x_spd as int, target_x_pos as int, 0xffff)
                == steps + spec_min_x_pos_steps(
                p,
                x_pos as int,
                x_spd as int,
                target_x_pos as int,
                (0xffff - steps) as nat,
            ),
        decreases 0xffff - steps,
    {
        proof {
            lemma_min_x_pos_steps_le_fuel(
                p,
                x_pos as int,
                x_spd as int,
                target_x_pos as int,
                (0xffff - steps) as nat,
            );
        }
        steps = steps + 1;
        let cand: i64 = x_spd + 2 * f;
        x_spd = if cand < max_run {
            cand
        } else {
            max_run
        };
        let whole: i64 = div_floor_i64(x_spd, 256);
        x_pos = x_pos + whole * 16;
    }
    proof {
        if steps < 0xffff {
            assert(spec_min_x_pos_steps(
                p,
                x_pos as int,
                x_spd as int,
                target_x_pos as int,
                (0xffff - steps) as nat,
            ) == 0);
        } else {
            lemma_min_x_pos_steps_le_fuel(
                p,
                x_pos as int,
                x_spd as int,
                target_x_pos as int,
                0,
            );
        }
    }
    steps
}

} // verus!
