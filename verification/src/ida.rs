//! The iterative-deepening search driver: repeated depth-first passes with
//! a growing depth bound, duplicate-state pruning through the fingerprint
//! store, and admissible-heuristic pruning.
//!
//! The driver's contract: any `Found` answer is a real path. Its states
//! start at one of the given start states, every step follows the step
//! function with an ordinary result, and the last step satisfies the goal
//! predicate. Completeness additionally depends on the heuristic being
//! admissible, which is the scenario author's obligation (checked by
//! tests), so `NotFound` carries no promise.

use vstd::prelude::*;
use crate::emu::{Emu, EmuResult, Input, INPUT_A, INPUT_B, INPUT_DOWN, INPUT_LEFT, INPUT_RIGHT,
    INPUT_UP};
use crate::heuristics::SearchGoal;
use crate::options::SmbOptions;
use crate::state::{CompressedState, Dist, PlayerState, State};
use crate::store::{StateStore, MAX_STORE_SIZE};

verus! {

/// Yields the controller inputs worth trying from a state.
pub trait InputFetcher: Sized {
    /// The exact input list this enumerator yields from `s`.
    spec fn spec_inputs(&self, s: State) -> Seq<Input>;

    /// Never empty: a search can always try something.
    fn valid_next_inputs(&self, s: &State) -> (r: Vec<Input>)
        ensures
            r@ == self.spec_inputs(*s),
            r@.len() >= 1,
    ;
}

/// The segments of the scenario-aware enumeration, in the order tried.
/// Together they define `SmbInputFetcher`'s `spec_inputs`.
pub open spec fn seg_run(c: SmbOptions, s: State) -> Seq<Input> {
    if !c.swim.spec_is_swimming() && s.spec_is_on_ground() {
        seq![(INPUT_B | s.moving_dir.spec_bits()) as u8]
    } else {
        Seq::empty()
    }
}

pub open spec fn seg_turn(c: SmbOptions, s: State) -> Seq<Input> {
    if s.player_state is STANDING || c.swim.spec_is_swimming() {
        seq![(INPUT_LEFT | INPUT_RIGHT) as u8]
    } else {
        Seq::empty()
    }
}

pub open spec fn seg_crouch(c: SmbOptions, s: State) -> Seq<Input> {
    if c.player_size.spec_is_big(s) && s.spec_is_on_ground() {
        seq![INPUT_DOWN]
    } else {
        Seq::empty()
    }
}

pub open spec fn seg_down_moving(c: SmbOptions, s: State) -> Seq<Input> {
    if s.spec_is_on_ground() && s.x_spd_abs < c.platform.spec_x_spd_abs_cutoff(4) && (!(
    s.moving_dir is Empty) || !c.player_size.spec_is_big(s)) {
        seq![(INPUT_DOWN | s.moving_dir.spec_bits()) as u8]
    } else {
        Seq::empty()
    }
}

pub open spec fn seg_down_start(c: SmbOptions, s: State) -> Seq<Input> {
    if s.spec_is_on_ground() && s.x_spd_abs < c.platform.spec_x_spd_abs_cutoff(1) && ((
    s.moving_dir is Empty) || !c.player_size.spec_is_big(s)) {
        seq![
            (INPUT_DOWN | (if s.moving_dir is Empty {
                INPUT_RIGHT
            } else {
                0
            })) as u8,
        ]
    } else {
        Seq::empty()
    }
}

/// Whether a jump (or swim stroke) can start or be steered this frame.
pub open spec fn can_press_a(c: SmbOptions, s: State) -> bool {
    ||| s.spec_is_on_ground()
    ||| (c.swim.spec_is_swimming() && (s.jump_swim_timer != 0 || s.y_spd >= 0))
    ||| (s.player_state is JUMPING && s.v_force != s.v_force_down)
}

pub open spec fn seg_jump(c: SmbOptions, s: State) -> Seq<Input> {
    if can_press_a(c, s) {
        seq![INPUT_A, (INPUT_A | INPUT_RIGHT) as u8] + (if c.swim.spec_is_swimming() {
            seq![(INPUT_A | INPUT_LEFT | INPUT_RIGHT) as u8]
        } else {
            Seq::empty()
        }) + seq![(INPUT_A | INPUT_LEFT) as u8]
    } else {
        Seq::empty()
    }
}

pub open spec fn seg_jump_crouch(c: SmbOptions, s: State) -> Seq<Input> {
    if c.player_size.spec_is_big(s) && s.spec_is_on_ground() {
        seq![(INPUT_A | INPUT_DOWN) as u8]
    } else {
        Seq::empty()
    }
}

pub open spec fn seg_swim_down_moving(c: SmbOptions, s: State) -> Seq<Input> {
    if c.swim.spec_is_swimming() && s.spec_is_on_ground() && s.x_spd_abs
        < c.platform.spec_x_spd_abs_cutoff(4) && (!(s.moving_dir is Empty)
        || !c.player_size.spec_is_big(s)) {
        seq![(INPUT_A | INPUT_DOWN | s.moving_dir.spec_bits()) as u8]
    } else {
        Seq::empty()
    }
}

pub open spec fn seg_swim_down_start(c: SmbOptions, s: State) -> Seq<Input> {
    if c.swim.spec_is_swimming() && s.spec_is_on_ground() && s.x_spd_abs
        < c.platform.spec_x_spd_abs_cutoff(1) && ((s.moving_dir is Empty)
        || !c.player_size.spec_is_big(s)) {
        seq![
            (INPUT_A | INPUT_DOWN | (if s.moving_dir is Empty {
                INPUT_RIGHT
            } else {
                0
            })) as u8,
        ]
    } else {
        Seq::empty()
    }
}

pub open spec fn seg_up_still(c: SmbOptions, s: State) -> Seq<Input> {
    if (s.spec_is_on_ground() || c.swim.spec_is_swimming()) && s.x_spd_abs
        < c.platform.spec_x_spd_abs_cutoff(4) && s.moving_dir is Empty {
        seq![INPUT_UP]
    } else {
        Seq::empty()
    }
}

pub open spec fn seg_up_moving(c: SmbOptions, s: State) -> Seq<Input> {
    if (s.spec_is_on_ground() || c.swim.spec_is_swimming()) && s.x_spd_abs
        < c.platform.spec_x_spd_abs_cutoff(1) && !(s.moving_dir is Empty) {
        seq![INPUT_UP]
    } else {
        Seq::empty()
    }
}

/// Whether an upward swim stroke can start or be steered this frame.
pub open spec fn can_swim_up(c: SmbOptions, s: State) -> bool {
    c.swim.spec_is_swimming() && (s.spec_is_on_ground() || s.jump_swim_timer != 0 || s.y_spd >= 0
        || s.v_force != s.v_force_down)
}

pub open spec fn seg_swim_up_still(c: SmbOptions, s: State) -> Seq<Input> {
    if can_swim_up(c, s) && s.x_spd_abs < c.platform.spec_x_spd_abs_cutoff(4)
        && s.moving_dir is Empty {
        seq![(INPUT_A | INPUT_UP) as u8]
    } else {
        Seq::empty()
    }
}

pub open spec fn seg_swim_up_moving(c: SmbOptions, s: State) -> Seq<Input> {
    if can_swim_up(c, s) && s.x_spd_abs < c.platform.spec_x_spd_abs_cutoff(1) && !(
    s.moving_dir is Empty) {
        seq![(INPUT_A | INPUT_UP) as u8]
    } else {
        Seq::empty()
    }
}

/// The scenario-aware enumeration: in the ignored y ranges the single
/// empty input, otherwise the concatenation of the segments above.
pub open spec fn spec_smb_inputs(c: SmbOptions, s: State) -> Seq<Input> {
    if s.y_pos < 0x10000 || s.y_pos >= 0x1d000 {
        seq![0u8]
    } else {
        seg_run(c, s) + seq![INPUT_RIGHT] + seg_turn(c, s) + seq![0u8] + seq![INPUT_LEFT]
            + seg_crouch(c, s) + seg_down_moving(c, s) + seg_down_start(c, s) + seg_jump(c, s)
            + seg_jump_crouch(c, s) + seg_swim_down_moving(c, s) + seg_swim_down_start(c, s)
            + seg_up_still(c, s) + seg_up_moving(c, s) + seg_swim_up_still(c, s)
            + seg_swim_up_moving(c, s)
    }
}

/// Off screen the step function ignores inputs, so the single empty input
/// is the whole enumeration.
pub proof fn lemma_inputs_ignored_offscreen(c: SmbOptions, s: State)
    requires
        s.y_pos < 0x10000 || s.y_pos >= 0x1d000,
    ensures
        spec_smb_inputs(c, s) == seq![0u8],
{
}

/// The scenario-aware enumerator: skips inputs that provably make no
/// difference in the current discrete mode.
pub struct SmbInputFetcher {
    pub options: SmbOptions,
}

impl InputFetcher for SmbInputFetcher {
    open spec fn spec_inputs(&self, s: State) -> Seq<Input> {
        spec_smb_inputs(self.options, s)
    }

    #[verifier::rlimit(100)]
    #[verifier::spinoff_prover]
    fn valid_next_inputs(&self, s: &State) -> (r: Vec<Input>) {
        let ghost co = self.options;
        let c = &self.options;
        let p = c.platform;
        if s.y_pos < 0x10000 || s.y_pos >= 0x1d000 {
            let mut only: Vec<Input> = Vec::new();
            only.push(0);
            proof {
                assert(only@ =~= spec_smb_inputs(co, *s));
            }
            return only;
        }
        let swim = c.swim.is_swimming();
        let big = c.player_size.is_big(s);
        let md_bits: u8 = s.moving_dir.bits();
        let md_empty = s.moving_dir.is_empty();
        let mut inputs: Vec<Input> = Vec::new();
        if !swim && s.is_on_ground() {
            inputs.push(INPUT_B | md_bits);
        }
        proof {
            assert(inputs@ =~= seg_run(co, *s));
        }
        inputs.push(INPUT_RIGHT);
        let standing = match s.player_state {
            PlayerState::STANDING => true,
            _ => false,
        };
        if standing || swim {
            inputs.push(INPUT_LEFT | INPUT_RIGHT);
        }
        proof {
            assert(inputs@ =~= seg_run(co, *s) + seq![INPUT_RIGHT] + seg_turn(co, *s));
        }
        inputs.push(0);
        inputs.push(INPUT_LEFT);
        if big && s.is_on_ground() {
            inputs.push(INPUT_DOWN);
        }
        proof {
            assert(inputs@ =~= seg_run(co, *s) + seq![INPUT_RIGHT] + seg_turn(co, *s) + seq![0u8]
                + seq![INPUT_LEFT] + seg_crouch(co, *s));
        }
        if s.is_on_ground() && s.x_spd_abs < p.x_spd_abs_cutoff(4) && (!md_empty || !big) {
            inputs.push(INPUT_DOWN | md_bits);
        }
        if s.is_on_ground() && s.x_spd_abs < p.x_spd_abs_cutoff(1) && (md_empty || !big) {
            inputs.push(INPUT_DOWN | (if md_empty { INPUT_RIGHT } else { 0 }));
        }
        proof {
            assert(inputs@ =~= seg_run(co, *s) + seq![INPUT_RIGHT] + seg_turn(co, *s) + seq![0u8]
                + seq![INPUT_LEFT] + seg_crouch(co, *s) + seg_down_moving(co, *s)
                + seg_down_start(co, *s));
        }
        let jumping = match s.player_state {
            PlayerState::JUMPING => true,
            _ => false,
        };
        if s.is_on_ground() || (swim && (s.jump_swim_timer != 0 || s.y_spd >= 0)) || (jumping
            && s.v_force != s.v_force_down) {
            inputs.push(INPUT_A);
            inputs.push(INPUT_A | INPUT_RIGHT);
            if swim {
                inputs.push(INPUT_A | INPUT_LEFT | INPUT_RIGHT);
            }
            inputs.push(INPUT_A | INPUT_LEFT);
        }
        proof {
            assert(inputs@ =~= seg_run(co, *s) + seq![INPUT_RIGHT] + seg_turn(co, *s) + seq![0u8]
                + seq![INPUT_LEFT] + seg_crouch(co, *s) + seg_down_moving(co, *s)
                + seg_down_start(co, *s) + seg_jump(co, *s));
        }
        if big && s.is_on_ground() {
            inputs.push(INPUT_A | INPUT_DOWN);
        }
        if swim && s.is_on_ground() && s.x_spd_abs < p.x_spd_abs_cutoff(4) && (!md_empty || !big) {
            inputs.push(INPUT_A | INPUT_DOWN | md_bits);
        }
        if swim && s.is_on_ground() && s.x_spd_abs < p.x_spd_abs_cutoff(1) && (md_empty || !big) {
            inputs.push(INPUT_A | INPUT_DOWN | (if md_empty { INPUT_RIGHT } else { 0 }));
        }
        proof {
            assert(inputs@ =~= seg_run(co, *s) + seq![INPUT_RIGHT] + seg_turn(co, *s) + seq![0u8]
                + seq![INPUT_LEFT] + seg_crouch(co, *s) + seg_down_moving(co, *s)
                + seg_down_start(co, *s) + seg_jump(co, *s) + seg_jump_crouch(co, *s)
                + seg_swim_down_moving(co, *s) + seg_swim_down_start(co, *s));
        }
        if (s.is_on_ground() || swim) && s.x_spd_abs < p.x_spd_abs_cutoff(4) && md_empty {
            inputs.push(INPUT_UP);
        }
        if (s.is_on_ground() || swim) && s.x_spd_abs < p.x_spd_abs_cutoff(1) && !md_empty {
            inputs.push(INPUT_UP);
        }
        if swim && (s.is_on_ground() || s.jump_swim_timer != 0 || s.y_spd >= 0 || s.v_force
            != s.v_force_down) && s.x_spd_abs < p.x_spd_abs_cutoff(4) && md_empty {
            inputs.push(INPUT_A | INPUT_UP);
        }
        if swim && (s.is_on_ground() || s.jump_swim_timer != 0 || s.y_spd >= 0 || s.v_force
            != s.v_force_down) && s.x_spd_abs < p.x_spd_abs_cutoff(1) && !md_empty {
            inputs.push(INPUT_A | INPUT_UP);
        }
        proof {
            assert(inputs@ =~= spec_smb_inputs(co, *s));
        }
        inputs
    }
}

/// The exhaustive enumerator: all 256 controller masks.
pub struct AllInputs {
}

impl InputFetcher for AllInputs {
    /// Every controller mask once, in ascending order, whatever the state.
    open spec fn spec_inputs(&self, s: State) -> Seq<Input> {
        Seq::new(256, |i: int| i as u8)
    }

    fn valid_next_inputs(&self, s: &State) -> (r: Vec<Input>) {
        let mut inputs: Vec<Input> = Vec::new();
        let mut i: usize = 0;
        while i < 256
            invariant
                i <= 256,
                inputs@ == Seq::new(i as nat, |j: int| j as u8),
            decreases 256 - i,
        {
            inputs.push(i as u8);
            proof {
                assert(inputs@ =~= Seq::new((i + 1) as nat, |j: int| j as u8));
            }
            i = i + 1;
        }
        proof {
            assert(inputs@ =~= Seq::new(256, |j: int| j as u8));
        }
        inputs
    }
}

/// The outcome of a search: a path (start to goal, with the inputs that
/// produce it), or exhaustion.
pub enum SearchResult {
    NotFound,
    Found(Vec<State>, Vec<Input>),
}

/// What a `Found` answer means: `states` and `inputs` describe a real run
/// of the step function from `states[0]`, all intermediate results are
/// ordinary, and the final step reaches the goal.
pub open spec fn valid_path<E: Emu, G: SearchGoal>(
    emu: E,
    goal: G,
    states: Seq<State>,
    inputs: Seq<Input>,
) -> bool {
    &&& states.len() == inputs.len() + 1
    &&& inputs.len() >= 1
    &&& forall|i: int|
        0 <= i < inputs.len() ==> (#[trigger] emu.spec_step(states[i], inputs[i])).0 == states[i
            + 1]
    &&& forall|i: int|
        0 <= i < inputs.len() - 1 ==> (#[trigger] emu.spec_step(states[i], inputs[i])).1 is Success
    &&& goal.spec_goal(
        states[states.len() - 1],
        emu.spec_step(states[inputs.len() - 1], inputs[inputs.len() - 1]).1,
    )
}

/// The search driver: one visited-state store, one goal object, one step
/// function and one input enumerator.
pub struct IDA<S: StateStore, E: Emu, G: SearchGoal, I: InputFetcher> {
    pub visited_states: S,
    pub search_goal: G,
    pub emu: E,
    pub input_fetcher: I,
    pub options: SmbOptions,
    pub num_visits: u64,
}

impl<S: StateStore, E: Emu, G: SearchGoal, I: InputFetcher> IDA<S, E, G, I> {
    pub open spec fn inv(self) -> bool {
        self.visited_states.store_inv() && self.options.wf()
    }

    pub fn new(
        search_space_size_hint: usize,
        options: SmbOptions,
        emu: E,
        search_goal: G,
        input_fetcher: I,
    ) -> (r: IDA<S, E, G, I>)
        requires
            search_space_size_hint <= MAX_STORE_SIZE,
            options.wf(),
        ensures
            r.inv(),
            r.emu == emu,
            r.search_goal == search_goal,
    {
        IDA {
            visited_states: S::new_store(search_space_size_hint),
            search_goal,
            emu,
            input_fetcher,
            options,
            num_visits: 0,
        }
    }

    /// One depth-bounded depth-first visit. A `Found` answer is a valid
    /// path that starts at `s` and is no longer than the remaining bound.
    #[verifier::rlimit(100)]
    #[verifier::spinoff_prover]
    pub fn find_first_solution_rec(
        &mut self,
        s: State,
        steps_already_taken: Dist,
        max_allowed_steps: Dist,
    ) -> (r: SearchResult)
        requires
            old(self).inv(),
        ensures
            final(self).inv(),
            final(self).emu == old(self).emu,
            forall|s2: State, r2: EmuResult| final(self).search_goal.spec_goal(s2, r2) == old(
                self,
            ).search_goal.spec_goal(s2, r2),
            match r {
                SearchResult::NotFound => true,
                SearchResult::Found(states, inputs) => {
                    &&& valid_path(
                        final(self).emu,
                        final(self).search_goal,
                        states@,
                        inputs@,
                    )
                    &&& states@[0] == s
                },
            },
        decreases max_allowed_steps - steps_already_taken,
    {
        let h: Dist = match self.search_goal.distance_to_goal_heuristic(
            &s,
            steps_already_taken,
        ) {
            Option::Some(d) => d,
            Option::None => {
                return SearchResult::NotFound;
            },
        };
        self.search_goal.track_metric(&s);
        if steps_already_taken >= max_allowed_steps {
            return SearchResult::NotFound;
        }
        if steps_already_taken as u64 + h as u64 > max_allowed_steps as u64 {
            return SearchResult::NotFound;
        }
        if s.y_pos >= 0x1d000 {
            return SearchResult::NotFound;
        }
        // Safety bounds: states the codec or the step function cannot
        // take are abandoned, like any other hard bound violation.
        if !self.emu.step_ok(&s) {
            return SearchResult::NotFound;
        }
        if !s.fits(&self.options) {
            return SearchResult::NotFound;
        }
        if self.visited_states.store_len() >= MAX_STORE_SIZE {
            return SearchResult::NotFound;
        }
        let key = CompressedState::from_state(&s, &self.options);
        if !self.visited_states.check_and_update_dist(key, steps_already_taken) {
            return SearchResult::NotFound;
        }
        if self.num_visits < 0xffff_ffff_ffff_ffff {
            self.num_visits = self.num_visits + 1;
        }
        let inputs = self.input_fetcher.valid_next_inputs(&s);
        let n: usize = inputs.len();
        let mut idx: usize = 0;
        while idx < n
            invariant
                idx <= n,
                n == inputs@.len(),
                self.inv(),
                self.emu == old(self).emu,
                forall|s2: State, r2: EmuResult| self.search_goal.spec_goal(s2, r2) == old(
                    self,
                ).search_goal.spec_goal(s2, r2),
                self.emu.spec_step_req(s),
                steps_already_taken < max_allowed_steps,
            decreases n - idx,
        {
            let input: Input = inputs[idx];
            let (new_state, emu_result) = self.emu.run_step(s, input);
            if self.search_goal.is_goal_state(&new_state, &emu_result) {
                let mut states: Vec<State> = Vec::new();
                states.push(s);
                states.push(new_state);
                let mut inputs_v: Vec<Input> = Vec::new();
                inputs_v.push(input);
                proof {
                    assert(valid_path(self.emu, self.search_goal, states@, inputs_v@));
                }
                return SearchResult::Found(states, inputs_v);
            }
            let is_success = match emu_result {
                EmuResult::Success => true,
                _ => false,
            };
            if is_success {
                match self.find_first_solution_rec(
                    new_state,
                    steps_already_taken + 1,
                    max_allowed_steps,
                ) {
                    SearchResult::Found(mut states, mut inputs_v) => {
                        let ghost old_states = states@;
                        let ghost old_inputs = inputs_v@;
                        states.insert(0, s);
                        inputs_v.insert(0, input);
                        proof {
                            assert(states@ =~= seq![s] + old_states);
                            assert(inputs_v@ =~= seq![input] + old_inputs);
                            lemma_valid_path_prepend(
                                self.emu,
                                self.search_goal,
                                old_states,
                                old_inputs,
                                s,
                                input,
                            );
                        }
                        return SearchResult::Found(states, inputs_v);
                    },
                    SearchResult::NotFound => {},
                }
            }
            idx = idx + 1;
        }
        SearchResult::NotFound
    }

    /// The iterative-deepening outer loop: one pass per bound, relaxing
    /// every recorded distance between passes, until a pass finds a path
    /// or the bound cannot grow any further.
    pub fn find_first_solution(
        &mut self,
        start_states: &Vec<State>,
        initial_max_allowed_steps: Dist,
    ) -> (r: SearchResult)
        requires
            old(self).inv(),
        ensures
            final(self).inv(),
            match r {
                SearchResult::NotFound => true,
                SearchResult::Found(states, inputs) => {
                    &&& valid_path(
                        final(self).emu,
                        final(self).search_goal,
                        states@,
                        inputs@,
                    )
                    &&& exists|j: int|
                        0 <= j < start_states@.len() && states@[0] == start_states@[j]
                },
            },
    {
        // Raise the initial bound to the smallest heuristic estimate.
        let mut bound: Dist = initial_max_allowed_steps;
        let mut best: Dist = 0xffff;
        let mut have: bool = false;
        let mut i: usize = 0;
        let n0: usize = start_states.len();
        while i < n0
            invariant
                i <= n0,
                n0 == start_states@.len(),
                self.inv(),
                self.emu == old(self).emu,
                forall|s2: State, r2: EmuResult| self.search_goal.spec_goal(s2, r2) == old(
                    self,
                ).search_goal.spec_goal(s2, r2),
            decreases n0 - i,
        {
            match self.search_goal.distance_to_goal_heuristic(&start_states[i], 0) {
                Option::Some(d) => {
                    if !have || d < best {
                        best = d;
                        have = true;
                    }
                },
                Option::None => {},
            }
            i = i + 1;
        }
        if have && best > bound {
            bound = best;
        }

        loop
            invariant
                self.inv(),
                self.emu == old(self).emu,
                forall|s2: State, r2: EmuResult| self.search_goal.spec_goal(s2, r2) == old(
                    self,
                ).search_goal.spec_goal(s2, r2),
            decreases 0xffff - bound,
        {
            let mut j: usize = 0;
            let n: usize = start_states.len();
            while j < n
                invariant
                    j <= n,
                    n == start_states@.len(),
                    self.inv(),
                    self.emu == old(self).emu,
                    forall|s2: State, r2: EmuResult| self.search_goal.spec_goal(s2, r2) == old(
                        self,
                    ).search_goal.spec_goal(s2, r2),
                decreases n - j,
            {
                let s0: State = *vstd::slice::slice_index_get(start_states.as_slice(), j);
                match self.find_first_solution_rec(s0, 0, bound) {
                    SearchResult::Found(states, inputs_v) => {
                        proof {
                            assert(states@[0] == start_states@[j as int]);
                        }
                        return SearchResult::Found(states, inputs_v);
                    },
                    SearchResult::NotFound => {},
                }
                j = j + 1;
            }
            self.search_goal.report_metrics();
            if bound >= 0xffff {
                return SearchResult::NotFound;
            }
            bound = bound + 1;
            self.visited_states.increment_all_dists();
        }
    }
}

/// Extending a valid path by one leading ordinary step keeps it valid.
proof fn lemma_valid_path_prepend<E: Emu, G: SearchGoal>(
    emu: E,
    goal: G,
    states: Seq<State>,
    inputs: Seq<Input>,
    s: State,
    input: Input,
)
    requires
        valid_path(emu, goal, states, inputs),
        emu.spec_step(s, input).0 == states[0],
        emu.spec_step(s, input).1 is Success,
    ensures
        valid_path(emu, goal, seq![s] + states, seq![input] + inputs),
{
    let ns = seq![s] + states;
    let ni = seq![input] + inputs;
    assert forall|i: int| 0 <= i < ni.len() implies (#[trigger] emu.spec_step(ns[i], ni[i])).0
        == ns[i + 1] by {
        if i > 0 {
            assert(emu.spec_step(states[i - 1], inputs[i - 1]).0 == states[i]);
        }
    }
    assert forall|i: int| 0 <= i < ni.len() - 1 implies (#[trigger] emu.spec_step(
        ns[i],
        ni[i],
    )).1 is Success by {
        if i > 0 {
            assert(emu.spec_step(states[i - 1], inputs[i - 1]).1 is Success);
        }
    }
    assert(ns[ns.len() - 1] == states[states.len() - 1]);
    assert(emu.spec_step(ns[ni.len() - 1], ni[ni.len() - 1]) == emu.spec_step(
        states[inputs.len() - 1],
        inputs[inputs.len() - 1],
    ));
}

} // verus!
