//! Scenarios in the first overworld stage and its underground bonus area.

use vstd::prelude::*;
use crate::blockbuffer::NoCollisions;
use crate::emu::Emu;
use crate::case::SmbSearchCase;
use crate::emu::EmuResult;
use crate::heuristics::{SearchGoal, lemma_min_x_pos_steps_le_fuel, min_x_pos_heuristic, spec_min_x_pos_steps};
use crate::options::{CoinHandler, Parity, Platform, PlayerSize, PowerupHandler, RunningTimer,
    ScrollPos, SmbOptions, Swim, VerticalPipeHandler, YPosFractionalBehavior};
use crate::state::{Dir, Dist, PlayerState, State};

verus! {

/// The stage's standing start: on the ground at the left edge.
pub fn w11_start(plat: Platform) -> (r: State)
    ensures
        r == (State {
            x_pos: 0x2800,
            y_pos: 0x1b000,
            x_spd: 0,
            y_spd: 0,
            player_state: PlayerState::STANDING,
            moving_dir: Dir::Empty,
            facing_dir: Dir::Right,
            v_force: plat.spec_v_force_area_init(),
            v_force_down: plat.spec_v_force_area_init(),
            x_spd_abs: 0,
            running_speed: false,
            collision_bits: Dir::Lr,
            is_crouching: false,
            jump_swim_timer: 0,
            running_timer: 0,
            left_screen_edge_pos: 0,
            side_collision_timer: 0,
            collected_coins: 0,
            powerup_block_hit: false,
            powerup_collected: false,
            parity: 0,
        }),
{
    State {
        x_pos: 0x2800,
        y_pos: 0x1b000,
        x_spd: 0,
        y_spd: 0,
        player_state: PlayerState::STANDING,
        moving_dir: Dir::Empty,
        facing_dir: Dir::Right,
        v_force: plat.v_force_area_init(),
        v_force_down: plat.v_force_area_init(),
        x_spd_abs: 0,
        running_speed: false,
        collision_bits: Dir::Lr,
        is_crouching: false,
        jump_swim_timer: 0,
        running_timer: 0,
        left_screen_edge_pos: 0,
        side_collision_timer: 0,
        collected_coins: 0,
        powerup_block_hit: false,
        powerup_collected: false,
        parity: 0,
    }
}

/// The bonus area's falling entry point.
pub fn w11_sub_start(plat: Platform) -> (r: State)
    ensures
        r.x_pos == 0x1800,
        r.y_pos == 0x12000,
        r.player_state is FALLING,
{
    State {
        player_state: PlayerState::FALLING,
        x_pos: 0x1800,
        y_pos: 0x12000,
        ..w11_start(plat)
    }
}

/// The start after the stage's pipe exit.
pub fn w11_pipe_start(plat: Platform) -> (r: State)
    ensures
        r.x_pos == 0xa3800,
        r.y_pos == 0x19000,
        r.player_state is STANDING,
{
    State { x_pos: 0xa3800, y_pos: 0x19000, ..w11_start(plat) }
}

/// The baseline scenario configuration: small player, no water, nothing
/// optional tracked.
pub fn w11_options() -> (r: SmbOptions)
    ensures
        r.wf(),
        r.platform is NTSC,
{
    SmbOptions {
        platform: Platform::NTSC,
        player_size: PlayerSize::Small,
        swim: Swim::NotSwimming,
        running_timer: RunningTimer::NoRunningTimer,
        y_pos_fractional_behavior: YPosFractionalBehavior::KeepYPosFractionals,
        scroll_pos: ScrollPos::NoScrollPos,
        parity: Parity::NoParity,
        coin_handler: CoinHandler::IgnoreCoins,
        powerup_handler: PowerupHandler::NoPowerups,
        vertical_pipe_handler: VerticalPipeHandler::IgnoreVerticalPipes,
    }
}

/// Initial speed-up: reach the speed-run checkpoint position.
pub struct W11Speedup {
    pub platform: Platform,
}

impl SearchGoal for W11Speedup {
    open spec fn spec_goal(&self, s: State, r: EmuResult) -> bool {
        s.x_pos >= 0x9190
    }

    open spec fn spec_estimate(&self, s: State, steps_already_taken: Dist) -> Option<Dist> {
        if s.x_pos >= 0x10000000 || s.x_pos <= -0x10000000 {
            Option::Some(0u16)
        } else {
            Option::Some(
                spec_min_x_pos_steps(
                    self.platform,
                    s.x_pos as int,
                    s.x_spd as int,
                    0x9190int,
                    0xffff,
                ) as u16,
            )
        }
    }

    fn distance_to_goal_heuristic(&self, s: &State, steps_already_taken: Dist) -> (r: Option<
        Dist,
    >) {
        if s.x_pos >= 0x10000000 || s.x_pos <= -0x10000000 {
            return Option::Some(0);
        }
        proof {
            lemma_min_x_pos_steps_le_fuel(
                self.platform,
                s.x_pos as int,
                s.x_spd as int,
                0x9190int,
                0xffff,
            );
        }
        Option::Some(min_x_pos_heuristic(self.platform, s, 0x9190))
    }

    fn is_goal_state(&self, s: &State, emu_result: &EmuResult) -> (r: bool) {
        s.x_pos >= 0x9190
    }
}

impl SmbSearchCase for W11Speedup {
    type CaseGoal = W11Speedup;

    type CaseBuffer = NoCollisions;

    fn options() -> (r: SmbOptions) {
        w11_options()
    }

    fn block_buffer() -> NoCollisions {
        NoCollisions::Nothing
    }

    fn search_goal() -> W11Speedup {
        W11Speedup { platform: Platform::NTSC }
    }

    fn start_states() -> Vec<State> {
        let mut v: Vec<State> = Vec::new();
        v.push(w11_start(Platform::NTSC));
        v
    }

    fn search_space_size_hint() -> (r: usize) {
        59
    }
}

/// Reach the enterable vertical pipe at its block position.
pub struct W11VertPipeEntry {
    pub platform: Platform,
}

impl SearchGoal for W11VertPipeEntry {
    open spec fn spec_goal(&self, s: State, r: EmuResult) -> bool {
        r matches EmuResult::StateChangeVerticalPipe(cx, cy) && cx == 0x39 && cy == 7
    }

    open spec fn spec_estimate(&self, s: State, steps_already_taken: Dist) -> Option<Dist> {
        if s.x_pos >= 0x10000000 || s.x_pos <= -0x10000000 {
            Option::Some(0u16)
        } else {
            Option::Some(
                spec_min_x_pos_steps(
                    self.platform,
                    s.x_pos as int,
                    s.x_spd as int,
                    0x39400int,
                    0xffff,
                ) as u16,
            )
        }
    }

    fn distance_to_goal_heuristic(&self, s: &State, steps_already_taken: Dist) -> (r: Option<
        Dist,
    >) {
        if s.x_pos >= 0x10000000 || s.x_pos <= -0x10000000 {
            return Option::Some(0);
        }
        proof {
            lemma_min_x_pos_steps_le_fuel(
                self.platform,
                s.x_pos as int,
                s.x_spd as int,
                0x39400int,
                0xffff,
            );
        }
        Option::Some(min_x_pos_heuristic(self.platform, s, 0x39400))
    }

    fn is_goal_state(&self, s: &State, emu_result: &EmuResult) -> (r: bool) {
        match emu_result {
            EmuResult::StateChangeVerticalPipe(cx, cy) => *cx == 0x39 && *cy == 7,
            _ => false,
        }
    }
}

impl SmbSearchCase for W11VertPipeEntry {
    type CaseGoal = W11VertPipeEntry;

    type CaseBuffer = NoCollisions;

    fn options() -> (r: SmbOptions) {
        SmbOptions {
            vertical_pipe_handler: VerticalPipeHandler::EnterVerticalPipe {
                pipe_x: 0x39,
                pipe_y: 7,
            },
            ..w11_options()
        }
    }

    fn block_buffer() -> NoCollisions {
        NoCollisions::Nothing
    }

    fn search_goal() -> W11VertPipeEntry {
        W11VertPipeEntry { platform: Platform::NTSC }
    }

    fn start_states() -> Vec<State> {
        let mut v: Vec<State> = Vec::new();
        v.push(w11_start(Platform::NTSC));
        v
    }

    fn search_space_size_hint() -> (r: usize) {
        283205
    }
}

/// Initial speed-up inside the bonus area.
pub struct W11SubSpeedup {
    pub platform: Platform,
}

impl SearchGoal for W11SubSpeedup {
    open spec fn spec_goal(&self, s: State, r: EmuResult) -> bool {
        s.x_pos >= 0x91e0
    }

    open spec fn spec_estimate(&self, s: State, steps_already_taken: Dist) -> Option<Dist> {
        if s.x_pos >= 0x10000000 || s.x_pos <= -0x10000000 {
            Option::Some(0u16)
        } else {
            Option::Some(
                spec_min_x_pos_steps(
                    self.platform,
                    s.x_pos as int,
                    s.x_spd as int,
                    0x91e0int,
                    0xffff,
                ) as u16,
            )
        }
    }

    fn distance_to_goal_heuristic(&self, s: &State, steps_already_taken: Dist) -> (r: Option<
        Dist,
    >) {
        if s.x_pos >= 0x10000000 || s.x_pos <= -0x10000000 {
            return Option::Some(0);
        }
        proof {
            lemma_min_x_pos_steps_le_fuel(
                self.platform,
                s.x_pos as int,
                s.x_spd as int,
                0x91e0int,
                0xffff,
            );
        }
        Option::Some(min_x_pos_heuristic(self.platform, s, 0x91e0))
    }

    fn is_goal_state(&self, s: &State, emu_result: &EmuResult) -> (r: bool) {
        s.x_pos >= 0x91e0
    }
}

impl SmbSearchCase for W11SubSpeedup {
    type CaseGoal = W11SubSpeedup;

    type CaseBuffer = NoCollisions;

    fn options() -> (r: SmbOptions) {
        w11_options()
    }

    fn block_buffer() -> NoCollisions {
        NoCollisions::Nothing
    }

    fn search_goal() -> W11SubSpeedup {
        W11SubSpeedup { platform: Platform::NTSC }
    }

    fn start_states() -> Vec<State> {
        let mut v: Vec<State> = Vec::new();
        v.push(w11_sub_start(Platform::NTSC));
        v
    }
}

/// Collect the bonus room's coins, then leave through the side pipe.
pub struct W11SubSidePipeEntry {
    pub platform: Platform,
}

/// The bonus room's nineteen coin cells.
pub fn w11_sub_coins() -> (r: Vec<(usize, usize)>)
    ensures
        r@.len() == 19,
{
    let mut v: Vec<(usize, usize)> = Vec::new();
    v.push((5, 3));
    v.push((6, 3));
    v.push((7, 3));
    v.push((8, 3));
    v.push((9, 3));
    v.push((4, 5));
    v.push((5, 5));
    v.push((6, 5));
    v.push((7, 5));
    v.push((8, 5));
    v.push((9, 5));
    v.push((10, 5));
    v.push((4, 7));
    v.push((5, 7));
    v.push((6, 7));
    v.push((7, 7));
    v.push((8, 7));
    v.push((9, 7));
    v.push((10, 7));
    v
}

impl SearchGoal for W11SubSidePipeEntry {
    open spec fn spec_goal(&self, s: State, r: EmuResult) -> bool {
        r matches EmuResult::StateChangeSidePipe(cx, cy) && cx == 13 && cy == 10
    }

    open spec fn spec_estimate(&self, s: State, steps_already_taken: Dist) -> Option<Dist> {
        if s.x_pos >= 0x10000000 || s.x_pos <= -0x10000000 {
            Option::Some(0u16)
        } else {
            Option::Some(
                spec_min_x_pos_steps(
                    self.platform,
                    s.x_pos as int,
                    s.x_spd as int,
                    0xc300int,
                    0xffff,
                ) as u16,
            )
        }
    }

    fn distance_to_goal_heuristic(&self, s: &State, steps_already_taken: Dist) -> (r: Option<
        Dist,
    >) {
        if s.x_pos >= 0x10000000 || s.x_pos <= -0x10000000 {
            return Option::Some(0);
        }
        proof {
            lemma_min_x_pos_steps_le_fuel(
                self.platform,
                s.x_pos as int,
                s.x_spd as int,
                0xc300int,
                0xffff,
            );
        }
        Option::Some(min_x_pos_heuristic(self.platform, s, 0xc300))
    }

    fn is_goal_state(&self, s: &State, emu_result: &EmuResult) -> (r: bool) {
        match emu_result {
            EmuResult::StateChangeSidePipe(cx, cy) => *cx == 13 && *cy == 10,
            _ => false,
        }
    }
}

impl SmbSearchCase for W11SubSidePipeEntry {
    type CaseGoal = W11SubSidePipeEntry;

    type CaseBuffer = NoCollisions;

    fn options() -> (r: SmbOptions) {
        let r = SmbOptions { coin_handler: CoinHandler::CoinList(w11_sub_coins()), ..w11_options() };
        r
    }

    fn block_buffer() -> NoCollisions {
        NoCollisions::Nothing
    }

    fn search_goal() -> W11SubSidePipeEntry {
        W11SubSidePipeEntry { platform: Platform::NTSC }
    }

    fn start_states() -> Vec<State> {
        let mut v: Vec<State> = Vec::new();
        v.push(w11_sub_start(Platform::NTSC));
        v
    }

    fn initial_search_distance() -> Dist {
        111
    }
}

/// Initial speed-up after the pipe exit.
pub struct W11PipeSpeedup {
    pub platform: Platform,
}

impl SearchGoal for W11PipeSpeedup {
    open spec fn spec_goal(&self, s: State, r: EmuResult) -> bool {
        s.x_pos >= 0xbc110
    }

    open spec fn spec_estimate(&self, s: State, steps_already_taken: Dist) -> Option<Dist> {
        if s.x_pos >= 0x10000000 || s.x_pos <= -0x10000000 {
            Option::Some(0u16)
        } else {
            Option::Some(
                spec_min_x_pos_steps(
                    self.platform,
                    s.x_pos as int,
                    s.x_spd as int,
                    0xbc110int,
                    0xffff,
                ) as u16,
            )
        }
    }

    fn distance_to_goal_heuristic(&self, s: &State, steps_already_taken: Dist) -> (r: Option<
        Dist,
    >) {
        if s.x_pos >= 0x10000000 || s.x_pos <= -0x10000000 {
            return Option::Some(0);
        }
        proof {
            lemma_min_x_pos_steps_le_fuel(
                self.platform,
                s.x_pos as int,
                s.x_spd as int,
                0xbc110int,
                0xffff,
            );
        }
        Option::Some(min_x_pos_heuristic(self.platform, s, 0xbc110))
    }

    fn is_goal_state(&self, s: &State, emu_result: &EmuResult) -> (r: bool) {
        s.x_pos >= 0xbc110
    }
}

impl SmbSearchCase for W11PipeSpeedup {
    type CaseGoal = W11PipeSpeedup;

    type CaseBuffer = NoCollisions;

    fn options() -> (r: SmbOptions) {
        w11_options()
    }

    fn block_buffer() -> NoCollisions {
        NoCollisions::Nothing
    }

    fn search_goal() -> W11PipeSpeedup {
        W11PipeSpeedup { platform: Platform::NTSC }
    }

    fn start_states() -> Vec<State> {
        let mut v: Vec<State> = Vec::new();
        v.push(w11_pipe_start(Platform::NTSC));
        v
    }

    fn search_space_size_hint() -> (r: usize) {
        266
    }
}

/// Grab the flag pole low enough for the half-height glitch.
pub struct W11Flag {
    pub platform: Platform,
}

impl SearchGoal for W11Flag {
    open spec fn spec_goal(&self, s: State, r: EmuResult) -> bool {
        &&& r matches EmuResult::StateChangeFlag(cx, cy)
        &&& cx == 0xc6
        &&& cy == 9
        &&& s.y_pos >= 0x1a200
        &&& s.x_pos >= 0
        &&& s.x_pos as int / 16 % 16 >= 7
    }

    open spec fn spec_estimate(&self, s: State, steps_already_taken: Dist) -> Option<Dist> {
        if s.x_pos >= 0x10000000 || s.x_pos <= -0x10000000 {
            Option::Some(0u16)
        } else {
            Option::Some(
                spec_min_x_pos_steps(
                    self.platform,
                    s.x_pos as int,
                    s.x_spd as int,
                    0xc5600int,
                    0xffff,
                ) as u16,
            )
        }
    }

    fn distance_to_goal_heuristic(&self, s: &State, steps_already_taken: Dist) -> (r: Option<
        Dist,
    >) {
        if s.x_pos >= 0x10000000 || s.x_pos <= -0x10000000 {
            return Option::Some(0);
        }
        proof {
            lemma_min_x_pos_steps_le_fuel(
                self.platform,
                s.x_pos as int,
                s.x_spd as int,
                0xc5600int,
                0xffff,
            );
        }
        Option::Some(min_x_pos_heuristic(self.platform, s, 0xc5600))
    }

    fn is_goal_state(&self, s: &State, emu_result: &EmuResult) -> (r: bool) {
        match emu_result {
            EmuResult::StateChangeFlag(cx, cy) => {
                if *cx == 0xc6 && *cy == 9 && s.y_pos >= 0x1a200 && s.x_pos >= 0 {
                    let nib: i32 = (s.x_pos / 16) % 16;
                    nib >= 7
                } else {
                    false
                }
            },
            _ => false,
        }
    }
}

impl SmbSearchCase for W11Flag {
    type CaseGoal = W11Flag;

    type CaseBuffer = NoCollisions;

    fn options() -> (r: SmbOptions) {
        w11_options()
    }

    fn block_buffer() -> NoCollisions {
        NoCollisions::Nothing
    }

    fn search_goal() -> W11Flag {
        W11Flag { platform: Platform::NTSC }
    }

    fn start_states() -> Vec<State> {
        let s = State {
            x_pos: 0xbd510,
            y_pos: 0x13038,
            x_spd: 0x2848,
            y_spd: 0,
            player_state: PlayerState::STANDING,
            moving_dir: Dir::Right,
            facing_dir: Dir::Right,
            v_force: Platform::NTSC.v_force_fall_running(),
            v_force_down: Platform::NTSC.v_force_fall_running(),
            x_spd_abs: 0x21,
            running_speed: true,
            collision_bits: Dir::Lr,
            is_crouching: false,
            jump_swim_timer: 10,
            running_timer: 10,
            left_screen_edge_pos: 0x65,
            side_collision_timer: 0,
            collected_coins: 0,
            powerup_block_hit: false,
            powerup_collected: false,
            parity: 0,
        };
        let mut v: Vec<State> = Vec::new();
        v.push(s);
        v
    }
}

/// A fixed-script emulator exercise for this stage's configuration.
pub enum EmulatorTesting {
    Scenario,
}

impl EmulatorTesting {
    /// Steps the stage's start state through an input script, stopping at
    /// the first frame the step function refuses or ends specially.
    pub fn run(inputs: &Vec<u8>) -> (r: State) {
        let c = w11_options();
        let b = NoCollisions::Nothing;
        let emu = crate::emu::SmbEmu::new(c, b);
        let mut s: State = w11_start(Platform::NTSC);
        let n: usize = inputs.len();
        let mut i: usize = 0;
        while i < n
            invariant
                i <= n,
                n == inputs@.len(),
                emu.options.wf(),
            decreases n - i,
        {
            if !emu.step_ok(&s) {
                return s;
            }
            let (ns, res) = emu.run_step(s, inputs[i]);
            let ok = match res {
                crate::emu::EmuResult::Success => true,
                _ => false,
            };
            if !ok {
                return ns;
            }
            s = ns;
            i = i + 1;
        }
        s
    }
}

} // verus!
