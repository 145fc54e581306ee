//! Scenarios in the underground second stage.

use vstd::prelude::*;
use crate::blockbuffer::NoCollisions;
use crate::case::SmbSearchCase;
use crate::case::w11::w11_options;
use crate::emu::EmuResult;
use crate::heuristics::{SearchGoal, lemma_min_x_pos_steps_le_fuel, min_x_pos_heuristic, spec_min_x_pos_steps};
use crate::options::{Platform, PowerupHandler, SmbOptions};
use crate::state::{Dir, Dist, PlayerState, State};

verus! {

/// The stage's falling entry point.
pub fn w12_start(plat: Platform) -> (r: State)
    ensures
        r.x_pos == 0x2800,
        r.y_pos == 0x12000,
        r.player_state is FALLING,
{
    State {
        player_state: PlayerState::FALLING,
        y_pos: 0x12000,
        ..crate::case::w11::w11_start(plat)
    }
}

/// Initial speed-up in the underground stage.
pub struct W12Speedup {
    pub platform: Platform,
}

impl SearchGoal for W12Speedup {
    open spec fn spec_goal(&self, s: State, r: EmuResult) -> bool {
        s.x_pos >= 0x9190
    }

    open spec fn spec_estimate(&self, s: State, steps_already_taken: Dist) -> Option<Dist> {
        if s.x_pos >= 0x10000000 || s.x_pos <= -0x10000000 {
            Option::Some(0u16)
        } else {
            Option::Some(
                spec_min_x_pos_steps(
                    self.platform,
                    s.x_pos as int,
                    s.x_spd as int,
                    0x9190int,
                    0xffff,
                ) as u16,
            )
        }
    }

    fn distance_to_goal_heuristic(&self, s: &State, steps_already_taken: Dist) -> (r: Option<
        Dist,
    >) {
        if s.x_pos >= 0x10000000 || s.x_pos <= -0x10000000 {
            return Option::Some(0);
        }
        proof {
            lemma_min_x_pos_steps_le_fuel(
                self.platform,
                s.x_pos as int,
                s.x_spd as int,
                0x9190int,
                0xffff,
            );
        }
        Option::Some(min_x_pos_heuristic(self.platform, s, 0x9190))
    }

    fn is_goal_state(&self, s: &State, emu_result: &EmuResult) -> (r: bool) {
        s.x_pos >= 0x9190
    }
}

impl SmbSearchCase for W12Speedup {
    type CaseGoal = W12Speedup;

    type CaseBuffer = NoCollisions;

    fn options() -> (r: SmbOptions) {
        w11_options()
    }

    fn block_buffer() -> NoCollisions {
        NoCollisions::Nothing
    }

    fn search_goal() -> W12Speedup {
        W12Speedup { platform: Platform::NTSC }
    }

    fn start_states() -> Vec<State> {
        let mut v: Vec<State> = Vec::new();
        v.push(w12_start(Platform::NTSC));
        v
    }
}

/// Collect the stage's powerup, then keep running: the goal is the
/// checkpoint position, and a state that passed the block without the
/// powerup is declared dead.
pub struct W12Powerup {
    pub platform: Platform,
}

impl SearchGoal for W12Powerup {
    open spec fn spec_goal(&self, s: State, r: EmuResult) -> bool {
        s.x_pos >= 0xbe60
    }

    open spec fn spec_estimate(&self, s: State, steps_already_taken: Dist) -> Option<Dist> {
        if s.x_pos >= 0xa000 && !s.powerup_collected {
            Option::None
        } else if s.x_pos >= 0x10000000 || s.x_pos <= -0x10000000 {
            Option::Some(0u16)
        } else {
            Option::Some(
                spec_min_x_pos_steps(
                    self.platform,
                    s.x_pos as int,
                    s.x_spd as int,
                    0xbe60int,
                    0xffff,
                ) as u16,
            )
        }
    }

    fn distance_to_goal_heuristic(&self, s: &State, steps_already_taken: Dist) -> (r: Option<
        Dist,
    >) {
        if s.x_pos >= 0xa000 && !s.powerup_collected {
            return Option::None;
        }
        if s.x_pos >= 0x10000000 || s.x_pos <= -0x10000000 {
            return Option::Some(0);
        }
        proof {
            lemma_min_x_pos_steps_le_fuel(
                self.platform,
                s.x_pos as int,
                s.x_spd as int,
                0xbe60int,
                0xffff,
            );
        }
        Option::Some(min_x_pos_heuristic(self.platform, s, 0xbe60))
    }

    fn is_goal_state(&self, s: &State, emu_result: &EmuResult) -> (r: bool) {
        s.x_pos >= 0xbe60
    }
}

impl SmbSearchCase for W12Powerup {
    type CaseGoal = W12Powerup;

    type CaseBuffer = NoCollisions;

    fn options() -> (r: SmbOptions) {
        SmbOptions {
            powerup_handler: PowerupHandler::SinglePowerupHandler { block_x: 10, block_y: 7 },
            ..w11_options()
        }
    }

    fn block_buffer() -> NoCollisions {
        NoCollisions::Nothing
    }

    fn search_goal() -> W12Powerup {
        W12Powerup { platform: Platform::NTSC }
    }

    fn start_states() -> Vec<State> {
        let s = State {
            x_pos: 0x7890,
            y_pos: 0x1b028,
            x_spd: 0x2888,
            v_force: Platform::NTSC.v_force_fall_running(),
            v_force_down: Platform::NTSC.v_force_fall_running(),
            moving_dir: Dir::Right,
            x_spd_abs: 0x21,
            running_speed: true,
            left_screen_edge_pos: 0x18,
            ..crate::case::w11::w11_start(Platform::NTSC)
        };
        let mut v: Vec<State> = Vec::new();
        v.push(s);
        v
    }
}

/// Grab the flag pole low enough for the half-height glitch.
pub struct W12Flag {
    pub platform: Platform,
}

impl SearchGoal for W12Flag {
    open spec fn spec_goal(&self, s: State, r: EmuResult) -> bool {
        &&& r matches EmuResult::StateChangeFlag(cx, cy)
        &&& cx == 0xc6
        &&& cy == 9
        &&& s.y_pos >= 0x1a200
        &&& s.x_pos >= 0
        &&& s.x_pos as int / 16 % 16 >= 7
    }

    open spec fn spec_estimate(&self, s: State, steps_already_taken: Dist) -> Option<Dist> {
        if s.x_pos >= 0x10000000 || s.x_pos <= -0x10000000 {
            Option::Some(0u16)
        } else {
            Option::Some(
                spec_min_x_pos_steps(
                    self.platform,
                    s.x_pos as int,
                    s.x_spd as int,
                    0xc5600int,
                    0xffff,
                ) as u16,
            )
        }
    }

    fn distance_to_goal_heuristic(&self, s: &State, steps_already_taken: Dist) -> (r: Option<
        Dist,
    >) {
        if s.x_pos >= 0x10000000 || s.x_pos <= -0x10000000 {
            return Option::Some(0);
        }
        proof {
            lemma_min_x_pos_steps_le_fuel(
                self.platform,
                s.x_pos as int,
                s.x_spd as int,
                0xc5600int,
                0xffff,
            );
        }
        Option::Some(min_x_pos_heuristic(self.platform, s, 0xc5600))
    }

    fn is_goal_state(&self, s: &State, emu_result: &EmuResult) -> (r: bool) {
        match emu_result {
            EmuResult::StateChangeFlag(cx, cy) => {
                if *cx == 0xc6 && *cy == 9 && s.y_pos >= 0x1a200 && s.x_pos >= 0 {
                    let nib: i32 = (s.x_pos / 16) % 16;
                    nib >= 7
                } else {
                    false
                }
            },
            _ => false,
        }
    }
}

impl SmbSearchCase for W12Flag {
    type CaseGoal = W12Flag;

    type CaseBuffer = NoCollisions;

    fn options() -> (r: SmbOptions) {
        w11_options()
    }

    fn block_buffer() -> NoCollisions {
        NoCollisions::Nothing
    }

    fn search_goal() -> W12Flag {
        W12Flag { platform: Platform::NTSC }
    }

    fn start_states() -> Vec<State> {
        let s = State { x_pos: 0xb3800, y_pos: 0x19000, ..crate::case::w11::w11_start(
            Platform::NTSC,
        ) };
        let mut v: Vec<State> = Vec::new();
        v.push(s);
        v
    }
}

} // verus!
