//! Scenarios in the castle stage.

use vstd::prelude::*;
use crate::blockbuffer::NoCollisions;
use crate::case::SmbSearchCase;
use crate::case::w11::w11_options;
use crate::emu::EmuResult;
use crate::heuristics::{SearchGoal, lemma_min_x_pos_steps_le_fuel, min_x_pos_heuristic, spec_min_x_pos_steps};
use crate::options::{Parity, Platform, PlayerSize, PowerupHandler, SmbOptions};
use crate::state::{Dir, Dist, PlayerState, State};

verus! {

/// Initial speed-up in the castle.
pub struct W14Speedup {
    pub platform: Platform,
}

impl SearchGoal for W14Speedup {
    open spec fn spec_goal(&self, s: State, r: EmuResult) -> bool {
        s.x_pos >= 0x92a0
    }

    open spec fn spec_estimate(&self, s: State, steps_already_taken: Dist) -> Option<Dist> {
        if s.x_pos >= 0x10000000 || s.x_pos <= -0x10000000 {
            Option::Some(0u16)
        } else {
            Option::Some(
                spec_min_x_pos_steps(
                    self.platform,
                    s.x_pos as int,
                    s.x_spd as int,
                    0x92a0int,
                    0xffff,
                ) as u16,
            )
        }
    }

    fn distance_to_goal_heuristic(&self, s: &State, steps_already_taken: Dist) -> (r: Option<
        Dist,
    >) {
        if s.x_pos >= 0x10000000 || s.x_pos <= -0x10000000 {
            return Option::Some(0);
        }
        proof {
            lemma_min_x_pos_steps_le_fuel(
                self.platform,
                s.x_pos as int,
                s.x_spd as int,
                0x92a0int,
                0xffff,
            );
        }
        Option::Some(min_x_pos_heuristic(self.platform, s, 0x92a0))
    }

    fn is_goal_state(&self, s: &State, emu_result: &EmuResult) -> (r: bool) {
        s.x_pos >= 0x92a0
    }
}

impl SmbSearchCase for W14Speedup {
    type CaseGoal = W14Speedup;

    type CaseBuffer = NoCollisions;

    fn options() -> (r: SmbOptions) {
        SmbOptions { player_size: PlayerSize::Big, ..w11_options() }
    }

    fn block_buffer() -> NoCollisions {
        NoCollisions::Nothing
    }

    fn search_goal() -> W14Speedup {
        W14Speedup { platform: Platform::NTSC }
    }

    fn start_states() -> Vec<State> {
        let s = State {
            x_pos: 0x2800,
            y_pos: 0x15000,
            ..crate::case::w11::w11_start(Platform::NTSC)
        };
        let mut v: Vec<State> = Vec::new();
        v.push(s);
        v
    }
}

/// Collect the powerup, then keep running.
pub struct W14Powerup {
    pub platform: Platform,
}

impl SearchGoal for W14Powerup {
    open spec fn spec_goal(&self, s: State, r: EmuResult) -> bool {
        s.powerup_collected && s.x_pos >= 0x228a0
    }

    open spec fn spec_estimate(&self, s: State, steps_already_taken: Dist) -> Option<Dist> {
        if s.y_pos >= 0x18500 {
            Option::None
        } else if s.powerup_block_hit && !s.powerup_collected && s.y_spd < 0 && s.x_spd
            < 0x1900 {
            Option::None
        } else if s.powerup_block_hit && !s.powerup_collected && s.x_pos >= 0x1e210
            && s.player_state is STANDING {
            Option::None
        } else if (steps_already_taken < 10 - 3 && s.powerup_block_hit) || (steps_already_taken
            >= 10 && !s.powerup_block_hit) {
            Option::None
        } else if s.x_pos >= 0x10000000 || s.x_pos <= -0x10000000 {
            Option::Some(0u16)
        } else {
            Option::Some(
                spec_min_x_pos_steps(
                    self.platform,
                    s.x_pos as int,
                    s.x_spd as int,
                    0x228a0int,
                    0xffff,
                ) as u16,
            )
        }
    }

    fn distance_to_goal_heuristic(&self, s: &State, steps_already_taken: Dist) -> (r: Option<
        Dist,
    >) {
        if s.y_pos >= 0x18500 {
            return Option::None;
        }
        if s.powerup_block_hit && !s.powerup_collected && s.y_spd < 0 && s.x_spd < 0x1900 {
            return Option::None;
        }
        let standing = match s.player_state {
            PlayerState::STANDING => true,
            _ => false,
        };
        if s.powerup_block_hit && !s.powerup_collected && s.x_pos >= 0x1e210 && standing {
            return Option::None;
        }
        if (steps_already_taken < 10 - 3 && s.powerup_block_hit) || (steps_already_taken >= 10
            && !s.powerup_block_hit) {
            return Option::None;
        }
        if s.x_pos >= 0x10000000 || s.x_pos <= -0x10000000 {
            return Option::Some(0);
        }
        proof {
            lemma_min_x_pos_steps_le_fuel(
                self.platform,
                s.x_pos as int,
                s.x_spd as int,
                0x228a0int,
                0xffff,
            );
        }
        Option::Some(min_x_pos_heuristic(self.platform, s, 0x228a0))
    }

    fn is_goal_state(&self, s: &State, emu_result: &EmuResult) -> (r: bool) {
        s.powerup_collected && s.x_pos >= 0x228a0
    }
}

impl SmbSearchCase for W14Powerup {
    type CaseGoal = W14Powerup;

    type CaseBuffer = NoCollisions;

    fn options() -> (r: SmbOptions) {
        SmbOptions { player_size: PlayerSize::Big, powerup_handler: PowerupHandler::SinglePowerupHandler { block_x: 0x1e, block_y: 4 }, parity: Parity::Parity8, ..w11_options() }
    }

    fn block_buffer() -> NoCollisions {
        NoCollisions::Nothing
    }

    fn search_goal() -> W14Powerup {
        W14Powerup { platform: Platform::NTSC }
    }

    fn start_states() -> Vec<State> {
        let s = State {
            x_pos: 0x1c620,
            y_pos: 0x18028,
            x_spd: 0x2818,
            y_spd: 0,
            player_state: PlayerState::STANDING,
            moving_dir: Dir::Right,
            facing_dir: Dir::Left,
            v_force: Platform::NTSC.v_force_fall_running(),
            v_force_down: Platform::NTSC.v_force_fall_running(),
            x_spd_abs: 0x21,
            running_speed: true,
            ..crate::case::w11::w11_start(Platform::NTSC)
        };
        let mut v: Vec<State> = Vec::new();
        v.push(s);
        v
    }
}

} // verus!
