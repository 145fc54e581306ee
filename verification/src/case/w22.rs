//! Scenarios in the underwater stage.

use vstd::prelude::*;
use crate::blockbuffer::NoCollisions;
use crate::case::SmbSearchCase;
use crate::case::w11::w11_options;
use crate::emu::EmuResult;
use crate::heuristics::{SearchGoal, lemma_min_x_pos_steps_le_fuel, min_x_pos_heuristic, spec_min_x_pos_steps};
use crate::options::{Platform, PlayerSize, SmbOptions, Swim};
use crate::state::{Dir, Dist, PlayerState, State};

verus! {

/// Initial speed-up under water.
pub struct W22Speedup {
    pub platform: Platform,
}

impl SearchGoal for W22Speedup {
    open spec fn spec_goal(&self, s: State, r: EmuResult) -> bool {
        s.x_pos >= 0x3d50
    }

    open spec fn spec_estimate(&self, s: State, steps_already_taken: Dist) -> Option<Dist> {
        if s.x_pos >= 0x10000000 || s.x_pos <= -0x10000000 {
            Option::Some(0u16)
        } else {
            Option::Some(
                spec_min_x_pos_steps(
                    self.platform,
                    s.x_pos as int,
                    s.x_spd as int,
                    0x3d50int,
                    0xffff,
                ) as u16,
            )
        }
    }

    fn distance_to_goal_heuristic(&self, s: &State, steps_already_taken: Dist) -> (r: Option<
        Dist,
    >) {
        if s.x_pos >= 0x10000000 || s.x_pos <= -0x10000000 {
            return Option::Some(0);
        }
        proof {
            lemma_min_x_pos_steps_le_fuel(
                self.platform,
                s.x_pos as int,
                s.x_spd as int,
                0x3d50int,
                0xffff,
            );
        }
        Option::Some(min_x_pos_heuristic(self.platform, s, 0x3d50))
    }

    fn is_goal_state(&self, s: &State, emu_result: &EmuResult) -> (r: bool) {
        s.x_pos >= 0x3d50
    }
}

impl SmbSearchCase for W22Speedup {
    type CaseGoal = W22Speedup;

    type CaseBuffer = NoCollisions;

    fn options() -> (r: SmbOptions) {
        SmbOptions { player_size: PlayerSize::Big, swim: Swim::Swimming, ..w11_options() }
    }

    fn block_buffer() -> NoCollisions {
        NoCollisions::Nothing
    }

    fn search_goal() -> W22Speedup {
        W22Speedup { platform: Platform::NTSC }
    }

    fn start_states() -> Vec<State> {
        let s = State {
            x_pos: 0x2800,
            y_pos: 0x13150,
            x_spd: 0,
            y_spd: 0x3a0,
            player_state: PlayerState::JUMPING,
            moving_dir: Dir::Empty,
            facing_dir: Dir::Right,
            ..crate::case::w11::w11_start(Platform::NTSC)
        };
        let mut v: Vec<State> = Vec::new();
        v.push(s);
        v
    }

    fn search_space_size_hint() -> (r: usize) {
        80127
    }
}

} // verus!
