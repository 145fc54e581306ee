//! Scenarios in the second stage's overworld return.

use vstd::prelude::*;
use crate::blockbuffer::NoCollisions;
use crate::case::SmbSearchCase;
use crate::case::w11::w11_options;
use crate::emu::EmuResult;
use crate::heuristics::{SearchGoal, lemma_min_x_pos_steps_le_fuel, min_x_pos_heuristic, spec_min_x_pos_steps};
use crate::options::{Platform, PlayerSize, SmbOptions};
use crate::state::{Dir, Dist, PlayerState, State};

verus! {

/// Clip through the floor near the staircase.
pub struct W23FloorClip {
    pub platform: Platform,
}

impl SearchGoal for W23FloorClip {
    open spec fn spec_goal(&self, s: State, r: EmuResult) -> bool {
        s.x_pos >= 0xd21a0 && s.y_pos >= 0x1c000
    }

    open spec fn spec_estimate(&self, s: State, steps_already_taken: Dist) -> Option<Dist> {
        if s.x_pos >= 0x10000000 || s.x_pos <= -0x10000000 {
            Option::Some(0u16)
        } else {
            Option::Some(
                spec_min_x_pos_steps(
                    self.platform,
                    s.x_pos as int,
                    s.x_spd as int,
                    0xd21a0int,
                    0xffff,
                ) as u16,
            )
        }
    }

    fn distance_to_goal_heuristic(&self, s: &State, steps_already_taken: Dist) -> (r: Option<
        Dist,
    >) {
        if s.x_pos >= 0x10000000 || s.x_pos <= -0x10000000 {
            return Option::Some(0);
        }
        proof {
            lemma_min_x_pos_steps_le_fuel(
                self.platform,
                s.x_pos as int,
                s.x_spd as int,
                0xd21a0int,
                0xffff,
            );
        }
        Option::Some(min_x_pos_heuristic(self.platform, s, 0xd21a0))
    }

    fn is_goal_state(&self, s: &State, emu_result: &EmuResult) -> (r: bool) {
        s.x_pos >= 0xd21a0 && s.y_pos >= 0x1c000
    }
}

impl SmbSearchCase for W23FloorClip {
    type CaseGoal = W23FloorClip;

    type CaseBuffer = NoCollisions;

    fn options() -> (r: SmbOptions) {
        SmbOptions { player_size: PlayerSize::Big, ..w11_options() }
    }

    fn block_buffer() -> NoCollisions {
        NoCollisions::Nothing
    }

    fn search_goal() -> W23FloorClip {
        W23FloorClip { platform: Platform::NTSC }
    }

    fn start_states() -> Vec<State> {
        let s = State {
            x_pos: 0xcdbe0,
            y_pos: 0x1c090,
            x_spd: 0x220c,
            y_spd: -0x300,
            player_state: PlayerState::FALLING,
            moving_dir: Dir::Right,
            facing_dir: Dir::Left,
            v_force: Platform::NTSC.v_force_fall_running(),
            v_force_down: Platform::NTSC.v_force_fall_running(),
            x_spd_abs: 0x21,
            running_speed: true,
            ..crate::case::w11::w11_start(Platform::NTSC)
        };
        let mut v: Vec<State> = Vec::new();
        v.push(s);
        v
    }
}

/// Grab the flag pole after the floor route.
pub struct W23FloorFlag {
    pub platform: Platform,
}

impl SearchGoal for W23FloorFlag {
    open spec fn spec_goal(&self, s: State, r: EmuResult) -> bool {
        &&& r matches EmuResult::StateChangeFlag(cx, cy)
        &&& cx == 0xe1
        &&& cy == 9
        &&& s.y_pos >= 0x1a500
    }

    open spec fn spec_estimate(&self, s: State, steps_already_taken: Dist) -> Option<Dist> {
        if s.x_pos >= 0x10000000 || s.x_pos <= -0x10000000 {
            Option::Some(0u16)
        } else {
            Option::Some(
                spec_min_x_pos_steps(
                    self.platform,
                    s.x_pos as int,
                    s.x_spd as int,
                    0xe0000int,
                    0xffff,
                ) as u16,
            )
        }
    }

    fn distance_to_goal_heuristic(&self, s: &State, steps_already_taken: Dist) -> (r: Option<
        Dist,
    >) {
        if s.x_pos >= 0x10000000 || s.x_pos <= -0x10000000 {
            return Option::Some(0);
        }
        proof {
            lemma_min_x_pos_steps_le_fuel(
                self.platform,
                s.x_pos as int,
                s.x_spd as int,
                0xe0000int,
                0xffff,
            );
        }
        Option::Some(min_x_pos_heuristic(self.platform, s, 0xe0000))
    }

    fn is_goal_state(&self, s: &State, emu_result: &EmuResult) -> (r: bool) {
        match emu_result {
            EmuResult::StateChangeFlag(cx, cy) => *cx == 0xe1 && *cy == 9 && s.y_pos
                >= 0x1a500,
            _ => false,
        }
    }
}

impl SmbSearchCase for W23FloorFlag {
    type CaseGoal = W23FloorFlag;

    type CaseBuffer = NoCollisions;

    fn options() -> (r: SmbOptions) {
        SmbOptions { player_size: PlayerSize::Big, ..w11_options() }
    }

    fn block_buffer() -> NoCollisions {
        NoCollisions::Nothing
    }

    fn search_goal() -> W23FloorFlag {
        W23FloorFlag { platform: Platform::NTSC }
    }

    fn start_states() -> Vec<State> {
        let s = State {
            x_pos: 0xdeec0,
            y_pos: 0x1c086,
            x_spd: 0x2818,
            y_spd: 0,
            player_state: PlayerState::STANDING,
            moving_dir: Dir::Right,
            facing_dir: Dir::Right,
            v_force: Platform::NTSC.v_force_fall_running(),
            v_force_down: Platform::NTSC.v_force_fall_running(),
            x_spd_abs: 0x21,
            running_speed: true,
            collision_bits: Dir::Right,
            ..crate::case::w11::w11_start(Platform::NTSC)
        };
        let mut v: Vec<State> = Vec::new();
        v.push(s);
        v
    }
}

} // verus!
