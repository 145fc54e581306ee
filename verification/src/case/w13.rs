//! Scenarios in the third stage: powerup pickups, floor clips, and the flag.

use vstd::prelude::*;
use crate::blockbuffer::NoCollisions;
use crate::case::SmbSearchCase;
use crate::case::w11::w11_options;
use crate::emu::EmuResult;
use crate::heuristics::{SearchGoal, lemma_min_x_pos_steps_le_fuel, min_x_pos_heuristic, spec_min_x_pos_steps};
use crate::options::{Parity, Platform, PlayerSize, PowerupHandler, ScrollPos, SmbOptions};
use crate::state::{Dir, Dist, PlayerState, State};

verus! {

/// Hit the powerup block in its time window and keep running, as the small player.
pub struct W13PowerupSmall {
    pub platform: Platform,
}

impl SearchGoal for W13PowerupSmall {
    open spec fn spec_goal(&self, s: State, r: EmuResult) -> bool {
        s.x_pos >= 0x3de80
    }

    open spec fn spec_estimate(&self, s: State, steps_already_taken: Dist) -> Option<Dist> {
        if s.x_pos < 0 {
            Option::Some(0u16)
        } else {
            let diff = s.x_pos as int / 256 - s.left_screen_edge_pos;
            let rel_x_pos = if diff < 0 {
                diff + 256
            } else {
                diff % 256
            };
            if rel_x_pos > 0x70 {
                Option::None
            } else if steps_already_taken == 17 && s.y_pos >= 0x19100 && s.x_pos < 0x39e00 {
                Option::None
            } else if steps_already_taken == 19 && s.y_pos >= 0x19400 && s.x_pos < 0x39e00 {
                Option::None
            } else if steps_already_taken == 21 && s.y_pos >= 0x19700 && s.x_pos < 0x39e00 {
                Option::None
            } else if (steps_already_taken < 33 - 3 && s.powerup_block_hit) || (
            steps_already_taken >= 33 && !s.powerup_block_hit) {
                Option::None
            } else if s.x_pos >= 0x10000000 || s.x_pos <= -0x10000000 {
                Option::Some(0u16)
            } else {
                Option::Some(
                    spec_min_x_pos_steps(
                        self.platform,
                        s.x_pos as int,
                        s.x_spd as int,
                        0x3de80int,
                        0xffff,
                    ) as u16,
                )
            }
        }
    }

    fn distance_to_goal_heuristic(&self, s: &State, steps_already_taken: Dist) -> (r: Option<
        Dist,
    >) {
        if s.x_pos < 0 {
            return Option::Some(0);
        }
        let d: i32 = s.x_pos / 256;
        let diff: i32 = d - s.left_screen_edge_pos as i32;
        let rel_x_pos: i32 = if diff < 0 {
            diff + 256
        } else {
            diff % 256
        };
        if rel_x_pos > 0x70 {
            return Option::None;
        }
        if steps_already_taken == 17 && s.y_pos >= 0x19100 && s.x_pos < 0x39e00 {
            return Option::None;
        }
        if steps_already_taken == 19 && s.y_pos >= 0x19400 && s.x_pos < 0x39e00 {
            return Option::None;
        }
        if steps_already_taken == 21 && s.y_pos >= 0x19700 && s.x_pos < 0x39e00 {
            return Option::None;
        }
        if (steps_already_taken < 33 - 3 && s.powerup_block_hit) || (steps_already_taken
            >= 33 && !s.powerup_block_hit) {
            return Option::None;
        }
        if s.x_pos >= 0x10000000 || s.x_pos <= -0x10000000 {
            return Option::Some(0);
        }
        proof {
            lemma_min_x_pos_steps_le_fuel(
                self.platform,
                s.x_pos as int,
                s.x_spd as int,
                0x3de80int,
                0xffff,
            );
        }
        Option::Some(min_x_pos_heuristic(self.platform, s, 0x3de80))
    }

    fn is_goal_state(&self, s: &State, emu_result: &EmuResult) -> (r: bool) {
        s.x_pos >= 0x3de80
    }
}

impl SmbSearchCase for W13PowerupSmall {
    type CaseGoal = W13PowerupSmall;

    type CaseBuffer = NoCollisions;

    fn options() -> (r: SmbOptions) {
        SmbOptions { powerup_handler: PowerupHandler::SinglePowerupHandler { block_x: 0x3b, block_y: 8 }, scroll_pos: ScrollPos::WithScrollPos, parity: Parity::Parity4, ..w11_options() }
    }

    fn block_buffer() -> NoCollisions {
        NoCollisions::Nothing
    }

    fn search_goal() -> W13PowerupSmall {
        W13PowerupSmall { platform: Platform::NTSC }
    }

    fn start_states() -> Vec<State> {
        let s = State {
            x_pos: 0x37590,
            y_pos: 0x17e50,
            x_spd: 0x2800,
            y_spd: -0x320,
            player_state: PlayerState::JUMPING,
            moving_dir: Dir::Right,
            facing_dir: Dir::Left,
            v_force: Platform::NTSC.v_force_jump_running(),
            v_force_down: Platform::NTSC.v_force_fall_running(),
            x_spd_abs: 0x21,
            running_speed: true,
            jump_swim_timer: 20,
            left_screen_edge_pos: 0x5,
            ..crate::case::w11::w11_start(Platform::NTSC)
        };
        let mut v: Vec<State> = Vec::new();
        v.push(s);
        v
    }

    fn initial_search_distance() -> Dist {
        66
    }
}

/// Hit the powerup block in its time window and keep running, as the big player.
pub struct W13PowerupBig {
    pub platform: Platform,
}

impl SearchGoal for W13PowerupBig {
    open spec fn spec_goal(&self, s: State, r: EmuResult) -> bool {
        s.x_pos >= 0x3d3e0
    }

    open spec fn spec_estimate(&self, s: State, steps_already_taken: Dist) -> Option<Dist> {
        if s.x_pos < 0 {
            Option::Some(0u16)
        } else {
            let diff = s.x_pos as int / 256 - s.left_screen_edge_pos;
            let rel_x_pos = if diff < 0 {
                diff + 256
            } else {
                diff % 256
            };
            if rel_x_pos > 0x70 {
                Option::None
            } else if steps_already_taken == 17 && s.y_pos >= 0x19100 && s.x_pos < 0x39f00 {
                Option::None
            } else if steps_already_taken == 19 && s.y_pos >= 0x19400 && s.x_pos < 0x39f00 {
                Option::None
            } else if steps_already_taken == 21 && s.y_pos >= 0x19700 && s.x_pos < 0x39f00 {
                Option::None
            } else if (steps_already_taken < 29 - 3 && s.powerup_block_hit) || (
            steps_already_taken >= 29 && !s.powerup_block_hit) {
                Option::None
            } else if s.x_pos >= 0x10000000 || s.x_pos <= -0x10000000 {
                Option::Some(0u16)
            } else {
                Option::Some(
                    spec_min_x_pos_steps(
                        self.platform,
                        s.x_pos as int,
                        s.x_spd as int,
                        0x3d3e0int,
                        0xffff,
                    ) as u16,
                )
            }
        }
    }

    fn distance_to_goal_heuristic(&self, s: &State, steps_already_taken: Dist) -> (r: Option<
        Dist,
    >) {
        if s.x_pos < 0 {
            return Option::Some(0);
        }
        let d: i32 = s.x_pos / 256;
        let diff: i32 = d - s.left_screen_edge_pos as i32;
        let rel_x_pos: i32 = if diff < 0 {
            diff + 256
        } else {
            diff % 256
        };
        if rel_x_pos > 0x70 {
            return Option::None;
        }
        if steps_already_taken == 17 && s.y_pos >= 0x19100 && s.x_pos < 0x39f00 {
            return Option::None;
        }
        if steps_already_taken == 19 && s.y_pos >= 0x19400 && s.x_pos < 0x39f00 {
            return Option::None;
        }
        if steps_already_taken == 21 && s.y_pos >= 0x19700 && s.x_pos < 0x39f00 {
            return Option::None;
        }
        if (steps_already_taken < 29 - 3 && s.powerup_block_hit) || (steps_already_taken
            >= 29 && !s.powerup_block_hit) {
            return Option::None;
        }
        if s.x_pos >= 0x10000000 || s.x_pos <= -0x10000000 {
            return Option::Some(0);
        }
        proof {
            lemma_min_x_pos_steps_le_fuel(
                self.platform,
                s.x_pos as int,
                s.x_spd as int,
                0x3d3e0int,
                0xffff,
            );
        }
        Option::Some(min_x_pos_heuristic(self.platform, s, 0x3d3e0))
    }

    fn is_goal_state(&self, s: &State, emu_result: &EmuResult) -> (r: bool) {
        s.x_pos >= 0x3d3e0
    }
}

impl SmbSearchCase for W13PowerupBig {
    type CaseGoal = W13PowerupBig;

    type CaseBuffer = NoCollisions;

    fn options() -> (r: SmbOptions) {
        SmbOptions { player_size: PlayerSize::Big, powerup_handler: PowerupHandler::SinglePowerupHandler { block_x: 0x3b, block_y: 8 }, scroll_pos: ScrollPos::WithScrollPos, parity: Parity::Parity8, ..w11_options() }
    }

    fn block_buffer() -> NoCollisions {
        NoCollisions::Nothing
    }

    fn search_goal() -> W13PowerupBig {
        W13PowerupBig { platform: Platform::NTSC }
    }

    fn start_states() -> Vec<State> {
        let s = State {
            x_pos: 0x37590,
            y_pos: 0x17e50,
            x_spd: 0x2800,
            y_spd: -0x320,
            player_state: PlayerState::JUMPING,
            moving_dir: Dir::Right,
            facing_dir: Dir::Left,
            v_force: Platform::NTSC.v_force_jump_running(),
            v_force_down: Platform::NTSC.v_force_fall_running(),
            x_spd_abs: 0x21,
            running_speed: true,
            jump_swim_timer: 20,
            left_screen_edge_pos: 0x5,
            is_crouching: true,
            ..crate::case::w11::w11_start(Platform::NTSC)
        };
        let mut v: Vec<State> = Vec::new();
        v.push(s);
        v
    }
}

/// Clip through the floor after the enemy bounce and land below it.
pub struct W13FloorClip {
    pub platform: Platform,
}

impl SearchGoal for W13FloorClip {
    open spec fn spec_goal(&self, s: State, r: EmuResult) -> bool {
        s.x_pos >= 0x80fe0 && s.y_pos >= 0x1c000
    }

    open spec fn spec_estimate(&self, s: State, steps_already_taken: Dist) -> Option<Dist> {
        if s.x_pos >= 0x80800 && s.y_pos < 0x1b500 {
            Option::None
        } else if s.x_pos < 0x7d580 {
            Option::None
        } else if s.x_pos >= 0x10000000 || s.x_pos <= -0x10000000 {
            Option::Some(0u16)
        } else {
            Option::Some(
                spec_min_x_pos_steps(
                    self.platform,
                    s.x_pos as int,
                    s.x_spd as int,
                    0x80fe0int,
                    0xffff,
                ) as u16,
            )
        }
    }

    fn distance_to_goal_heuristic(&self, s: &State, steps_already_taken: Dist) -> (r: Option<
        Dist,
    >) {
        if s.x_pos >= 0x80800 && s.y_pos < 0x1b500 {
            return Option::None;
        }
        if s.x_pos < 0x7d580 {
            return Option::None;
        }
        if s.x_pos >= 0x10000000 || s.x_pos <= -0x10000000 {
            return Option::Some(0);
        }
        proof {
            lemma_min_x_pos_steps_le_fuel(
                self.platform,
                s.x_pos as int,
                s.x_spd as int,
                0x80fe0int,
                0xffff,
            );
        }
        Option::Some(min_x_pos_heuristic(self.platform, s, 0x80fe0))
    }

    fn is_goal_state(&self, s: &State, emu_result: &EmuResult) -> (r: bool) {
        s.x_pos >= 0x80fe0 && s.y_pos >= 0x1c000
    }
}

impl SmbSearchCase for W13FloorClip {
    type CaseGoal = W13FloorClip;

    type CaseBuffer = NoCollisions;

    fn options() -> (r: SmbOptions) {
        SmbOptions { player_size: PlayerSize::Big, powerup_handler: PowerupHandler::ImaginaryPowerup, ..w11_options() }
    }

    fn block_buffer() -> NoCollisions {
        NoCollisions::Nothing
    }

    fn search_goal() -> W13FloorClip {
        W13FloorClip { platform: Platform::NTSC }
    }

    fn start_states() -> Vec<State> {
        let s = State {
            x_pos: 0x7d580,
            y_pos: 0x16c00,
            x_spd: 0,
            y_spd: -0x3e0,
            player_state: PlayerState::JUMPING,
            moving_dir: Dir::Left,
            facing_dir: Dir::Left,
            v_force: Platform::NTSC.v_force_jump_standing(),
            v_force_down: Platform::NTSC.v_force_fall_standing(),
            x_spd_abs: 0,
            running_speed: true,
            ..crate::case::w11::w11_start(Platform::NTSC)
        };
        let mut v: Vec<State> = Vec::new();
        v.push(s);
        v
    }
}

/// Speed back up after the floor clip.
pub struct W13FloorClipSpeedup {
    pub platform: Platform,
}

impl SearchGoal for W13FloorClipSpeedup {
    open spec fn spec_goal(&self, s: State, r: EmuResult) -> bool {
        s.x_pos >= 0x84470 && s.y_pos >= 0x1c000
    }

    open spec fn spec_estimate(&self, s: State, steps_already_taken: Dist) -> Option<Dist> {
        if s.x_pos >= 0x10000000 || s.x_pos <= -0x10000000 {
            Option::Some(0u16)
        } else {
            Option::Some(
                spec_min_x_pos_steps(
                    self.platform,
                    s.x_pos as int,
                    s.x_spd as int,
                    0x84470int,
                    0xffff,
                ) as u16,
            )
        }
    }

    fn distance_to_goal_heuristic(&self, s: &State, steps_already_taken: Dist) -> (r: Option<
        Dist,
    >) {
        if s.x_pos >= 0x10000000 || s.x_pos <= -0x10000000 {
            return Option::Some(0);
        }
        proof {
            lemma_min_x_pos_steps_le_fuel(
                self.platform,
                s.x_pos as int,
                s.x_spd as int,
                0x84470int,
                0xffff,
            );
        }
        Option::Some(min_x_pos_heuristic(self.platform, s, 0x84470))
    }

    fn is_goal_state(&self, s: &State, emu_result: &EmuResult) -> (r: bool) {
        s.x_pos >= 0x84470 && s.y_pos >= 0x1c000
    }
}

impl SmbSearchCase for W13FloorClipSpeedup {
    type CaseGoal = W13FloorClipSpeedup;

    type CaseBuffer = NoCollisions;

    fn options() -> (r: SmbOptions) {
        SmbOptions { player_size: PlayerSize::Big, ..w11_options() }
    }

    fn block_buffer() -> NoCollisions {
        NoCollisions::Nothing
    }

    fn search_goal() -> W13FloorClipSpeedup {
        W13FloorClipSpeedup { platform: Platform::NTSC }
    }

    fn start_states() -> Vec<State> {
        let s = State {
            x_pos: 0x7ff10,
            y_pos: 0x1c550,
            x_spd: 0xbfc,
            y_spd: -0x390,
            player_state: PlayerState::JUMPING,
            moving_dir: Dir::Right,
            facing_dir: Dir::Lr,
            v_force: Platform::NTSC.v_force_fall_standing(),
            v_force_down: Platform::NTSC.v_force_fall_standing(),
            x_spd_abs: 0xb,
            running_speed: true,
            ..crate::case::w11::w11_start(Platform::NTSC)
        };
        let mut v: Vec<State> = Vec::new();
        v.push(s);
        v
    }
}

/// Grab the flag pole after the floor route.
pub struct W13FloorFlag {
    pub platform: Platform,
}

impl SearchGoal for W13FloorFlag {
    open spec fn spec_goal(&self, s: State, r: EmuResult) -> bool {
        &&& r matches EmuResult::StateChangeFlag(cx, cy)
        &&& cx == 0x98
        &&& cy == 9
        &&& s.y_pos >= 0x1a500
    }

    open spec fn spec_estimate(&self, s: State, steps_already_taken: Dist) -> Option<Dist> {
        if s.x_pos >= 0x10000000 || s.x_pos <= -0x10000000 {
            Option::Some(0u16)
        } else {
            Option::Some(
                spec_min_x_pos_steps(
                    self.platform,
                    s.x_pos as int,
                    s.x_spd as int,
                    0x97000int,
                    0xffff,
                ) as u16,
            )
        }
    }

    fn distance_to_goal_heuristic(&self, s: &State, steps_already_taken: Dist) -> (r: Option<
        Dist,
    >) {
        if s.x_pos >= 0x10000000 || s.x_pos <= -0x10000000 {
            return Option::Some(0);
        }
        proof {
            lemma_min_x_pos_steps_le_fuel(
                self.platform,
                s.x_pos as int,
                s.x_spd as int,
                0x97000int,
                0xffff,
            );
        }
        Option::Some(min_x_pos_heuristic(self.platform, s, 0x97000))
    }

    fn is_goal_state(&self, s: &State, emu_result: &EmuResult) -> (r: bool) {
        match emu_result {
            EmuResult::StateChangeFlag(cx, cy) => *cx == 0x98 && *cy == 9 && s.y_pos
                >= 0x1a500,
            _ => false,
        }
    }
}

impl SmbSearchCase for W13FloorFlag {
    type CaseGoal = W13FloorFlag;

    type CaseBuffer = NoCollisions;

    fn options() -> (r: SmbOptions) {
        SmbOptions { player_size: PlayerSize::Big, ..w11_options() }
    }

    fn block_buffer() -> NoCollisions {
        NoCollisions::Nothing
    }

    fn search_goal() -> W13FloorFlag {
        W13FloorFlag { platform: Platform::NTSC }
    }

    fn start_states() -> Vec<State> {
        let s = State {
            x_pos: 0x84470,
            y_pos: 0x1c0d0,
            x_spd: 0x28e8,
            y_spd: 0,
            player_state: PlayerState::STANDING,
            moving_dir: Dir::Right,
            facing_dir: Dir::Right,
            v_force: Platform::NTSC.v_force_fall_standing(),
            v_force_down: Platform::NTSC.v_force_fall_standing(),
            x_spd_abs: 0x21,
            running_speed: true,
            collision_bits: Dir::Right,
            ..crate::case::w11::w11_start(Platform::NTSC)
        };
        let mut v: Vec<State> = Vec::new();
        v.push(s);
        v
    }
}

/// A fixed-script emulator exercise for this stage's configuration.
pub enum EmulatorTesting {
    Scenario,
}

} // verus!
