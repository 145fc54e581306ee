//! Scenarios in the night stage: the screen-scroll pipe clip.

use vstd::prelude::*;
use crate::blockbuffer::NoCollisions;
use crate::case::SmbSearchCase;
use crate::case::w11::w11_options;
use crate::emu::EmuResult;
use crate::heuristics::{SearchGoal, lemma_min_x_pos_steps_le_fuel, min_x_pos_heuristic, spec_min_x_pos_steps};
use crate::options::{Platform, PlayerSize, ScrollPos, SmbOptions};
use crate::state::{Dir, Dist, PlayerState, State};

verus! {

/// Clip past the pipe with the screen scroll held back.
pub struct W31ScreenScrollBlock3PipeClip {
    pub platform: Platform,
}

impl SearchGoal for W31ScreenScrollBlock3PipeClip {
    open spec fn spec_goal(&self, s: State, r: EmuResult) -> bool {
        s.x_pos >= 0x698e0
    }

    open spec fn spec_estimate(&self, s: State, steps_already_taken: Dist) -> Option<Dist> {
        if s.x_pos >= 0x10000000 || s.x_pos <= -0x10000000 {
            Option::Some(0u16)
        } else {
            Option::Some(
                spec_min_x_pos_steps(
                    self.platform,
                    s.x_pos as int,
                    s.x_spd as int,
                    0x698e0int,
                    0xffff,
                ) as u16,
            )
        }
    }

    fn distance_to_goal_heuristic(&self, s: &State, steps_already_taken: Dist) -> (r: Option<
        Dist,
    >) {
        if s.x_pos >= 0x10000000 || s.x_pos <= -0x10000000 {
            return Option::Some(0);
        }
        proof {
            lemma_min_x_pos_steps_le_fuel(
                self.platform,
                s.x_pos as int,
                s.x_spd as int,
                0x698e0int,
                0xffff,
            );
        }
        Option::Some(min_x_pos_heuristic(self.platform, s, 0x698e0))
    }

    fn is_goal_state(&self, s: &State, emu_result: &EmuResult) -> (r: bool) {
        s.x_pos >= 0x698e0
    }
}

impl SmbSearchCase for W31ScreenScrollBlock3PipeClip {
    type CaseGoal = W31ScreenScrollBlock3PipeClip;

    type CaseBuffer = NoCollisions;

    fn options() -> (r: SmbOptions) {
        SmbOptions { player_size: PlayerSize::Big, scroll_pos: ScrollPos::WithScrollPos, ..w11_options() }
    }

    fn block_buffer() -> NoCollisions {
        NoCollisions::Nothing
    }

    fn search_goal() -> W31ScreenScrollBlock3PipeClip {
        W31ScreenScrollBlock3PipeClip { platform: Platform::NTSC }
    }

    fn start_states() -> Vec<State> {
        let s = State {
            x_pos: 0x63ff0,
            y_pos: 0x1b060,
            x_spd: 0x2808,
            y_spd: 0,
            player_state: PlayerState::STANDING,
            moving_dir: Dir::Right,
            facing_dir: Dir::Left,
            v_force: Platform::NTSC.v_force_fall_running(),
            v_force_down: Platform::NTSC.v_force_fall_running(),
            x_spd_abs: 0x21,
            running_speed: true,
            jump_swim_timer: 31,
            running_timer: 8,
            left_screen_edge_pos: 0xcf,
            ..crate::case::w11::w11_start(Platform::NTSC)
        };
        let mut v: Vec<State> = Vec::new();
        v.push(s);
        v
    }
}

} // verus!
