//! Unit checks: block classes, directions, platform constants, option
//! handlers, heuristic formulas, start-state transformers and scenarios.

use smbsearch::blockbuffer::{is_climb, is_coin, is_hidden_block, is_question_block, is_solid};
use smbsearch::case::w11::{w11_options, w11_start, EmulatorTesting, W11Speedup};
use smbsearch::case::{
    with_all_x_spd_subpixels, with_all_y_pos_subpixels, with_left_and_right_and_lr_facing_dir,
    with_left_and_right_facing_dir, with_smaller_x_pos, SmbSearchCase,
};
use smbsearch::emu::{INPUT_A, INPUT_RIGHT};
use smbsearch::heuristics::{
    min_x_pos_heuristic, min_x_speed_heuristic, BoundsHeuristic, ImpossibleSearchGoal,
    MaxXPosMetric, SearchGoal,
};
use smbsearch::options::{CoinHandler, Platform, PowerupHandler, VerticalPipeHandler};
use smbsearch::state::{Dir, PlayerState};

#[test]
fn block_classes_match_their_tile_ranges() {
    assert!(is_coin(0xc2) && is_coin(0xc3) && !is_coin(0xc4));
    assert!(is_solid(0x10) && is_solid(0x61) && is_solid(0xc4) && !is_solid(0x0f));
    assert!(is_climb(0x24) && is_climb(0x26) && !is_climb(0x23));
    assert!(is_hidden_block(0x5f) && is_hidden_block(0x60) && !is_hidden_block(0x5e));
    assert!(is_question_block(0xc0) && is_question_block(0x55) && !is_question_block(0x54));
}

#[test]
fn direction_sets_behave_as_sets() {
    assert_eq!(Dir::Lr.inter(Dir::Right), Dir::Right);
    assert_eq!(Dir::Left.inter(Dir::Right), Dir::Empty);
    assert_eq!(Dir::Lr.remove(Dir::Right), Dir::Left);
    assert_eq!(Dir::Right.remove(Dir::Right), Dir::Empty);
    assert!(Dir::Lr.contains(Dir::Left));
    assert!(!Dir::Right.contains(Dir::Left));
    assert_eq!(Dir::from_low_bits(INPUT_A | INPUT_RIGHT), Dir::Right);
}

#[test]
fn platform_constants_differ_between_standards() {
    assert_eq!(Platform::NTSC.max_x_spd_run(), 0x2800);
    assert_eq!(Platform::PAL.max_x_spd_run(), 0x3000);
    assert_eq!(Platform::NTSC.friction_run(), 0xe4);
    assert_eq!(Platform::NTSC.x_spd_abs_cutoff(5), 0x21);
    assert_eq!(Platform::NTSC.get_x_spd_abs_cutoff(0x1b), 3);
    assert_eq!(Platform::NTSC.get_v_force_index(0x20), 2);
}

#[test]
fn coin_list_tracks_collected_bits() {
    let handler = CoinHandler::CoinList(vec![(3, 4), (5, 6)]);
    let mut s = w11_start(Platform::NTSC);
    assert!(!handler.is_coin_collected(&s, 3, 4));
    assert!(!handler.is_coin_collected(&s, 5, 6));
    assert!(handler.is_coin_collected(&s, 9, 9)); // untracked cells count as taken
    handler.collect_coin(&mut s, 3, 4);
    assert_eq!(s.collected_coins, 1);
    assert!(handler.is_coin_collected(&s, 3, 4));
    assert!(!handler.is_coin_collected(&s, 5, 6));
}

#[test]
fn single_powerup_block_activates_once_at_its_cell() {
    let handler = PowerupHandler::SinglePowerupHandler { block_x: 7, block_y: 2 };
    let mut s = w11_start(Platform::NTSC);
    assert!(!handler.is_activated_powerup_block(&s, 7, 2));
    handler.activate_powerup_block(&mut s, 1, 1);
    assert!(!s.powerup_block_hit);
    handler.activate_powerup_block(&mut s, 7, 2);
    assert!(s.powerup_block_hit);
    assert!(handler.is_activated_powerup_block(&s, 7, 2));
    assert!(!handler.is_activated_powerup_block(&s, 7, 3));
}

#[test]
fn vertical_pipe_policy_matches_only_its_cell() {
    let h = VerticalPipeHandler::EnterVerticalPipe { pipe_x: 0x39, pipe_y: 7 };
    assert!(h.enter_vertical_pipe(0x39, 7));
    assert!(!h.enter_vertical_pipe(0x39, 8));
    assert!(!VerticalPipeHandler::IgnoreVerticalPipes.enter_vertical_pipe(0x39, 7));
}

#[test]
fn x_position_bound_has_its_closed_form() {
    let mut s = w11_start(Platform::NTSC);
    s.x_spd = 0;
    // One frame of full acceleration covers a whole pixel: a sixteen
    // subpixel target needs exactly one step.
    assert_eq!(min_x_pos_heuristic(Platform::NTSC, &s, s.x_pos + 0x10), 1);
    assert_eq!(min_x_pos_heuristic(Platform::NTSC, &s, s.x_pos), 0);
    assert_eq!(min_x_speed_heuristic(Platform::NTSC, &s, 0x100), 1);
    assert_eq!(min_x_speed_heuristic(Platform::NTSC, &s, 0), 0);
}

#[test]
fn bounds_estimator_takes_the_slower_axis() {
    let h = BoundsHeuristic::new(Platform::NTSC);
    let mut s = w11_start(Platform::NTSC);
    s.x_spd = 0;
    let x_only = h.get_steps_until_x_pos_at_least(&s, s.x_pos + 0x200);
    let both = h.get_steps_until_bounds_at_least(&s, s.x_pos + 0x200, 0x1c000);
    assert_eq!(both, x_only);
    assert_eq!(h.get_steps_until_y_pos_at_least(&s, 0x1c000), 0);
    assert_eq!(h.get_steps_until_x_pos_between(&s, s.x_pos - 1, s.x_pos + 1), 0);
}

#[test]
fn trivial_goals_behave_as_documented() {
    let g = ImpossibleSearchGoal::new();
    let s = w11_start(Platform::NTSC);
    assert!(!g.is_goal_state(&s, &smbsearch::emu::EmuResult::Success));
    assert_eq!(g.distance_to_goal_heuristic(&s, 0), Some(0));
    let mut m = MaxXPosMetric::new(Platform::NTSC);
    m.track_metric(&s);
    assert_eq!(m.max_x_pos, s.x_pos);
}

#[test]
fn facing_dir_transformer_doubles_the_set() {
    let s = w11_start(Platform::NTSC);
    let out = with_left_and_right_facing_dir(vec![s]);
    assert_eq!(out.len(), 2);
    assert_eq!(out[0].facing_dir, Dir::Left);
    assert_eq!(out[1].facing_dir, Dir::Right);
    assert_eq!(out[0].x_pos, s.x_pos);
    let out3 = with_left_and_right_and_lr_facing_dir(vec![s]);
    assert_eq!(out3.len(), 3);
    assert_eq!(out3[2].facing_dir, Dir::Lr);
}

#[test]
fn subpixel_transformers_enumerate_the_dropped_bits() {
    let s = w11_start(Platform::NTSC);
    let out = with_smaller_x_pos(vec![s], 3);
    assert_eq!(out.len(), 4);
    assert_eq!(out[0].x_pos, s.x_pos);
    assert_eq!(out[3].x_pos, s.x_pos - 3 * 16);

    let spd = with_all_x_spd_subpixels(vec![s]);
    assert_eq!(spd.len(), 0x40);
    assert_eq!(spd[0].x_spd, s.x_spd - (s.x_spd.rem_euclid(256)));
    assert_eq!(spd[1].x_spd, spd[0].x_spd + 4);

    let ys = with_all_y_pos_subpixels(vec![s]);
    assert_eq!(ys.len(), 0x80);
    assert_eq!(ys[1].y_pos, ys[0].y_pos + 2);
}

#[test]
fn scenario_start_states_are_the_documented_configurations() {
    let starts = <W11Speedup as SmbSearchCase>::start_states();
    assert_eq!(starts.len(), 1);
    assert_eq!(starts[0].x_pos, 0x2800);
    assert_eq!(starts[0].y_pos, 0x1b000);
    assert_eq!(starts[0].player_state, PlayerState::STANDING);
    let c = <W11Speedup as SmbSearchCase>::options();
    assert!(matches!(c.platform, Platform::NTSC));
    let goal = <W11Speedup as SmbSearchCase>::search_goal();
    let mut g = starts[0];
    g.x_pos = 0x9190;
    assert!(goal.is_goal_state(&g, &smbsearch::emu::EmuResult::Success));
    let mut ng = starts[0];
    ng.x_pos = 0x918f;
    assert!(!goal.is_goal_state(&ng, &smbsearch::emu::EmuResult::Success));
}

#[test]
fn input_enumeration_is_never_empty_and_offscreen_is_a_single_idle_frame() {
    let fetcher = smbsearch::ida::SmbInputFetcher { options: w11_options() };
    let on_screen = w11_start(Platform::NTSC);
    let inputs = smbsearch::ida::InputFetcher::valid_next_inputs(&fetcher, &on_screen);
    assert!(!inputs.is_empty());
    assert!(inputs.contains(&smbsearch::emu::INPUT_RIGHT));
    let mut off = on_screen;
    off.y_pos = 0xf000;
    let only = smbsearch::ida::InputFetcher::valid_next_inputs(&fetcher, &off);
    assert_eq!(only, vec![0u8]);
}

#[test]
fn exhaustive_enumerator_yields_all_masks_ascending() {
    let all = smbsearch::ida::AllInputs {};
    let s = w11_start(Platform::NTSC);
    let inputs = smbsearch::ida::InputFetcher::valid_next_inputs(&all, &s);
    assert_eq!(inputs.len(), 256);
    for (i, b) in inputs.iter().enumerate() {
        assert_eq!(*b as usize, i);
    }
}

#[test]
fn emulator_script_runner_moves_the_player() {
    let end = EmulatorTesting::run(&vec![INPUT_RIGHT; 8]);
    let start = w11_start(Platform::NTSC);
    assert!(end.x_pos > start.x_pos);
}

#[test]
fn one_step_with_no_input_keeps_a_grounded_player_still() {
    let c = w11_options();
    let b = smbsearch::blockbuffer::BlockGrid::new(Vec::new());
    let emu = smbsearch::emu::SmbEmu::new(c, b);
    let s = w11_start(Platform::NTSC);
    let (ns, res) = smbsearch::emu::Emu::run_step(&emu, s, 0);
    assert_eq!(res, smbsearch::emu::EmuResult::Success);
    assert_eq!(ns.x_pos, s.x_pos);
    // Nothing under the player: the step lets go of the ground.
    assert_eq!(ns.player_state, PlayerState::FALLING);
}
