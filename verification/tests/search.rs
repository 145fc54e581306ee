//! The search driver on small synthetic levels: exact shortest lengths
//! against an independent breadth-first search, exhaustion, admissibility,
//! and the bound-increase relaxation.

use smbsearch::blockbuffer::BlockGrid;
use smbsearch::case::w11::{w11_options, w11_start};
use smbsearch::emu::{Emu, EmuResult, SmbEmu};
use smbsearch::heuristics::{ReachXGoal, SearchGoal};
use smbsearch::ida::{InputFetcher, SearchResult, SmbInputFetcher, IDA};
use smbsearch::options::{Platform, SmbOptions, YPosFractionalBehavior};
use smbsearch::state::{Dir, State};
use smbsearch::store::VecHashMap;
use std::collections::HashSet;
use std::collections::VecDeque;

/// A flat floor under the whole level, with an optional wall of solid
/// blocks in the given column (rows 9 and 10, on top of the floor).
fn level(wall_cx: Option<usize>) -> BlockGrid {
    let mut rows: Vec<Vec<u8>> = Vec::new();
    for _y in 0..11 {
        rows.push(vec![0u8; 200]);
    }
    rows.push(vec![0x10u8; 200]);
    if let Some(cx) = wall_cx {
        rows[9][cx] = 0x10;
        rows[10][cx] = 0x10;
    }
    BlockGrid::new(rows)
}

fn runner_start() -> State {
    let mut s = w11_start(Platform::NTSC);
    s.x_spd = 0x1800;
    s.x_spd_abs = 0x18;
    s.moving_dir = Dir::Right;
    s.running_speed = false;
    s
}

/// Breadth-first shortest path to the goal under the same step function
/// and input set, up to `depth_cap` steps. Independent of the
/// iterative-deepening machinery.
fn bfs_shortest(
    emu: &SmbEmu<BlockGrid>,
    fetcher: &SmbInputFetcher,
    goal: &ReachXGoal,
    start: State,
    depth_cap: u16,
) -> Option<u16> {
    let mut seen: HashSet<State> = HashSet::new();
    let mut queue: VecDeque<(State, u16)> = VecDeque::new();
    seen.insert(start);
    queue.push_back((start, 0));
    while let Some((s, d)) = queue.pop_front() {
        if d >= depth_cap {
            continue;
        }
        if !emu.step_ok(&s) {
            continue;
        }
        for input in fetcher.valid_next_inputs(&s) {
            let (ns, res) = emu.run_step(s, input);
            if goal.is_goal_state(&ns, &res) {
                return Some(d + 1);
            }
            if res == EmuResult::Success && !seen.contains(&ns) {
                seen.insert(ns);
                queue.push_back((ns, d + 1));
            }
        }
    }
    None
}

fn driver_for(
    c: &SmbOptions,
    wall: Option<usize>,
    target: i32,
) -> IDA<VecHashMap, SmbEmu<BlockGrid>, ReachXGoal, SmbInputFetcher> {
    let emu = SmbEmu::new(c.clone(), level(wall));
    let goal = ReachXGoal::new(Platform::NTSC, target);
    let fetcher = SmbInputFetcher { options: c.clone() };
    IDA::new(1000, c.clone(), emu, goal, fetcher)
}

#[test]
fn concrete_run_needs_exactly_two_steps() {
    // From 0x1800 horizontal speed on flat ground, 0x300 of distance
    // cannot be covered in one frame (at most 0x1b0) but can in two.
    let c = w11_options();
    let start = runner_start();
    let target = start.x_pos + 0x300;
    let mut driver = driver_for(&c, None, target);
    let starts = vec![start];
    match driver.find_first_solution(&starts, 0) {
        SearchResult::Found(states, inputs) => {
            assert_eq!(inputs.len(), 2);
            assert_eq!(states.len(), 3);
            assert_eq!(states[0], start);
            assert!(states[2].x_pos >= target);
        },
        SearchResult::NotFound => panic!("expected a two-step solution"),
    }
}

#[test]
fn search_result_matches_breadth_first_shortest_path() {
    let c = w11_options();
    let start = runner_start();
    let target = start.x_pos + 0x800;
    let emu = SmbEmu::new(c.clone(), level(None));
    let goal = ReachXGoal::new(Platform::NTSC, target);
    let fetcher = SmbInputFetcher { options: c.clone() };
    let expected = bfs_shortest(&emu, &fetcher, &goal, start, 40).expect("reachable");
    let mut driver = driver_for(&c, None, target);
    let starts = vec![start];
    match driver.find_first_solution(&starts, 0) {
        SearchResult::Found(_states, inputs) => {
            assert_eq!(inputs.len() as u16, expected);
        },
        SearchResult::NotFound => panic!("expected a solution"),
    }
}

#[test]
fn search_over_a_wall_finds_a_replayable_route() {
    // The wall makes the straight-line estimate an underestimate, so the
    // driver must raise its bound and relax stored distances repeatedly.
    let c = w11_options();
    let start = runner_start();
    let wall = Some(4usize);
    let target = 0x6000;
    let emu = SmbEmu::new(c.clone(), level(wall));
    let goal = ReachXGoal::new(Platform::NTSC, target);
    let mut driver = driver_for(&c, wall, target);
    let starts = vec![start];
    let (states, inputs) = match driver.find_first_solution(&starts, 0) {
        SearchResult::Found(states, inputs) => (states, inputs),
        SearchResult::NotFound => panic!("expected a solution over the wall"),
    };
    // Replay the returned inputs through the step function: the driver's
    // contract says the path is a real run.
    let mut s = states[0];
    for (i, input) in inputs.iter().enumerate() {
        let (ns, res) = emu.run_step(s, *input);
        assert_eq!(ns, states[i + 1]);
        if i + 1 < inputs.len() {
            assert_eq!(res, EmuResult::Success);
        } else {
            assert!(goal.is_goal_state(&ns, &res));
        }
        s = ns;
    }
}

#[test]
fn incremental_restart_equals_fresh_search() {
    // One driver walks the bound up from zero (relaxing its stored
    // distances between passes); a fresh driver starts at the final
    // bound. Both must report the same shortest length.
    let c = w11_options();
    let start = runner_start();
    let wall = Some(4usize);
    let target = 0x6000;
    let starts = vec![start];
    let mut incremental = driver_for(&c, wall, target);
    let incremental_len = match incremental.find_first_solution(&starts, 0) {
        SearchResult::Found(_s, i) => i.len(),
        SearchResult::NotFound => panic!("expected a solution"),
    };
    let mut fresh = driver_for(&c, wall, target);
    let fresh_len = match fresh.find_first_solution(&starts, incremental_len as u16) {
        SearchResult::Found(_s, i) => i.len(),
        SearchResult::NotFound => panic!("expected a solution"),
    };
    assert_eq!(incremental_len, fresh_len);
}

#[test]
fn heuristic_is_admissible_along_an_optimal_path() {
    let c = w11_options();
    let start = runner_start();
    let target = start.x_pos + 0x800;
    let goal = ReachXGoal::new(Platform::NTSC, target);
    let mut driver = driver_for(&c, None, target);
    let starts = vec![start];
    let states = match driver.find_first_solution(&starts, 0) {
        SearchResult::Found(states, _i) => states,
        SearchResult::NotFound => panic!("expected a solution"),
    };
    let total = states.len() - 1;
    for (i, s) in states.iter().enumerate() {
        if let Some(h) = goal.distance_to_goal_heuristic(s, i as u16) {
            assert!((h as usize) <= total - i, "inadmissible estimate at step {}", i);
        }
    }
}

#[test]
fn bounded_pass_reports_not_found_when_no_path_fits() {
    let c = w11_options();
    let start = runner_start();
    // Far target, three-step budget: the pass must give up cleanly.
    let mut driver = driver_for(&c, None, 0x100000 - 0x1000);
    match driver.find_first_solution_rec(start, 0, 3) {
        SearchResult::NotFound => {},
        SearchResult::Found(_s, _i) => panic!("no path of three steps reaches the far target"),
    }
}

#[test]
fn running_off_an_edge_with_cleared_fractionals_is_invalid() {
    // With the fractional-clearing behavior, a standing state that turns
    // out to be unsupported is flagged rather than simulated onward.
    let mut c = w11_options();
    c.y_pos_fractional_behavior = YPosFractionalBehavior::ClearYPosFractionals;
    let emu = SmbEmu::new(c.clone(), BlockGrid::new(Vec::new()));
    let s = w11_start(Platform::NTSC);
    let (_ns, res) = emu.run_step(s, 0);
    assert_eq!(res, EmuResult::InvalidStateFallingWithClearedYposFractionals);
}
