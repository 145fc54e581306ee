//! Search scenarios: each names its configuration, level collision map,
//! start states and goal, and the start-state transformers that widen a
//! start set over unknown sub-pixel values.

use vstd::prelude::*;
use crate::blockbuffer::BlockBuffer;
use crate::emu::{Emu, SmbEmu};
use crate::heuristics::SearchGoal;
use crate::ida::{IDA, SearchResult, SmbInputFetcher};
use crate::options::SmbOptions;
use crate::state::{Dir, Dist, State};
use crate::store::{StateStore, VecHashMap, MAX_STORE_SIZE};

pub mod w11;
pub mod w12;
pub mod w13;
pub mod w14;
pub mod w22;
pub mod w23;
pub mod w31;
pub mod w32;
pub mod w33;
pub mod w44;
pub mod w62;

verus! {

/// Each start state, with the facing direction forced left and right.
pub fn with_left_and_right_facing_dir(states: Vec<State>) -> (r: Vec<State>)
    ensures
        r@.len() == 2 * states@.len(),
        forall|k: int|
            0 <= k < r@.len() ==> #[trigger] r@[k] == (State {
                facing_dir: if k % 2 == 0 { Dir::Left } else { Dir::Right },
                ..states@[k / 2]
            }),
{
    let n: usize = states.len();
    let mut r: Vec<State> = Vec::new();
    let mut i: usize = 0;
    while i < n
        invariant
            i <= n,
            n == states@.len(),
            r@.len() == 2 * i,
            forall|k: int|
                0 <= k < r@.len() ==> #[trigger] r@[k] == (State {
                    facing_dir: if k % 2 == 0 { Dir::Left } else { Dir::Right },
                    ..states@[k / 2]
                }),
        decreases n - i,
    {
        let s = states[i];
        proof {
            vstd::arithmetic::div_mod::lemma_fundamental_div_mod_converse(2 * i, 2, i as int, 0);
            vstd::arithmetic::div_mod::lemma_fundamental_div_mod_converse(
                2 * i + 1,
                2,
                i as int,
                1,
            );
        }
        r.push(State { facing_dir: Dir::Left, ..s });
        r.push(State { facing_dir: Dir::Right, ..s });
        i = i + 1;
    }
    r
}

/// Each start state, with the facing direction forced left, right and both.
pub fn with_left_and_right_and_lr_facing_dir(states: Vec<State>) -> (r: Vec<State>)
    ensures
        r@.len() == 3 * states@.len(),
        forall|k: int|
            0 <= k < r@.len() ==> #[trigger] r@[k] == (State {
                facing_dir: if k % 3 == 0 {
                    Dir::Left
                } else if k % 3 == 1 {
                    Dir::Right
                } else {
                    Dir::Lr
                },
                ..states@[k / 3]
            }),
{
    let n: usize = states.len();
    let mut r: Vec<State> = Vec::new();
    let mut i: usize = 0;
    while i < n
        invariant
            i <= n,
            n == states@.len(),
            r@.len() == 3 * i,
            forall|k: int|
                0 <= k < r@.len() ==> #[trigger] r@[k] == (State {
                    facing_dir: if k % 3 == 0 {
                        Dir::Left
                    } else if k % 3 == 1 {
                        Dir::Right
                    } else {
                        Dir::Lr
                    },
                    ..states@[k / 3]
                }),
        decreases n - i,
    {
        let s = states[i];
        proof {
            vstd::arithmetic::div_mod::lemma_fundamental_div_mod_converse(3 * i, 3, i as int, 0);
            vstd::arithmetic::div_mod::lemma_fundamental_div_mod_converse(
                3 * i + 1,
                3,
                i as int,
                1,
            );
            vstd::arithmetic::div_mod::lemma_fundamental_div_mod_converse(
                3 * i + 2,
                3,
                i as int,
                2,
            );
        }
        r.push(State { facing_dir: Dir::Left, ..s });
        r.push(State { facing_dir: Dir::Right, ..s });
        r.push(State { facing_dir: Dir::Lr, ..s });
        i = i + 1;
    }
    r
}

/// Each start state, shifted left by every whole sub-pixel up to
/// `num_subpixels`.
pub fn with_smaller_x_pos(states: Vec<State>, num_subpixels: i32) -> (r: Vec<State>)
    requires
        0 <= num_subpixels <= 0x1000,
        forall|i: int| 0 <= i < states@.len() ==> -0x1000000 < (#[trigger] states@[i]).x_pos
            < 0x1000000,
    ensures
        r@.len() == (num_subpixels + 1) * states@.len(),
        forall|k: int|
            0 <= k < r@.len() ==> #[trigger] r@[k] == (State {
                x_pos: (states@[k / (num_subpixels + 1)].x_pos - (k % (num_subpixels + 1))
                    * 16) as i32,
                ..states@[k / (num_subpixels + 1)]
            }),
{
    let n: usize = states.len();
    let mut r: Vec<State> = Vec::new();
    let mut i: usize = 0;
    while i < n
        invariant
            i <= n,
            n == states@.len(),
            0 <= num_subpixels <= 0x1000,
            forall|k: int| 0 <= k < states@.len() ==> -0x1000000 < (#[trigger] states@[k]).x_pos
                < 0x1000000,
            r@.len() == i * (num_subpixels + 1),
            forall|k: int|
                0 <= k < r@.len() ==> #[trigger] r@[k] == (State {
                    x_pos: (states@[k / (num_subpixels + 1)].x_pos - (k % (num_subpixels + 1))
                        * 16) as i32,
                    ..states@[k / (num_subpixels + 1)]
                }),
        decreases n - i,
    {
        let s = states[i];
        let mut d: i32 = 0;
        while d <= num_subpixels
            invariant
                0 <= d <= num_subpixels + 1,
                0 <= num_subpixels <= 0x1000,
                -0x1000000 < s.x_pos < 0x1000000,
                s == states@[i as int],
                i < n,
                n == states@.len(),
                forall|k: int| 0 <= k < states@.len() ==> -0x1000000 < (
                #[trigger] states@[k]).x_pos < 0x1000000,
                r@.len() == i * (num_subpixels + 1) + d,
                forall|k: int|
                    0 <= k < r@.len() ==> #[trigger] r@[k] == (State {
                        x_pos: (states@[k / (num_subpixels + 1)].x_pos - (k % (num_subpixels + 1))
                            * 16) as i32,
                        ..states@[k / (num_subpixels + 1)]
                    }),
            decreases num_subpixels + 1 - d,
        {
            proof {
                vstd::arithmetic::div_mod::lemma_fundamental_div_mod_converse(
                    i * (num_subpixels + 1) + d,
                    num_subpixels + 1,
                    i as int,
                    d as int,
                );
            }
            r.push(State { x_pos: s.x_pos - d * 16, ..s });
            d = d + 1;
        }
        proof {
            assert((i + 1) * (num_subpixels + 1) == i * (num_subpixels + 1) + (num_subpixels
                + 1)) by (nonlinear_arith);
        }
        i = i + 1;
    }
    proof {
        assert(n * (num_subpixels + 1) == (num_subpixels + 1) * states@.len()) by (nonlinear_arith)
            requires
                n == states@.len(),
        {
        }
    }
    r
}

/// Each start state, with every possible sub-pixel part of the horizontal
/// speed (the codec keeps the speed above its two lowest bits).
pub fn with_all_x_spd_subpixels(states: Vec<State>) -> (r: Vec<State>)
    ensures
        r@.len() == 0x40 * states@.len(),
        forall|k: int|
            0 <= k < r@.len() ==> #[trigger] r@[k] == (State {
                x_spd: (states@[k / 0x40].x_spd - states@[k / 0x40].x_spd as int % 256 + (k % 0x40)
                    * 4) as i16,
                ..states@[k / 0x40]
            }),
{
    let n: usize = states.len();
    let mut r: Vec<State> = Vec::new();
    let mut i: usize = 0;
    while i < n
        invariant
            i <= n,
            n == states@.len(),
            r@.len() == i * 0x40,
            forall|k: int|
                0 <= k < r@.len() ==> #[trigger] r@[k] == (State {
                    x_spd: (states@[k / 0x40].x_spd - states@[k / 0x40].x_spd as int % 256 + (k
                        % 0x40) * 4) as i16,
                    ..states@[k / 0x40]
                }),
        decreases n - i,
    {
        let s = states[i];
        let frac32: i32 = {
            let m = (s.x_spd as i32) % 256;
            if m < 0 {
                m + 256
            } else {
                m
            }
        };
        let base: i16 = (s.x_spd as i32 - frac32) as i16;
        proof {
            assert(frac32 == s.x_spd as int % 256);
        }
        let mut d: i16 = 0;
        while d < 0x40
            invariant
                0 <= d <= 0x40,
                i < n,
                n == states@.len(),
                s == states@[i as int],
                base as int == s.x_spd as int - s.x_spd as int % 256,
                -0x8000 <= base <= 0x7f00,
                r@.len() == i * 0x40 + d,
                forall|k: int|
                    0 <= k < r@.len() ==> #[trigger] r@[k] == (State {
                        x_spd: (states@[k / 0x40].x_spd - states@[k / 0x40].x_spd as int % 256 + (k
                            % 0x40) * 4) as i16,
                        ..states@[k / 0x40]
                    }),
            decreases 0x40 - d,
        {
            proof {
                vstd::arithmetic::div_mod::lemma_fundamental_div_mod_converse(
                    i * 0x40 + d,
                    0x40,
                    i as int,
                    d as int,
                );
            }
            r.push(State { x_spd: base + d * 4, ..s });
            d = d + 1;
        }
        i = i + 1;
    }
    r
}

/// Each start state, with every possible sub-pixel part of the vertical
/// position (the codec keeps positions above their lowest bit).
pub fn with_all_y_pos_subpixels(states: Vec<State>) -> (r: Vec<State>)
    requires
        forall|i: int| 0 <= i < states@.len() ==> 0 <= (#[trigger] states@[i]).y_pos < 0x1000000,
    ensures
        r@.len() == 0x80 * states@.len(),
        forall|k: int|
            0 <= k < r@.len() ==> #[trigger] r@[k] == (State {
                y_pos: (states@[k / 0x80].y_pos - states@[k / 0x80].y_pos as int % 256 + (k % 0x80)
                    * 2) as i32,
                ..states@[k / 0x80]
            }),
{
    let n: usize = states.len();
    let mut r: Vec<State> = Vec::new();
    let mut i: usize = 0;
    while i < n
        invariant
            i <= n,
            n == states@.len(),
            forall|k: int| 0 <= k < states@.len() ==> 0 <= (#[trigger] states@[k]).y_pos
                < 0x1000000,
            r@.len() == i * 0x80,
            forall|k: int|
                0 <= k < r@.len() ==> #[trigger] r@[k] == (State {
                    y_pos: (states@[k / 0x80].y_pos - states@[k / 0x80].y_pos as int % 256 + (k
                        % 0x80) * 2) as i32,
                    ..states@[k / 0x80]
                }),
        decreases n - i,
    {
        let s = states[i];
        let base: i32 = s.y_pos - s.y_pos % 256;
        let mut d: i32 = 0;
        while d < 0x80
            invariant
                0 <= d <= 0x80,
                i < n,
                n == states@.len(),
                s == states@[i as int],
                0 <= s.y_pos < 0x1000000,
                base == s.y_pos as int - s.y_pos as int % 256,
                r@.len() == i * 0x80 + d,
                forall|k: int|
                    0 <= k < r@.len() ==> #[trigger] r@[k] == (State {
                        y_pos: (states@[k / 0x80].y_pos - states@[k / 0x80].y_pos as int % 256 + (k
                            % 0x80) * 2) as i32,
                        ..states@[k / 0x80]
                    }),
            decreases 0x80 - d,
        {
            proof {
                vstd::arithmetic::div_mod::lemma_fundamental_div_mod_converse(
                    i * 0x80 + d,
                    0x80,
                    i as int,
                    d as int,
                );
            }
            r.push(State { y_pos: base + d * 2, ..s });
            d = d + 1;
        }
        i = i + 1;
    }
    r
}

/// A complete scenario: configuration, collision map, start states, goal.
pub trait SmbSearchCase: Sized {
    type CaseGoal: SearchGoal;

    type CaseBuffer: BlockBuffer;

    fn options() -> (r: SmbOptions)
        ensures
            r.wf(),
    ;

    fn block_buffer() -> Self::CaseBuffer;

    fn search_goal() -> Self::CaseGoal;

    fn start_states() -> Vec<State>;

    fn initial_search_distance() -> Dist {
        0
    }

    fn search_space_size_hint() -> (r: usize)
        ensures
            r <= MAX_STORE_SIZE,
    {
        10
    }
}

/// Anything that can be run as one self-contained search job.
pub trait Case: Sized {
    fn run_to_end() -> (r: SearchResult);
}

/// A scenario over this game's step function; running it means searching
/// it with the standard driver.
pub trait SmbCase: Sized {
    fn run_search() -> (r: SearchResult);
}

impl<T: SmbSearchCase> SmbCase for T {
    fn run_search() -> (r: SearchResult) {
        run_case::<T>()
    }
}

impl<T: SmbCase> Case for T {
    fn run_to_end() -> (r: SearchResult) {
        T::run_search()
    }
}

/// Runs a scenario's search to completion (or exhaustion of the bound
/// space), returning the driver's answer. The full `Found` guarantee (a
/// real goal-reaching run of the scenario's step function) is the
/// driver's (`IDA::find_first_solution`); the shape of the answer is
/// restated here.
pub fn run_case<C: SmbSearchCase>() -> (r: SearchResult)
    ensures
        r matches SearchResult::Found(states, inputs) ==> states@.len() == inputs@.len() + 1
            && inputs@.len() >= 1,
{
    let options = C::options();
    let emu = SmbEmu::new(options, C::block_buffer());
    let fetcher = SmbInputFetcher { options: C::options() };
    let goal = C::search_goal();
    let mut driver: IDA<VecHashMap, SmbEmu<C::CaseBuffer>, C::CaseGoal, SmbInputFetcher> =
        IDA::new(C::search_space_size_hint(), C::options(), emu, goal, fetcher);
    let starts = C::start_states();
    driver.find_first_solution(&starts, C::initial_search_distance())
}

} // verus!
