//! The one-frame physics and collision step: given a state and a
//! controller input, produce the successor state and a result tag. The
//! step is a pure, deterministic function; every routine is verified to
//! compute exactly its specification-level mirror.

use vstd::prelude::*;
use crate::blockbuffer::{BlockBuffer, is_coin, is_solid, is_climb, is_hidden_block,
    is_question_block, spec_is_coin, spec_is_solid, spec_is_climb, spec_is_hidden_block,
    spec_is_question_block};
use crate::options::{SmbOptions, Platform};
use crate::state::{Dir, PlayerState, State};

verus! {

/// One frame of controller input, as a bitmask.
pub type Input = u8;

pub const INPUT_A: u8 = 0x80;

pub const INPUT_B: u8 = 0x40;

pub const INPUT_SELECT: u8 = 0x20;

pub const INPUT_START: u8 = 0x10;

pub const INPUT_UP: u8 = 0x08;

pub const INPUT_DOWN: u8 = 0x04;

pub const INPUT_LEFT: u8 = 0x02;

pub const INPUT_RIGHT: u8 = 0x01;

/// How a simulation step ended: an ordinary frame, or one of the special
/// transitions that end the scenario's segment, or a state the scenario
/// discards as unreachable.
#[derive(Clone, Copy, PartialEq, Eq, Structural, Debug)]
pub enum EmuResult {
    Success,
    StateChangeAxe(usize, usize),
    StateChangeVerticalPipe(usize, usize),
    StateChangeSidePipe(usize, usize),
    StateChangeFlag(usize, usize),
    StateChangeVineAutoclimb(usize, usize),
    HitVine(usize, usize),
    InvalidStateFallingWithClearedYposFractionals,
}

/// A block-buffer probe: either empty space or a block value at a cell.
#[derive(Clone, Copy, PartialEq, Eq, Structural, Debug)]
pub enum CollisionResult {
    NoCollision,
    Collision(u8, usize, usize),
}

/// Floor division (rounds toward negative infinity, like an arithmetic
/// shift), matching the spec-level `/` on `int`.
fn div_floor_i32(x: i32, d: i32) -> (r: i32)
    requires
        0 < d,
    ensures
        r as int == x as int / d as int,
{
    proof {
        assert(i32::MIN <= x as int / d as int <= i32::MAX) by (nonlinear_arith)
            requires
                i32::MIN <= x <= i32::MAX,
                0 < d,
        {
        }
    }
    match x.checked_div_euclid(d) {
        Option::Some(q) => q,
        Option::None => {
            proof {
                assert(false);
            }
            0
        },
    }
}

/// Euclidean remainder, matching the spec-level `%` on `int`.
fn rem_euclid_i32(x: i32, d: i32) -> (r: i32)
    requires
        0 < d,
    ensures
        r as int == x as int % d as int,
        0 <= r < d,
{
    proof {
        vstd::arithmetic::div_mod::lemma_mod_bound(x as int, d as int);
    }
    match x.checked_rem_euclid(d) {
        Option::Some(q) => q,
        Option::None => {
            proof {
                assert(false);
            }
            0
        },
    }
}

/// The low byte of a 16-bit speed, as a non-negative fractional part.
pub open spec fn spec_low8(x: i16) -> i16 {
    (x as int % 256) as i16
}

fn low8(x: i16) -> (r: i16)
    ensures
        r == spec_low8(x),
        0 <= r < 256,
{
    let r32 = rem_euclid_i32(x as i32, 256);
    r32 as i16
}

/// Horizontal block-buffer probe offsets: the same seven column probes for
/// each of the three player heights.
pub open spec fn spec_bb_x_adder(i: int) -> u16 {
    let j = i % 7;
    if j == 0 { 0x800 } else if j == 1 { 0x300 } else if j == 2 { 0xc00 }
    else if j == 3 { 0x200 } else if j == 4 { 0x200 } else if j == 5 { 0xd00 } else { 0xd00 }
}

fn bb_x_adder(i: usize) -> (r: u16)
    requires
        i < 21,
    ensures
        r == spec_bb_x_adder(i as int),
{
    let j: usize = i % 7;
    if j == 0 { 0x800 } else if j == 1 { 0x300 } else if j == 2 { 0xc00 }
    else if j == 3 { 0x200 } else if j == 4 { 0x200 } else if j == 5 { 0xd00 } else { 0xd00 }
}

/// Vertical block-buffer probe offsets: head, feet and side rows for the
/// three player heights (big, swimming, small or crouching).
pub open spec fn spec_bb_y_adder(i: int) -> u16 {
    let row = i / 7;
    let j = i % 7;
    if j == 0 {
        if row == 0 { 0x400 } else if row == 1 { 0x200 } else { 0x1200 }
    } else if j == 1 || j == 2 {
        0x2000
    } else if j == 3 {
        if row == 2 { 0x1800 } else { 0x800 }
    } else if j == 4 {
        0x1800
    } else if j == 5 {
        if row == 2 { 0x1800 } else { 0x800 }
    } else {
        0x1800
    }
}

fn bb_y_adder(i: usize) -> (r: u16)
    requires
        i < 21,
    ensures
        r == spec_bb_y_adder(i as int),
{
    let row: usize = i / 7;
    let j: usize = i % 7;
    if j == 0 {
        if row == 0 { 0x400 } else if row == 1 { 0x200 } else { 0x1200 }
    } else if j == 1 || j == 2 {
        0x2000
    } else if j == 3 {
        if row == 2 { 0x1800 } else { 0x800 }
    } else if j == 4 {
        0x1800
    } else if j == 5 {
        if row == 2 { 0x1800 } else { 0x800 }
    } else {
        0x1800
    }
}

/// Horizontal positions on a climbable tile, indexed by facing direction.
pub open spec fn spec_climb_x_pos_adder(i: int) -> i32 {
    if i == 0 { 0x8a } else if i == 1 { 0xf9 } else if i == 2 { 0x7 } else { 0xff }
}

fn climb_x_pos_adder(i: usize) -> (r: i32)
    requires
        i < 4,
    ensures
        r == spec_climb_x_pos_adder(i as int),
{
    if i == 0 { 0x8a } else if i == 1 { 0xf9 } else if i == 2 { 0x7 } else { 0xff }
}

/// Page adjustments on a climbable tile, indexed by facing direction.
pub open spec fn spec_climb_page_loc_adder(i: int) -> i32 {
    if i == 0 { 0x7 } else if i == 1 { 0xff } else if i == 2 { 0x0 } else { 0x18 }
}

fn climb_page_loc_adder(i: usize) -> (r: i32)
    requires
        i < 4,
    ensures
        r == spec_climb_page_loc_adder(i as int),
{
    if i == 0 { 0x7 } else if i == 1 { 0xff } else if i == 2 { 0x0 } else { 0x18 }
}

/// The working registers of one simulation step.
pub(crate) struct Machine {
    pub s: State,
    pub joypad: Input,
    pub joypad_lr: Dir,
    pub joypad_ud: Input,
    pub max_speed_left: i16,
    pub max_speed_right: i16,
    pub friction: i16,
    pub started_jump: bool,
    pub started_on_ground: bool,
    pub x_scroll: i32,
    pub side_collision: bool,
}

/// States the step function accepts: the driver prunes anything outside
/// these bounds before stepping, mirroring the safety bounds the search
/// enforces anyway.
pub open spec fn steppable(c: SmbOptions, s: State) -> bool {
    &&& 0x1000 <= s.x_pos < 0x100000
    &&& 0xd000 <= s.y_pos < 0x1d000
    &&& -0x4000 < s.x_spd < 0x4000
    &&& -0x800 < s.y_spd < 0x800
    &&& !(s.player_state is CLIMBING)
    &&& s.parity < c.parity.spec_parity_value()
}

impl Machine {
    /// Bounds that hold of the machine whenever a sub-routine runs.
    pub(crate) open spec fn bounded(self) -> bool {
        &&& 0x100 <= self.s.x_pos < 0x110000
        &&& 0 <= self.s.y_pos < 0x1d800
        &&& -0x4400 < self.s.x_spd < 0x4400
        &&& -0x1100 < self.s.y_spd < 0x1100
    }

    /// Speed limits and friction as configured by the physics routine.
    pub(crate) open spec fn physics_set(self) -> bool {
        &&& 0 < self.friction <= 0x380
        &&& 0x800 <= self.max_speed_right <= 0x3000
        &&& -0x3000 <= self.max_speed_left <= -0x800
    }

    #[verifier::opaque]
    pub(crate) open spec fn spec_get_player_anim_speed(self, c: SmbOptions) -> Machine {
        let p = c.platform;
        if self.s.x_spd_abs >= p.spec_x_spd_abs_cutoff(4) {
            Machine { s: State { running_speed: true, ..self.s }, ..self }
        } else if self.joypad & 0x7f == 0 && Dir::spec_from_low_bits(self.joypad)
            == self.s.moving_dir {
            Machine { s: State { running_speed: false, ..self.s }, ..self }
        } else if self.joypad & 0x7f == 0 && self.s.x_spd_abs < p.spec_x_spd_abs_cutoff(1) {
            Machine { s: State { moving_dir: self.s.facing_dir, x_spd: 0, ..self.s }, ..self }
        } else {
            self
        }
    }

    /// Decides whether the player keeps running speed, stops running, or
    /// comes to a halt, from the speed class and the held directions.
    fn get_player_anim_speed(&mut self, c: &SmbOptions)
        ensures
            *final(self) == old(self).spec_get_player_anim_speed(*c),
            final(self).s.x_pos == old(self).s.x_pos,
            final(self).s.y_pos == old(self).s.y_pos,
            final(self).s.y_spd == old(self).s.y_spd,
            final(self).s.x_spd == old(self).s.x_spd || final(self).s.x_spd == 0,
            final(self).friction == old(self).friction,
            final(self).max_speed_left == old(self).max_speed_left,
            final(self).max_speed_right == old(self).max_speed_right,
            final(self).joypad_lr == old(self).joypad_lr,
            final(self).joypad == old(self).joypad,
    {
        proof {
            reveal(Machine::spec_get_player_anim_speed);
        }
        let p = c.platform;
        if self.s.x_spd_abs >= p.x_spd_abs_cutoff(4) {
            self.s.running_speed = true;
        } else if self.joypad & 0x7f == 0 && Dir::from_low_bits(self.joypad).bits()
            == self.s.moving_dir.bits() {
            proof {
                assert(Dir::spec_from_low_bits(self.joypad) == self.s.moving_dir);
            }
            self.s.running_speed = false;
        } else if self.joypad & 0x7f == 0 && self.s.x_spd_abs < p.x_spd_abs_cutoff(1) {
            self.s.moving_dir = self.s.facing_dir;
            self.s.x_spd = 0;
        }
    }

    #[verifier::opaque]
    pub(crate) open spec fn spec_impose_friction(self, c: SmbOptions) -> Machine {
        let lr_collision = self.joypad_lr.spec_inter(self.s.collision_bits);
        let m1 = if lr_collision.spec_contains(Dir::Right) || (lr_collision is Empty
            && self.s.x_spd < 0) {
            let sp = (self.s.x_spd + self.friction) as i16;
            let sp2 = if sp >= self.max_speed_right {
                (self.max_speed_right + spec_low8(sp)) as i16
            } else {
                sp
            };
            Machine { s: State { x_spd: sp2, ..self.s }, ..self }
        } else if !(lr_collision is Empty) || self.s.x_spd >= 0x100 {
            let sp = (self.s.x_spd - self.friction) as i16;
            let sp2 = if sp <= self.max_speed_left {
                (self.max_speed_left + spec_low8(sp)) as i16
            } else {
                sp
            };
            Machine { s: State { x_spd: sp2, ..self.s }, ..self }
        } else {
            self
        };
        let raw = if m1.s.x_spd as int / 256 >= 0 {
            (m1.s.x_spd as int / 256) as u8
        } else {
            ((0 - (m1.s.x_spd as int / 256))) as u8
        };
        let p = c.platform;
        Machine {
            s: State {
                x_spd_abs: p.spec_x_spd_abs_cutoff(p.spec_x_spd_abs_cutoff_index(raw)),
                ..m1.s
            },
            ..m1
        }
    }

    /// Accelerates or decelerates along the held direction, clamps to the
    /// configured speed limit keeping the sub-pixel part, and re-derives
    /// the quantized absolute speed.
    #[verifier::rlimit(100)]
    #[verifier::spinoff_prover]
    fn impose_friction(&mut self, c: &SmbOptions)
        requires
            old(self).physics_set(),
            -0x4400 < old(self).s.x_spd < 0x4400,
        ensures
            *final(self) == old(self).spec_impose_friction(*c),
            -0x4400 < final(self).s.x_spd < 0x4400,
            final(self).s.x_pos == old(self).s.x_pos,
            final(self).s.y_pos == old(self).s.y_pos,
            final(self).s.y_spd == old(self).s.y_spd,
            final(self).joypad_lr == old(self).joypad_lr,
            final(self).joypad == old(self).joypad,
    {
        proof {
            reveal(Machine::spec_impose_friction);
        }
        let lr_collision = self.joypad_lr.inter(self.s.collision_bits);
        if lr_collision.contains(Dir::Right) || (lr_collision.is_empty() && self.s.x_spd < 0) {
            let sp: i16 = self.s.x_spd + self.friction;
            let sp2: i16 = if sp >= self.max_speed_right {
                self.max_speed_right + low8(sp)
            } else {
                sp
            };
            self.s.x_spd = sp2;
        } else if !lr_collision.is_empty() || self.s.x_spd >= 0x100 {
            let sp: i16 = self.s.x_spd - self.friction;
            let sp2: i16 = if sp <= self.max_speed_left {
                self.max_speed_left + low8(sp)
            } else {
                sp
            };
            self.s.x_spd = sp2;
        }
        let q: i32 = div_floor_i32(self.s.x_spd as i32, 256);
        let raw: u8 = if q >= 0 {
            q as u8
        } else {
            (-q) as u8
        };
        self.s.set_x_spd_abs(c.platform, raw);
    }

    #[verifier::opaque]
    pub(crate) open spec fn spec_move_horizontally(self, c: SmbOptions) -> Machine {
        let old_x = self.s.x_pos;
        let nx = (self.s.x_pos + (self.s.x_spd as int / 256) * 16) as i32;
        let m1 = Machine { s: State { x_pos: nx, ..self.s }, ..self };
        if c.scroll_pos.spec_track_scroll_pos() {
            Machine { x_scroll: (nx as int / 256 - old_x as int / 256) as i32, ..m1 }
        } else {
            m1
        }
    }

    /// Applies the horizontal speed to the position (whole sub-pixels),
    /// recording the screen-scroll delta when scrolling is tracked.
    fn move_horizontally(&mut self, c: &SmbOptions)
        requires
            -0x4400 < old(self).s.x_spd < 0x4400,
            -0x10000 <= old(self).s.x_pos < 0x200000,
        ensures
            *final(self) == old(self).spec_move_horizontally(*c),
            old(self).s.x_pos - 0x440 <= final(self).s.x_pos <= old(self).s.x_pos + 0x440,
            final(self).s.y_pos == old(self).s.y_pos,
            final(self).s.y_spd == old(self).s.y_spd,
            final(self).s.x_spd == old(self).s.x_spd,
            final(self).joypad_lr == old(self).joypad_lr,
            final(self).joypad == old(self).joypad,
    {
        proof {
            reveal(Machine::spec_move_horizontally);
        }
        let old_x: i32 = self.s.x_pos;
        let q: i32 = div_floor_i32(self.s.x_spd as i32, 256);
        self.s.x_pos = self.s.x_pos + q * 16;
        if c.scroll_pos.track_scroll_pos() {
            let d1: i32 = div_floor_i32(self.s.x_pos, 256);
            let d2: i32 = div_floor_i32(old_x, 256);
            self.x_scroll = d1 - d2;
        }
    }

    #[verifier::opaque]
    pub(crate) open spec fn spec_move_vertically(self, c: SmbOptions) -> Machine {
        let ny = (self.s.y_pos + self.s.y_spd) as i32;
        let nspd = (self.s.y_spd + self.s.v_force) as i16;
        let max_y = c.platform.spec_max_y_spd();
        let nspd2 = if nspd >= max_y && spec_low8(nspd) >= 0x80 {
            max_y
        } else {
            nspd
        };
        Machine { s: State { y_pos: ny, y_spd: nspd2, ..self.s }, ..self }
    }

    /// Applies vertical speed and gravity, clamping the fall speed at the
    /// platform's terminal velocity.
    fn move_vertically(&mut self, c: &SmbOptions)
        requires
            -0x1000 < old(self).s.y_spd < 0x1000,
            -0x10000 <= old(self).s.y_pos < 0x200000,
        ensures
            *final(self) == old(self).spec_move_vertically(*c),
            -0x1000 < final(self).s.y_spd < 0x1100,
            final(self).s.y_pos == old(self).s.y_pos + old(self).s.y_spd,
            final(self).s.x_pos == old(self).s.x_pos,
            final(self).s.x_spd == old(self).s.x_spd,
    {
        proof {
            reveal(Machine::spec_move_vertically);
        }
        self.s.y_pos = self.s.y_pos + self.s.y_spd as i32;
        let nspd: i16 = self.s.y_spd + self.s.v_force as i16;
        let max_y: i16 = c.platform.max_y_spd();
        if nspd >= max_y && low8(nspd) >= 0x80 {
            self.s.y_spd = max_y;
        } else {
            self.s.y_spd = nspd;
        }
    }

    #[verifier::opaque]
    pub(crate) open spec fn spec_scroll_handler(self, c: SmbOptions) -> Machine {
        if c.scroll_pos.spec_track_scroll_pos() {
            let rel_x_pos = (self.s.x_pos as int / 256 - self.s.left_screen_edge_pos) % 256;
            if rel_x_pos < 0x50 || self.s.side_collision_timer > 0 || self.x_scroll <= 0 {
                self
            } else {
                let scroll = if rel_x_pos < 0x70 && self.x_scroll >= 2 {
                    (self.x_scroll - 1) as i32
                } else {
                    self.x_scroll
                };
                Machine {
                    s: State {
                        left_screen_edge_pos: self.s.left_screen_edge_pos.wrapping_add(
                            scroll as u8,
                        ),
                        ..self.s
                    },
                    x_scroll: scroll,
                    ..self
                }
            }
        } else {
            self
        }
    }

    /// Advances the screen's left edge with the player, slowed near the
    /// middle of the screen and stopped after a side collision.
    fn scroll_handler(&mut self, c: &SmbOptions)
        ensures
            *final(self) == old(self).spec_scroll_handler(*c),
            final(self).s.x_pos == old(self).s.x_pos,
            final(self).s.y_pos == old(self).s.y_pos,
            final(self).s.y_spd == old(self).s.y_spd,
            final(self).s.x_spd == old(self).s.x_spd,
            final(self).s.player_state == old(self).s.player_state,
    {
        proof {
            reveal(Machine::spec_scroll_handler);
        }
        if c.scroll_pos.track_scroll_pos() {
            let d: i32 = div_floor_i32(self.s.x_pos, 256);
            let rel_x_pos: i32 = rem_euclid_i32(d - self.s.left_screen_edge_pos as i32, 256);
            if rel_x_pos < 0x50 || self.s.side_collision_timer > 0 || self.x_scroll <= 0 {
                return ;
            }
            if rel_x_pos < 0x70 && self.x_scroll >= 2 {
                self.x_scroll = self.x_scroll - 1;
            }
            self.s.left_screen_edge_pos = self.s.left_screen_edge_pos.wrapping_add(
                self.x_scroll as u8,
            );
        }
    }

    #[verifier::opaque]
    pub(crate) open spec fn spec_impede_player_move(self, c: SmbOptions, moving_dir: Dir) -> Machine {
        let m1 = if moving_dir is Right && self.s.x_spd >= 0 {
            Machine {
                s: State { x_spd: spec_low8(self.s.x_spd), x_pos: (self.s.x_pos - 0x100) as i32,
                    ..self.s },
                side_collision: if c.scroll_pos.spec_track_scroll_pos() {
                    true
                } else {
                    self.side_collision
                },
                ..self
            }
        } else if !(moving_dir is Right) && self.s.x_spd < 0x100 {
            Machine {
                s: State { x_spd: spec_low8(self.s.x_spd), x_pos: (self.s.x_pos + 0x100) as i32,
                    ..self.s },
                side_collision: if c.scroll_pos.spec_track_scroll_pos() {
                    true
                } else {
                    self.side_collision
                },
                ..self
            }
        } else {
            self
        };
        Machine {
            s: State { collision_bits: m1.s.collision_bits.spec_remove(moving_dir), ..m1.s },
            ..m1
        }
    }

    /// Stops the player against a wall: keeps only the sub-pixel speed,
    /// pushes the position back a pixel and removes the blocked side from
    /// the collision mask.
    #[verifier::rlimit(100)]
    fn impede_player_move(&mut self, c: &SmbOptions, moving_dir: Dir)
        requires
            -0x10000 <= old(self).s.x_pos < 0x200000,
        ensures
            *final(self) == old(self).spec_impede_player_move(*c, moving_dir),
            old(self).s.x_pos - 0x100 <= final(self).s.x_pos <= old(self).s.x_pos + 0x100,
            final(self).s.y_pos == old(self).s.y_pos,
            final(self).s.y_spd == old(self).s.y_spd,
    {
        proof {
            reveal(Machine::spec_impede_player_move);
        }
        let is_right = match moving_dir {
            Dir::Right => true,
            _ => false,
        };
        if is_right && self.s.x_spd >= 0 {
            self.s.x_spd = low8(self.s.x_spd);
            self.s.x_pos = self.s.x_pos - 0x100;
            if c.scroll_pos.track_scroll_pos() {
                self.side_collision = true;
            }
        } else if !is_right && self.s.x_spd < 0x100 {
            self.s.x_spd = low8(self.s.x_spd);
            self.s.x_pos = self.s.x_pos + 0x100;
            if c.scroll_pos.track_scroll_pos() {
                self.side_collision = true;
            }
        }
        self.s.collision_bits = self.s.collision_bits.remove(moving_dir);
    }

    #[verifier::opaque]
    pub(crate) open spec fn spec_start_jump(self, c: SmbOptions) -> Machine {
        let p = c.platform;
        let swim = c.swim.spec_is_swimming();
        if self.joypad & INPUT_A != 0 && (self.s.spec_is_on_ground() || (swim
            && (self.s.jump_swim_timer != 0 || self.s.y_spd >= 0))) {
            let y2 = (self.s.y_pos - self.s.y_pos as int % 256) as i32;
            let base = Machine {
                s: State { y_pos: y2, player_state: PlayerState::JUMPING, ..self.s },
                started_jump: true,
                ..self
            };
            if swim {
                let spd = p.spec_jump_velocity_swim();
                let spd2 = if y2 < 0x11400 { spec_low8(spd) } else { spd };
                Machine {
                    s: State {
                        v_force: p.spec_v_force_jump_swimming(),
                        v_force_down: p.spec_v_force_fall_swimming(),
                        y_spd: spd2,
                        ..base.s
                    },
                    ..base
                }
            } else if self.s.x_spd_abs >= p.spec_x_spd_abs_cutoff(3) {
                Machine {
                    s: State {
                        v_force: p.spec_v_force_jump_running(),
                        v_force_down: p.spec_v_force_fall_running(),
                        y_spd: p.spec_jump_velocity_fast(),
                        ..base.s
                    },
                    ..base
                }
            } else if self.s.x_spd_abs >= p.spec_x_spd_abs_cutoff(2) {
                Machine {
                    s: State {
                        v_force: p.spec_v_force_jump_walking(),
                        v_force_down: p.spec_v_force_fall_walking(),
                        y_spd: p.spec_jump_velocity_slow(),
                        ..base.s
                    },
                    ..base
                }
            } else {
                Machine {
                    s: State {
                        v_force: p.spec_v_force_jump_standing(),
                        v_force_down: p.spec_v_force_fall_standing(),
                        y_spd: p.spec_jump_velocity_slow(),
                        ..base.s
                    },
                    ..base
                }
            }
        } else {
            self
        }
    }

    /// Starts a jump when the button is pressed and the player may leave
    /// the ground (or the water allows another stroke).
    fn start_jump(&mut self, c: &SmbOptions)
        requires
            0 <= old(self).s.y_pos < 0x1d800,
            -0x1000 < old(self).s.y_spd < 0x1000,
        ensures
            *final(self) == old(self).spec_start_jump(*c),
            final(self).s.x_spd == old(self).s.x_spd,
            final(self).s.x_pos == old(self).s.x_pos,
            old(self).s.y_pos - 0x100 < final(self).s.y_pos <= old(self).s.y_pos,
            -0x1000 < final(self).s.y_spd < 0x1000,
            final(self).friction == old(self).friction,
            final(self).max_speed_left == old(self).max_speed_left,
            final(self).max_speed_right == old(self).max_speed_right,
            final(self).s.player_state == old(self).s.player_state || final(self).s.player_state is JUMPING,
            final(self).joypad_lr == old(self).joypad_lr,
            final(self).joypad == old(self).joypad,
    {
        proof {
            reveal(Machine::spec_start_jump);
        }
        let p = c.platform;
        let swim = c.swim.is_swimming();
        if self.joypad & INPUT_A != 0 && (self.s.is_on_ground() || (swim
            && (self.s.jump_swim_timer != 0 || self.s.y_spd >= 0))) {
            let frac = rem_euclid_i32(self.s.y_pos, 256);
            self.s.y_pos = self.s.y_pos - frac;
            self.started_jump = true;
            self.s.player_state = PlayerState::JUMPING;
            if swim {
                self.s.v_force = p.v_force_jump_swimming();
                self.s.v_force_down = p.v_force_fall_swimming();
                self.s.y_spd = p.jump_velocity_swim();
                if self.s.y_pos < 0x11400 {
                    self.s.y_spd = low8(self.s.y_spd);
                }
            } else if self.s.x_spd_abs >= p.x_spd_abs_cutoff(3) {
                self.s.v_force = p.v_force_jump_running();
                self.s.v_force_down = p.v_force_fall_running();
                self.s.y_spd = p.jump_velocity_fast();
            } else if self.s.x_spd_abs >= p.x_spd_abs_cutoff(2) {
                self.s.v_force = p.v_force_jump_walking();
                self.s.v_force_down = p.v_force_fall_walking();
                self.s.y_spd = p.jump_velocity_slow();
            } else {
                self.s.v_force = p.v_force_jump_standing();
                self.s.v_force_down = p.v_force_fall_standing();
                self.s.y_spd = p.jump_velocity_slow();
            }
        }
    }

    #[verifier::opaque]
    pub(crate) open spec fn spec_x_physics(self, c: SmbOptions) -> Machine {
        let p = c.platform;
        let swim = c.swim.spec_is_swimming();
        let is_running = !swim && self.s.spec_is_on_ground() && self.joypad_lr == self.s.moving_dir
            && self.joypad & INPUT_B != 0;
        let rt = if c.running_timer.spec_use_running_timer() && is_running {
            0xau8
        } else {
            self.s.running_timer
        };
        let pair = if !self.s.spec_is_on_ground() && self.s.x_spd_abs >= p.spec_x_spd_abs_cutoff(
            3,
        ) {
            (p.spec_max_x_spd_run(), p.spec_friction_run())
        } else if !self.s.spec_is_on_ground() && self.s.running_speed {
            (p.spec_max_x_spd_walk(), p.spec_friction_walk_fast())
        } else if !self.s.spec_is_on_ground() {
            (p.spec_max_x_spd_walk(), p.spec_friction_walk_slow())
        } else if swim && !self.s.running_speed && self.s.x_spd_abs < p.spec_x_spd_abs_cutoff(5) {
            (p.spec_max_x_spd_swim(), p.spec_friction_walk_slow())
        } else if swim {
            (p.spec_max_x_spd_swim(), p.spec_friction_walk_fast())
        } else if self.joypad_lr == self.s.moving_dir && ((c.running_timer.spec_use_running_timer()
            && rt > 0) || (!c.running_timer.spec_use_running_timer() && is_running)) {
            (p.spec_max_x_spd_run(), p.spec_friction_run())
        } else if !self.s.running_speed && self.s.x_spd_abs < p.spec_x_spd_abs_cutoff(5) {
            (p.spec_max_x_spd_walk(), p.spec_friction_walk_slow())
        } else {
            (p.spec_max_x_spd_walk(), p.spec_friction_walk_fast())
        };
        let fric = if self.s.facing_dir != self.s.moving_dir {
            (pair.1 * 2) as i16
        } else {
            pair.1
        };
        Machine {
            s: State { running_timer: rt, ..self.s },
            max_speed_right: pair.0,
            max_speed_left: (0 - pair.0) as i16,
            friction: fric,
            ..self
        }
    }

    /// Chooses this frame's speed limit and friction class, and arms the
    /// running timer while running.
    #[verifier::rlimit(100)]
    fn x_physics(&mut self, c: &SmbOptions)
        ensures
            *final(self) == old(self).spec_x_physics(*c),
            final(self).physics_set(),
            final(self).s == (State { running_timer: final(self).s.running_timer, ..old(self).s }),
            final(self).joypad == old(self).joypad,
            final(self).joypad_lr == old(self).joypad_lr,
            final(self).joypad_ud == old(self).joypad_ud,
            final(self).started_jump == old(self).started_jump,
    {
        proof {
            reveal(Machine::spec_x_physics);
        }
        let p = c.platform;
        let swim = c.swim.is_swimming();
        let is_running: bool = !swim && self.s.is_on_ground() && self.joypad_lr.bits()
            == self.s.moving_dir.bits() && self.joypad & INPUT_B != 0;
        proof {
            assert(is_running == (!c.swim.spec_is_swimming() && self.s.spec_is_on_ground()
                && self.joypad_lr == self.s.moving_dir && self.joypad & INPUT_B != 0));
        }
        if c.running_timer.use_running_timer() && is_running {
            self.s.running_timer = 0xa;
        }
        let rt: u8 = self.s.running_timer;
        let pair: (i16, i16) = if !self.s.is_on_ground() && self.s.x_spd_abs
            >= p.x_spd_abs_cutoff(3) {
            (p.max_x_spd_run(), p.friction_run())
        } else if !self.s.is_on_ground() && self.s.running_speed {
            (p.max_x_spd_walk(), p.friction_walk_fast())
        } else if !self.s.is_on_ground() {
            (p.max_x_spd_walk(), p.friction_walk_slow())
        } else if swim && !self.s.running_speed && self.s.x_spd_abs < p.x_spd_abs_cutoff(5) {
            (p.max_x_spd_swim(), p.friction_walk_slow())
        } else if swim {
            (p.max_x_spd_swim(), p.friction_walk_fast())
        } else if self.joypad_lr.bits() == self.s.moving_dir.bits() && ((
        c.running_timer.use_running_timer() && rt > 0) || (!c.running_timer.use_running_timer()
            && is_running)) {
            (p.max_x_spd_run(), p.friction_run())
        } else if !self.s.running_speed && self.s.x_spd_abs < p.x_spd_abs_cutoff(5) {
            (p.max_x_spd_walk(), p.friction_walk_slow())
        } else {
            (p.max_x_spd_walk(), p.friction_walk_fast())
        };
        self.max_speed_right = pair.0;
        self.max_speed_left = -pair.0;
        if self.s.facing_dir.bits() != self.s.moving_dir.bits() {
            self.friction = pair.1 * 2;
        } else {
            self.friction = pair.1;
        }
    }

    pub(crate) open spec fn spec_player_physics_sub(self, c: SmbOptions) -> Machine {
        self.spec_start_jump(c).spec_x_physics(c)
    }

    /// Starts a jump when possible, then chooses this frame's speed limit
    /// and friction class.
    fn player_physics_sub(&mut self, c: &SmbOptions)
        requires
            0 <= old(self).s.y_pos < 0x1d800,
            -0x1000 < old(self).s.y_spd < 0x1000,
        ensures
            *final(self) == old(self).spec_player_physics_sub(*c),
            final(self).physics_set(),
            final(self).s.x_spd == old(self).s.x_spd,
            final(self).s.x_pos == old(self).s.x_pos,
            old(self).s.y_pos - 0x100 < final(self).s.y_pos <= old(self).s.y_pos,
            -0x1000 < final(self).s.y_spd < 0x1000,
            final(self).s.player_state == old(self).s.player_state || final(self).s.player_state is JUMPING,
            final(self).joypad_lr == old(self).joypad_lr,
            final(self).joypad == old(self).joypad,
    {
        self.start_jump(c);
        self.x_physics(c);
    }

    #[verifier::opaque]
    pub(crate) open spec fn spec_block_buffer_collision<B: BlockBuffer>(
        self,
        c: SmbOptions,
        b: &B,
        offset: int,
    ) -> CollisionResult {
        let off = offset + if !c.player_size.spec_is_big(self.s) || self.s.is_crouching {
            0x0eint
        } else if c.swim.spec_is_swimming() {
            0x07int
        } else {
            0int
        };
        let bx = spec_bb_x_adder(off) as int;
        let by = spec_bb_y_adder(off) as int;
        let cx = ((self.s.x_pos + bx) / 0x1000) as usize;
        let cy = (((self.s.y_pos + by - 0x2000) / 0x1000) % 0x10) as usize;
        let cv0 = b.spec_block_at(cx as int, cy as int);
        let cv1 = if spec_is_coin(cv0) && c.coin_handler.spec_is_coin_collected(self.s, cx, cy) {
            0u8
        } else {
            cv0
        };
        let cv = if spec_is_question_block(cv1) && c.powerup_handler.spec_is_activated_powerup_block(
            self.s,
            cx,
            cy,
        ) {
            0xc4u8
        } else {
            cv1
        };
        if cv == 0 {
            CollisionResult::NoCollision
        } else {
            CollisionResult::Collision(cv, cx, cy)
        }
    }

    /// Probes the collision map at one of the player's test points,
    /// treating collected coins as air and spent question blocks as solid.
    fn block_buffer_collision<B: BlockBuffer>(
        &self,
        c: &SmbOptions,
        b: &B,
        offset: usize,
    ) -> (r: CollisionResult)
        requires
            c.wf(),
            offset <= 6,
            0 <= self.s.x_pos < 0x200000,
            0x2000 <= self.s.y_pos < 0x200000,
        ensures
            r == self.spec_block_buffer_collision(*c, b, offset as int),
    {
        proof {
            reveal(Machine::spec_block_buffer_collision);
        }
        let off: usize = offset + (if !c.player_size.is_big(&self.s) || self.s.is_crouching {
            0x0e
        } else if c.swim.is_swimming() {
            0x07
        } else {
            0
        });
        let bx: usize = bb_x_adder(off) as usize;
        let by: usize = bb_y_adder(off) as usize;
        let cx: usize = (self.s.x_pos as usize + bx) / 0x1000;
        let cy: usize = ((self.s.y_pos as usize + by - 0x2000) / 0x1000) % 0x10;
        let cv0: u8 = b.get_block_at(cx, cy);
        let cv1: u8 = if is_coin(cv0) && c.coin_handler.is_coin_collected(&self.s, cx, cy) {
            0
        } else {
            cv0
        };
        let cv: u8 = if is_question_block(cv1) && c.powerup_handler.is_activated_powerup_block(
            &self.s,
            cx,
            cy,
        ) {
            0xc4
        } else {
            cv1
        };
        if cv == 0 {
            CollisionResult::NoCollision
        } else {
            CollisionResult::Collision(cv, cx, cy)
        }
    }
}

impl Machine {
    #[verifier::opaque]
    pub(crate) open spec fn spec_put_player_on_vine(self, c: SmbOptions, cx: usize) -> Machine {
        let m1 = Machine {
            s: State { player_state: PlayerState::CLIMBING, x_spd: 0, ..self.s },
            ..self
        };
        let m2 = if c.scroll_pos.spec_track_scroll_pos() && (m1.s.x_pos as int / 256
            - m1.s.left_screen_edge_pos) % 256 < 16 {
            Machine { s: State { facing_dir: Dir::Left, ..m1.s }, ..m1 }
        } else {
            m1
        };
        let fidx = m2.s.facing_dir.spec_bits() as int;
        let x_pos_b = (cx * 16 + spec_climb_x_pos_adder(fidx)) % 256;
        let x_page = if cx as int % 16 != 0 {
            m2.s.x_pos as int / 65536
        } else {
            let edge8 = if c.scroll_pos.spec_track_scroll_pos() {
                m2.s.left_screen_edge_pos as int
            } else {
                (m2.s.x_pos as int / 256 - 0x70) % 256
            };
            let x_pos_byte = m2.s.x_pos as int / 256 % 256;
            let left_page = if edge8 <= x_pos_byte {
                m2.s.x_pos as int / 65536
            } else {
                m2.s.x_pos as int / 65536 - 1
            };
            let right_page = if edge8 == 0 {
                left_page
            } else {
                left_page + 1
            };
            (right_page + spec_climb_page_loc_adder(fidx)) % 256
        };
        Machine {
            s: State {
                x_pos: (m2.s.x_pos as int % 256 + x_pos_b * 256 + x_page * 65536) as i32,
                ..m2.s
            },
            ..m2
        }
    }

    /// Snaps the player onto a climbable tile: kills horizontal speed and
    /// recomputes the horizontal position from the tile column.
    #[verifier::rlimit(100)]
    fn put_player_on_vine(&mut self, c: &SmbOptions, cx: usize)
        requires
            0 <= old(self).s.x_pos < 0x200000,
            cx < 0x1000,
        ensures
            *final(self) == old(self).spec_put_player_on_vine(*c, cx),
            0 <= final(self).s.x_pos < 0x1000000,
            final(self).s.y_pos == old(self).s.y_pos,
            final(self).s.y_spd == old(self).s.y_spd,
    {
        proof {
            reveal(Machine::spec_put_player_on_vine);
        }
        self.s.player_state = PlayerState::CLIMBING;
        self.s.x_spd = 0;
        if c.scroll_pos.track_scroll_pos() {
            let d: i32 = div_floor_i32(self.s.x_pos, 256);
            if rem_euclid_i32(d - self.s.left_screen_edge_pos as i32, 256) < 16 {
                self.s.facing_dir = Dir::Left;
            }
        }
        let fidx: usize = self.s.facing_dir.bits() as usize;
        let x_pos_b: i32 = rem_euclid_i32(cx as i32 * 16 + climb_x_pos_adder(fidx), 256);
        let x_page: i32 = if cx % 16 != 0 {
            div_floor_i32(self.s.x_pos, 65536)
        } else {
            let edge8: i32 = if c.scroll_pos.track_scroll_pos() {
                self.s.left_screen_edge_pos as i32
            } else {
                rem_euclid_i32(div_floor_i32(self.s.x_pos, 256) - 0x70, 256)
            };
            let x_pos_byte: i32 = rem_euclid_i32(div_floor_i32(self.s.x_pos, 256), 256);
            let left_page: i32 = if edge8 <= x_pos_byte {
                div_floor_i32(self.s.x_pos, 65536)
            } else {
                div_floor_i32(self.s.x_pos, 65536) - 1
            };
            let right_page: i32 = if edge8 == 0 {
                left_page
            } else {
                left_page + 1
            };
            rem_euclid_i32(right_page + climb_page_loc_adder(fidx), 256)
        };
        let frac: i32 = rem_euclid_i32(self.s.x_pos, 256);
        self.s.x_pos = frac + x_pos_b * 256 + x_page * 65536;
    }

    #[verifier::opaque]
    pub(crate) open spec fn spec_check_side_mtiles(
        self,
        c: SmbOptions,
        moving_dir: Dir,
        cv: u8,
        cx: usize,
        cy: usize,
    ) -> (Machine, EmuResult) {
        if spec_is_hidden_block(cv) {
            (self, EmuResult::Success)
        } else if spec_is_climb(cv) {
            if 6 <= self.s.x_pos as int / 256 % 16 < 10 {
                if cv == 0x24 || cv == 0x25 {
                    let m1 = Machine { s: State { facing_dir: Dir::Right, ..self.s }, ..self };
                    (m1.spec_put_player_on_vine(c, cx), EmuResult::StateChangeFlag(cx, cy))
                } else {
                    let m1 = self.spec_put_player_on_vine(c, cx);
                    if cv == 0x26 && m1.s.y_pos as int / 256 % 256 < 0x20 {
                        (m1, EmuResult::StateChangeVineAutoclimb(cx, cy))
                    } else {
                        (m1, EmuResult::HitVine(cx, cy))
                    }
                }
            } else {
                (self, EmuResult::Success)
            }
        } else if spec_is_coin(cv) {
            let m1 = Machine { s: c.coin_handler.spec_collect_coin(self.s, cx, cy), ..self };
            (m1, EmuResult::Success)
        } else if self.s.spec_is_on_ground() && self.s.facing_dir is Right && (cv == 0x6c || cv
            == 0x1f) {
            (self, EmuResult::StateChangeSidePipe(cx, cy))
        } else {
            (self.spec_impede_player_move(c, moving_dir), EmuResult::Success)
        }
    }

    /// Side-tile handling: hidden blocks pass, climbable tiles grab the
    /// player (flag, vine, or auto-climb vine), coins collect, sideways
    /// pipes may be entered, and anything else stops the player.
    #[verifier::rlimit(100)]
    #[verifier::spinoff_prover]
    fn check_side_mtiles(
        &mut self,
        c: &SmbOptions,
        moving_dir: Dir,
        cv: u8,
        cx: usize,
        cy: usize,
    ) -> (r: EmuResult)
        requires
            c.wf(),
            0x100 <= old(self).s.x_pos < 0x200000,
            0 <= old(self).s.y_pos < 0x200000,
            cx < 0x1000,
        ensures
            (*final(self), r) == old(self).spec_check_side_mtiles(*c, moving_dir, cv, cx, cy),
            final(self).s.y_pos == old(self).s.y_pos,
    {
        proof {
            reveal(Machine::spec_check_side_mtiles);
        }
        if is_hidden_block(cv) {
            return EmuResult::Success;
        } else if is_climb(cv) {
            let px: i32 = rem_euclid_i32(div_floor_i32(self.s.x_pos, 256), 16);
            if 6 <= px && px < 10 {
                if cv == 0x24 || cv == 0x25 {
                    self.s.facing_dir = Dir::Right;
                    self.put_player_on_vine(c, cx);
                    return EmuResult::StateChangeFlag(cx, cy);
                } else {
                    self.put_player_on_vine(c, cx);
                    let py: i32 = rem_euclid_i32(div_floor_i32(self.s.y_pos, 256), 256);
                    if cv == 0x26 && py < 0x20 {
                        return EmuResult::StateChangeVineAutoclimb(cx, cy);
                    } else {
                        return EmuResult::HitVine(cx, cy);
                    }
                }
            }
        } else if is_coin(cv) {
            c.coin_handler.collect_coin(&mut self.s, cx, cy);
            return EmuResult::Success;
        } else if self.s.is_on_ground() && self.s.facing_dir.bits() == 1 && (cv == 0x6c || cv
            == 0x1f) {
            proof {
                assert(self.s.facing_dir is Right);
            }
            return EmuResult::StateChangeSidePipe(cx, cy);
        } else {
            self.impede_player_move(c, moving_dir);
            return EmuResult::Success;
        }
        EmuResult::Success
    }

    #[verifier::opaque]
    pub(crate) open spec fn spec_bg_setup(self, c: SmbOptions) -> (Machine, Option<EmuResult>) {
        let st = if c.swim.spec_is_swimming() {
            PlayerState::JUMPING
        } else if self.s.player_state is STANDING || self.s.player_state is CLIMBING {
            PlayerState::FALLING
        } else {
            self.s.player_state
        };
        let m1 = Machine { s: State { player_state: st, ..self.s }, ..self };
        if m1.s.y_pos < 0x10000 || m1.s.y_pos >= 0x20000 {
            (m1, Option::Some(EmuResult::Success))
        } else {
            let m2 = Machine { s: State { collision_bits: Dir::Lr, ..m1.s }, ..m1 };
            if m2.s.y_pos >= 0x1cf00 {
                (m2, Option::Some(EmuResult::Success))
            } else {
                (m2, Option::None)
            }
        }
    }

    /// Entry of the background collision pass: settles the discrete mode
    /// and bails out when the player is above or below the playfield.
    fn bg_setup(&mut self, c: &SmbOptions) -> (r: Option<EmuResult>)
        ensures
            (*final(self), r) == old(self).spec_bg_setup(*c),
            final(self).s.y_pos == old(self).s.y_pos,
            final(self).s.x_pos == old(self).s.x_pos,
            final(self).s.y_spd == old(self).s.y_spd,
    {
        proof {
            reveal(Machine::spec_bg_setup);
        }
        if c.swim.is_swimming() {
            self.s.player_state = PlayerState::JUMPING;
        } else {
            let st = self.s.player_state;
            match st {
                PlayerState::STANDING => {
                    self.s.player_state = PlayerState::FALLING;
                },
                PlayerState::CLIMBING => {
                    self.s.player_state = PlayerState::FALLING;
                },
                _ => {},
            }
        }
        if self.s.y_pos < 0x10000 || self.s.y_pos >= 0x20000 {
            return Option::Some(EmuResult::Success);
        }
        self.s.collision_bits = Dir::Lr;
        if self.s.y_pos >= 0x1cf00 {
            return Option::Some(EmuResult::Success);
        }
        Option::None
    }

    #[verifier::opaque]
    pub(crate) open spec fn spec_head_check<B: BlockBuffer>(self, c: SmbOptions, b: &B) -> (
        Machine,
        Option<EmuResult>,
    ) {
        let threshold = if c.player_size.spec_is_big(self.s) && !self.s.is_crouching {
            0x12000int
        } else {
            0x11000int
        };
        if self.s.y_pos >= threshold {
            match self.spec_block_buffer_collision(c, b, 0) {
                CollisionResult::Collision(cv, cx, cy) => {
                    if spec_is_coin(cv) {
                        let m1 = Machine {
                            s: c.coin_handler.spec_collect_coin(self.s, cx, cy),
                            ..self
                        };
                        (m1, Option::Some(EmuResult::Success))
                    } else if self.s.y_spd < 0 && self.s.y_pos as int / 256 % 16 >= 4 {
                        if spec_is_solid(cv) || c.swim.spec_is_swimming() {
                            let m1 = Machine {
                                s: State {
                                    y_spd: (0x100 + spec_low8(self.s.y_spd)) as i16,
                                    ..self.s
                                },
                                ..self
                            };
                            (m1, Option::None)
                        } else if c.player_size.spec_is_big(self.s) && !spec_is_question_block(
                            cv,
                        ) {
                            let m1 = Machine {
                                s: State {
                                    y_spd: (spec_low8(self.s.y_spd) - 0x200) as i16,
                                    ..self.s
                                },
                                ..self
                            };
                            (m1, Option::None)
                        } else {
                            let s1 = if spec_is_question_block(cv) {
                                c.powerup_handler.spec_activate_powerup_block(self.s, cx, cy)
                            } else {
                                self.s
                            };
                            let m1 = Machine {
                                s: State { y_spd: spec_low8(s1.y_spd), ..s1 },
                                ..self
                            };
                            (m1, Option::None)
                        }
                    } else {
                        (self, Option::None)
                    }
                },
                CollisionResult::NoCollision => (self, Option::None),
            }
        } else {
            (self, Option::None)
        }
    }

    /// Head check: bumping a block from below collects coins, stops or
    /// reverses the upward speed, and may activate a powerup block.
    #[verifier::rlimit(100)]
    #[verifier::spinoff_prover]
    fn head_check<B: BlockBuffer>(&mut self, c: &SmbOptions, b: &B) -> (r: Option<EmuResult>)
        requires
            c.wf(),
            0 <= old(self).s.x_pos < 0x200000,
            0x10000 <= old(self).s.y_pos < 0x20000,
            -0x1100 < old(self).s.y_spd < 0x1100,
        ensures
            (*final(self), r) == old(self).spec_head_check(*c, b),
            final(self).s.y_pos == old(self).s.y_pos,
            final(self).s.x_pos == old(self).s.x_pos,
    {
        proof {
            reveal(Machine::spec_head_check);
        }
        let threshold: i32 = if c.player_size.is_big(&self.s) && !self.s.is_crouching {
            0x12000
        } else {
            0x11000
        };
        if self.s.y_pos >= threshold {
            match self.block_buffer_collision(c, b, 0) {
                CollisionResult::Collision(cv, cx, cy) => {
                    if is_coin(cv) {
                        c.coin_handler.collect_coin(&mut self.s, cx, cy);
                        return Option::Some(EmuResult::Success);
                    } else if self.s.y_spd < 0 && rem_euclid_i32(
                        div_floor_i32(self.s.y_pos, 256),
                        16,
                    ) >= 4 {
                        if is_solid(cv) || c.swim.is_swimming() {
                            self.s.y_spd = 0x100 + low8(self.s.y_spd);
                        } else if c.player_size.is_big(&self.s) && !is_question_block(cv) {
                            self.s.y_spd = low8(self.s.y_spd) - 0x200;
                        } else {
                            if is_question_block(cv) {
                                c.powerup_handler.activate_powerup_block(&mut self.s, cx, cy);
                            }
                            self.s.y_spd = low8(self.s.y_spd);
                        }
                    }
                },
                CollisionResult::NoCollision => {},
            }
        }
        Option::None
    }

    #[verifier::opaque]
    pub(crate) open spec fn spec_foot_check<B: BlockBuffer>(self, c: SmbOptions, b: &B) -> (
        Machine,
        Option<EmuResult>,
    ) {
        let left_foot = self.spec_block_buffer_collision(c, b, 1);
        let right_foot = self.spec_block_buffer_collision(c, b, 2);
        let right_foot_on_vert_pipe = if left_foot is NoCollision {
            false
        } else {
            right_foot matches CollisionResult::Collision(cv, _, _) && cv == 0x11
        };
        let foot = if left_foot is NoCollision {
            right_foot
        } else {
            left_foot
        };
        match foot {
            CollisionResult::Collision(cv, cx, cy) => {
                if spec_is_coin(cv) {
                    let m1 = Machine { s: c.coin_handler.spec_collect_coin(self.s, cx, cy), ..self };
                    (m1, Option::Some(EmuResult::Success))
                } else if !spec_is_climb(cv) && !spec_is_hidden_block(cv) && self.s.y_spd >= 0 {
                    if cv == 0xc5 {
                        (self, Option::Some(EmuResult::StateChangeAxe(cx, cy)))
                    } else if self.s.y_pos as int / 256 % 16 * 256
                        >= c.platform.spec_block_surface_thickness() {
                        let m1 = self.spec_impede_player_move(c, self.s.moving_dir);
                        (m1, Option::Some(EmuResult::Success))
                    } else {
                        let y2 = (self.s.y_pos - self.s.y_pos as int / 256 % 16 * 256) as i32;
                        let m1 = Machine { s: State { y_pos: y2, ..self.s }, ..self };
                        if (!m1.started_on_ground || m1.joypad_lr is Empty) && cv == 0x10
                            && right_foot_on_vert_pipe
                            && c.vertical_pipe_handler.spec_enter_vertical_pipe(cx, cy) {
                            (m1, Option::Some(EmuResult::StateChangeVerticalPipe(cx, cy)))
                        } else {
                            let m2 = Machine {
                                s: State {
                                    y_spd: 0,
                                    player_state: PlayerState::STANDING,
                                    ..m1.s
                                },
                                ..m1
                            };
                            (m2, Option::None)
                        }
                    }
                } else {
                    (self, Option::None)
                }
            },
            CollisionResult::NoCollision => (self, Option::None),
        }
    }

    /// Foot check: landing on a surface (or the axe, a coin, or the lip
    /// of an enterable vertical pipe), or being pushed out sideways when
    /// too deep inside a block.
    #[verifier::rlimit(100)]
    #[verifier::spinoff_prover]
    fn foot_check<B: BlockBuffer>(&mut self, c: &SmbOptions, b: &B) -> (r: Option<EmuResult>)
        requires
            c.wf(),
            0x100 <= old(self).s.x_pos < 0x200000,
            0x10000 <= old(self).s.y_pos < 0x20000,
        ensures
            (*final(self), r) == old(self).spec_foot_check(*c, b),
            old(self).s.y_pos - 0x1000 < final(self).s.y_pos <= old(self).s.y_pos,
            old(self).s.x_pos - 0x100 <= final(self).s.x_pos <= old(self).s.x_pos + 0x100,
    {
        proof {
            reveal(Machine::spec_foot_check);
        }
        let left_foot = self.block_buffer_collision(c, b, 1);
        let right_foot = self.block_buffer_collision(c, b, 2);
        let left_is_no = match left_foot {
            CollisionResult::NoCollision => true,
            _ => false,
        };
        let right_foot_on_vert_pipe: bool = if left_is_no {
            false
        } else {
            match right_foot {
                CollisionResult::Collision(cv, _, _) => cv == 0x11,
                _ => false,
            }
        };
        let foot = if left_is_no {
            right_foot
        } else {
            left_foot
        };
        match foot {
            CollisionResult::Collision(cv, cx, cy) => {
                if is_coin(cv) {
                    c.coin_handler.collect_coin(&mut self.s, cx, cy);
                    return Option::Some(EmuResult::Success);
                } else if !is_climb(cv) && !is_hidden_block(cv) && self.s.y_spd >= 0 {
                    if cv == 0xc5 {
                        return Option::Some(EmuResult::StateChangeAxe(cx, cy));
                    }
                    let nib: i32 = rem_euclid_i32(div_floor_i32(self.s.y_pos, 256), 16);
                    if nib * 256 >= c.platform.block_surface_thickness() {
                        let md = self.s.moving_dir;
                        self.impede_player_move(c, md);
                        return Option::Some(EmuResult::Success);
                    }
                    self.s.y_pos = self.s.y_pos - nib * 256;
                    if (!self.started_on_ground || self.joypad_lr.is_empty()) && cv == 0x10
                        && right_foot_on_vert_pipe && c.vertical_pipe_handler.enter_vertical_pipe(
                        cx,
                        cy,
                    ) {
                        return Option::Some(EmuResult::StateChangeVerticalPipe(cx, cy));
                    }
                    self.s.y_spd = 0;
                    self.s.player_state = PlayerState::STANDING;
                }
            },
            CollisionResult::NoCollision => {},
        }
        Option::None
    }

    #[verifier::opaque]
    pub(crate) open spec fn spec_side_check_one<B: BlockBuffer>(
        self,
        c: SmbOptions,
        b: &B,
        dir: Dir,
    ) -> (Machine, Option<EmuResult>) {
        let hi_off = 3 + 2 * (2 - dir.spec_bits() as int);
        let lo_off = 4 + 2 * (2 - dir.spec_bits() as int);
        let hi = if self.s.y_pos >= 0x12000 {
            self.spec_block_buffer_collision(c, b, hi_off)
        } else {
            CollisionResult::NoCollision
        };
        match hi {
            CollisionResult::Collision(cv, cx, cy) => {
                if cv != 0x1c && cv != 0x6b && !spec_is_climb(cv) {
                    let pr = self.spec_check_side_mtiles(c, dir, cv, cx, cy);
                    (pr.0, Option::Some(pr.1))
                } else {
                    let pr2 = self.spec_side_check_low(c, b, dir, lo_off);
                    (pr2.0, pr2.1)
                }
            },
            CollisionResult::NoCollision => {
                let pr2 = self.spec_side_check_low(c, b, dir, lo_off);
                (pr2.0, pr2.1)
            },
        }
    }

    pub(crate) open spec fn spec_side_check_low<B: BlockBuffer>(
        self,
        c: SmbOptions,
        b: &B,
        dir: Dir,
        lo_off: int,
    ) -> (Machine, Option<EmuResult>) {
        match self.spec_block_buffer_collision(c, b, lo_off) {
            CollisionResult::Collision(cv, cx, cy) => {
                let pr = self.spec_check_side_mtiles(c, dir, cv, cx, cy);
                (pr.0, Option::Some(pr.1))
            },
            CollisionResult::NoCollision => (self, Option::None),
        }
    }

    /// One side's wall checks: the upper probe only when low enough on
    /// the screen, then the lower probe.
    #[verifier::rlimit(100)]
    #[verifier::spinoff_prover]
    fn side_check_one<B: BlockBuffer>(&mut self, c: &SmbOptions, b: &B, dir: Dir) -> (r: Option<
        EmuResult,
    >)
        requires
            c.wf(),
            dir is Left || dir is Right,
            0x100 <= old(self).s.x_pos < 0x200000,
            0x10000 <= old(self).s.y_pos < 0x20000,
        ensures
            (*final(self), r) == old(self).spec_side_check_one(*c, b, dir),
            final(self).s.y_pos == old(self).s.y_pos,
    {
        proof {
            reveal(Machine::spec_side_check_one);
        }
        let bits: usize = dir.bits() as usize;
        let hi_off: usize = 3 + 2 * (2 - bits);
        let lo_off: usize = 4 + 2 * (2 - bits);
        if self.s.y_pos >= 0x12000 {
            match self.block_buffer_collision(c, b, hi_off) {
                CollisionResult::Collision(cv, cx, cy) => {
                    if cv != 0x1c && cv != 0x6b && !is_climb(cv) {
                        proof {
                            assert(cx < 0x1000) by {
                                reveal(Machine::spec_block_buffer_collision);
                            }
                        }
                        return Option::Some(self.check_side_mtiles(c, dir, cv, cx, cy));
                    }
                },
                CollisionResult::NoCollision => {},
            }
        }
        match self.block_buffer_collision(c, b, lo_off) {
            CollisionResult::Collision(cv, cx, cy) => {
                proof {
                    assert(cx < 0x1000) by {
                        reveal(Machine::spec_block_buffer_collision);
                    }
                }
                Option::Some(self.check_side_mtiles(c, dir, cv, cx, cy))
            },
            CollisionResult::NoCollision => Option::None,
        }
    }

    pub(crate) open spec fn spec_player_bg_collision<B: BlockBuffer>(
        self,
        c: SmbOptions,
        b: &B,
    ) -> (Machine, EmuResult) {
        let pr0 = self.spec_bg_setup(c);
        if pr0.1 is Some {
            (pr0.0, pr0.1->0)
        } else {
            let m1 = pr0.0;
            let pr1 = m1.spec_head_check(c, b);
            if pr1.1 is Some {
                (pr1.0, pr1.1->0)
            } else {
                let m2 = pr1.0;
                let pr2 = m2.spec_foot_check(c, b);
                if pr2.1 is Some {
                    (pr2.0, pr2.1->0)
                } else {
                    let m3 = pr2.0;
                    if m3.s.y_pos >= 0x10800 {
                        let pr3 = m3.spec_side_check_one(c, b, Dir::Left);
                        if pr3.1 is Some {
                            (pr3.0, pr3.1->0)
                        } else {
                            let m4 = pr3.0;
                            let pr4 = m4.spec_side_check_one(c, b, Dir::Right);
                            if pr4.1 is Some {
                                (pr4.0, pr4.1->0)
                            } else {
                                (pr4.0, EmuResult::Success)
                            }
                        }
                    } else {
                        (m3, EmuResult::Success)
                    }
                }
            }
        }
    }

    /// The full background collision pass: mode settling, head bump, foot
    /// landing, then the two side checks.
    fn player_bg_collision<B: BlockBuffer>(&mut self, c: &SmbOptions, b: &B) -> (r: EmuResult)
        requires
            c.wf(),
            0x100 <= old(self).s.x_pos < 0x200000,
            0 <= old(self).s.y_pos < 0x200000,
            -0x1100 < old(self).s.y_spd < 0x1100,
        ensures
            (*final(self), r) == old(self).spec_player_bg_collision(*c, b),
            old(self).s.y_pos - 0x1000 < final(self).s.y_pos <= old(self).s.y_pos,
    {
        match self.bg_setup(c) {
            Option::Some(res) => {
                return res;
            },
            Option::None => {},
        }
        proof {
            reveal(Machine::spec_bg_setup);
        }
        match self.head_check(c, b) {
            Option::Some(res) => {
                return res;
            },
            Option::None => {},
        }
        proof {
            reveal(Machine::spec_head_check);
        }
        match self.foot_check(c, b) {
            Option::Some(res) => {
                return res;
            },
            Option::None => {},
        }
        proof {
            reveal(Machine::spec_foot_check);
        }
        if self.s.y_pos >= 0x10800 {
            match self.side_check_one(c, b, Dir::Left) {
                Option::Some(res) => {
                    return res;
                },
                Option::None => {},
            }
            proof {
                reveal(Machine::spec_side_check_one);
            }
            match self.side_check_one(c, b, Dir::Right) {
                Option::Some(res) => {
                    return res;
                },
                Option::None => {},
            }
        }
        EmuResult::Success
    }
}

impl Machine {
    #[verifier::opaque]
    pub(crate) open spec fn spec_move_standing(self, c: SmbOptions) -> Machine {
        let m3 = self.spec_get_player_anim_speed(c);
        let m4 = if !(m3.joypad_lr is Empty) {
            Machine { s: State { facing_dir: m3.joypad_lr, ..m3.s }, ..m3 }
        } else {
            m3
        };
        m4.spec_impose_friction(c).spec_move_horizontally(c)
    }

    /// The grounded movement pipeline.
    fn move_standing(&mut self, c: &SmbOptions)
        requires
            old(self).physics_set(),
            -0x4400 < old(self).s.x_spd < 0x4400,
            -0x10000 <= old(self).s.x_pos < 0x200000 - 0x800,
        ensures
            *final(self) == old(self).spec_move_standing(*c),
            old(self).s.x_pos - 0x440 <= final(self).s.x_pos <= old(self).s.x_pos + 0x440,
            final(self).s.y_pos == old(self).s.y_pos,
            final(self).s.y_spd == old(self).s.y_spd,
    {
        proof {
            reveal(Machine::spec_move_standing);
        }
        self.get_player_anim_speed(c);
        if !self.joypad_lr.is_empty() {
            self.s.facing_dir = self.joypad_lr;
        }
        self.impose_friction(c);
        self.move_horizontally(c);
    }

    #[verifier::opaque]
    pub(crate) open spec fn spec_swim_air_adjust(self, c: SmbOptions) -> Machine {
        if c.swim.spec_is_swimming() {
            let ma = self.spec_get_player_anim_speed(c);
            let mb = if ma.s.y_pos < 0x11400 {
                Machine {
                    s: State { v_force: c.platform.spec_v_force_swim_too_high(), ..ma.s },
                    ..ma
                }
            } else {
                ma
            };
            if !(mb.joypad_lr is Empty) {
                Machine { s: State { facing_dir: mb.joypad_lr, ..mb.s }, ..mb }
            } else {
                mb
            }
        } else {
            self
        }
    }

    /// Underwater air-control adjustments: animation speed, the too-high
    /// gravity, and facing.
    fn swim_air_adjust(&mut self, c: &SmbOptions)
        ensures
            *final(self) == old(self).spec_swim_air_adjust(*c),
            final(self).s.x_pos == old(self).s.x_pos,
            final(self).s.y_pos == old(self).s.y_pos,
            final(self).s.y_spd == old(self).s.y_spd,
            final(self).s.x_spd == old(self).s.x_spd || final(self).s.x_spd == 0,
            final(self).friction == old(self).friction,
            final(self).max_speed_left == old(self).max_speed_left,
            final(self).max_speed_right == old(self).max_speed_right,
            final(self).joypad_lr == old(self).joypad_lr,
    {
        proof {
            reveal(Machine::spec_swim_air_adjust);
        }
        if c.swim.is_swimming() {
            self.get_player_anim_speed(c);
            if self.s.y_pos < 0x11400 {
                self.s.v_force = c.platform.v_force_swim_too_high();
            }
            if !self.joypad_lr.is_empty() {
                self.s.facing_dir = self.joypad_lr;
            }
        }
    }

    #[verifier::opaque]
    pub(crate) open spec fn spec_move_airborne(self, c: SmbOptions) -> Machine {
        let m3 = if self.s.y_spd >= 0 || (self.joypad & INPUT_A == 0 && !self.started_jump) {
            Machine { s: State { v_force: self.s.v_force_down, ..self.s }, ..self }
        } else {
            self
        };
        let m4 = m3.spec_swim_air_adjust(c);
        let m5 = if !(m4.joypad_lr is Empty) {
            m4.spec_impose_friction(c)
        } else {
            m4
        };
        m5.spec_move_horizontally(c).spec_move_vertically(c)
    }

    /// The jumping movement pipeline: gravity selection, swim handling,
    /// then horizontal and vertical motion.
    #[verifier::rlimit(100)]
    #[verifier::spinoff_prover]
    fn move_airborne(&mut self, c: &SmbOptions)
        requires
            old(self).physics_set(),
            -0x4400 < old(self).s.x_spd < 0x4400,
            -0x10000 <= old(self).s.x_pos < 0x200000 - 0x800,
            -0x1000 < old(self).s.y_spd < 0x1000,
            -0x10000 <= old(self).s.y_pos < 0x1e000,
        ensures
            *final(self) == old(self).spec_move_airborne(*c),
            old(self).s.x_pos - 0x440 <= final(self).s.x_pos <= old(self).s.x_pos + 0x440,
            old(self).s.y_pos - 0x1000 < final(self).s.y_pos < old(self).s.y_pos + 0x1000,
            -0x1000 < final(self).s.y_spd < 0x1100,
    {
        proof {
            reveal(Machine::spec_move_airborne);
        }
        if self.s.y_spd >= 0 || (self.joypad & INPUT_A == 0 && !self.started_jump) {
            self.s.v_force = self.s.v_force_down;
        }
        self.swim_air_adjust(c);
        if !self.joypad_lr.is_empty() {
            self.impose_friction(c);
        }
        self.move_horizontally(c);
        self.move_vertically(c);
    }

    #[verifier::opaque]
    pub(crate) open spec fn spec_move_falling(self, c: SmbOptions) -> Machine {
        let m3 = Machine { s: State { v_force: self.s.v_force_down, ..self.s }, ..self };
        let m4 = if !(m3.joypad_lr is Empty) {
            m3.spec_impose_friction(c)
        } else {
            m3
        };
        m4.spec_move_horizontally(c).spec_move_vertically(c)
    }

    /// The falling movement pipeline.
    #[verifier::rlimit(100)]
    #[verifier::spinoff_prover]
    fn move_falling(&mut self, c: &SmbOptions)
        requires
            old(self).physics_set(),
            -0x4400 < old(self).s.x_spd < 0x4400,
            -0x10000 <= old(self).s.x_pos < 0x200000 - 0x800,
            -0x1000 < old(self).s.y_spd < 0x1000,
            -0x10000 <= old(self).s.y_pos < 0x1e000,
        ensures
            *final(self) == old(self).spec_move_falling(*c),
            old(self).s.x_pos - 0x440 <= final(self).s.x_pos <= old(self).s.x_pos + 0x440,
            old(self).s.y_pos - 0x1000 < final(self).s.y_pos < old(self).s.y_pos + 0x1000,
            -0x1000 < final(self).s.y_spd < 0x1100,
    {
        proof {
            reveal(Machine::spec_move_falling);
        }
        self.s.v_force = self.s.v_force_down;
        if !self.joypad_lr.is_empty() {
            self.impose_friction(c);
        }
        self.move_horizontally(c);
        self.move_vertically(c);
    }

    #[verifier::opaque]
    pub(crate) open spec fn spec_player_movement_subs(self, c: SmbOptions) -> Machine {
        let m1 = if c.player_size.spec_is_big(self.s) && self.s.spec_is_on_ground() {
            Machine { s: State { is_crouching: self.joypad_ud & INPUT_DOWN != 0, ..self.s }, ..self }
        } else {
            self
        };
        let m2 = m1.spec_player_physics_sub(c);
        match m2.s.player_state {
            PlayerState::STANDING => m2.spec_move_standing(c),
            PlayerState::JUMPING => m2.spec_move_airborne(c),
            PlayerState::FALLING => m2.spec_move_falling(c),
            PlayerState::CLIMBING => m2,
        }
    }

    /// Crouch handling, physics, then the per-mode movement pipeline.
    #[verifier::rlimit(100)]
    fn player_movement_subs(&mut self, c: &SmbOptions)
        requires
            c.wf(),
            !(old(self).s.player_state is CLIMBING),
            0x1000 <= old(self).s.x_pos < 0x100000,
            0xd000 <= old(self).s.y_pos < 0x1d000,
            -0x4000 < old(self).s.x_spd < 0x4000,
            -0x800 < old(self).s.y_spd < 0x800,
        ensures
            *final(self) == old(self).spec_player_movement_subs(*c),
            0x100 <= final(self).s.x_pos < 0x200000,
            0xb000 <= final(self).s.y_pos < 0x1e000,
            -0x1100 < final(self).s.y_spd < 0x1100,
    {
        proof {
            reveal(Machine::spec_player_movement_subs);
        }
        if c.player_size.is_big(&self.s) && self.s.is_on_ground() {
            self.s.is_crouching = self.joypad_ud & INPUT_DOWN != 0;
        }
        self.player_physics_sub(c);
        let st = self.s.player_state;
        match st {
            PlayerState::STANDING => {
                self.move_standing(c);
            },
            PlayerState::JUMPING => {
                self.move_airborne(c);
            },
            PlayerState::FALLING => {
                self.move_falling(c);
            },
            PlayerState::CLIMBING => {
                proof {
                    assert(false);
                }
            },
        }
    }

    #[verifier::opaque]
    pub(crate) open spec fn spec_player_ctrl_routine<B: BlockBuffer>(
        self,
        c: SmbOptions,
        b: &B,
    ) -> (Machine, EmuResult) {
        let jp = if self.s.y_pos < 0x10000 || self.s.y_pos >= 0x1d000 {
            0u8
        } else {
            self.joypad
        };
        let lr0 = Dir::spec_from_low_bits(jp);
        let ud0 = jp & (INPUT_UP | INPUT_DOWN);
        let m1 = if jp & INPUT_DOWN != 0 && self.s.spec_is_on_ground() && !(lr0 is Empty) {
            Machine { joypad: jp, joypad_lr: Dir::Empty, joypad_ud: 0, ..self }
        } else {
            Machine { joypad: jp, joypad_lr: lr0, joypad_ud: ud0, ..self }
        };
        let m2 = m1.spec_player_movement_subs(c);
        let m3 = if m2.s.x_spd < 0 {
            Machine { s: State { moving_dir: Dir::Left, ..m2.s }, ..m2 }
        } else if m2.s.x_spd >= 0x100 {
            Machine { s: State { moving_dir: Dir::Right, ..m2.s }, ..m2 }
        } else {
            m2
        };
        let m4 = m3.spec_scroll_handler(c);
        m4.spec_player_bg_collision(c, b)
    }

    /// One frame's control handling: input gating, movement, moving
    /// direction, scrolling, then background collision.
    #[verifier::rlimit(100)]
    #[verifier::spinoff_prover]
    fn player_ctrl_routine<B: BlockBuffer>(&mut self, c: &SmbOptions, b: &B) -> (r: EmuResult)
        requires
            c.wf(),
            !(old(self).s.player_state is CLIMBING),
            0x1000 <= old(self).s.x_pos < 0x100000,
            0xd000 <= old(self).s.y_pos < 0x1d000,
            -0x4000 < old(self).s.x_spd < 0x4000,
            -0x800 < old(self).s.y_spd < 0x800,
        ensures
            (*final(self), r) == old(self).spec_player_ctrl_routine(*c, b),
            -0x40000000 < final(self).s.y_pos < 0x40000000,
    {
        proof {
            reveal(Machine::spec_player_ctrl_routine);
        }
        if self.s.y_pos < 0x10000 || self.s.y_pos >= 0x1d000 {
            self.joypad = 0;
        }
        let lr0 = Dir::from_low_bits(self.joypad);
        let ud0: u8 = self.joypad & (INPUT_UP | INPUT_DOWN);
        if self.joypad & INPUT_DOWN != 0 && self.s.is_on_ground() && !lr0.is_empty() {
            self.joypad_lr = Dir::Empty;
            self.joypad_ud = 0;
        } else {
            self.joypad_lr = lr0;
            self.joypad_ud = ud0;
        }
        self.player_movement_subs(c);
        if self.s.x_spd < 0 {
            self.s.moving_dir = Dir::Left;
        } else if self.s.x_spd >= 0x100 {
            self.s.moving_dir = Dir::Right;
        }
        self.scroll_handler(c);
        self.player_bg_collision(c, b)
    }

    #[verifier::opaque]
    pub(crate) open spec fn spec_epilogue_timers(self, c: SmbOptions) -> Machine {
        let m4 = if c.scroll_pos.spec_track_scroll_pos() && self.side_collision {
            Machine { s: State { side_collision_timer: 0xf, ..self.s }, ..self }
        } else if c.scroll_pos.spec_track_scroll_pos() && self.s.side_collision_timer > 0 {
            Machine {
                s: State { side_collision_timer: (self.s.side_collision_timer - 1) as u8, ..self.s },
                ..self
            }
        } else {
            self
        };
        let m5 = if c.swim.spec_is_swimming() && m4.started_jump {
            Machine { s: State { jump_swim_timer: 0x1f, ..m4.s }, ..m4 }
        } else if c.swim.spec_is_swimming() && m4.s.jump_swim_timer > 0 {
            Machine { s: State { jump_swim_timer: (m4.s.jump_swim_timer - 1) as u8, ..m4.s }, ..m4 }
        } else {
            m4
        };
        let m6 = if c.y_pos_fractional_behavior.spec_clear_y_pos_fractionals()
            && m5.s.spec_is_on_ground() {
            Machine {
                s: State {
                    y_pos: (m5.s.y_pos - m5.s.y_pos as int % 256) as i32,
                    v_force_down: c.platform.spec_v_force_area_init(),
                    ..m5.s
                },
                ..m5
            }
        } else {
            m5
        };
        let m7 = if !(m6.s.player_state is JUMPING) {
            Machine { s: State { v_force: m6.s.v_force_down, ..m6.s }, ..m6 }
        } else {
            m6
        };
        m7
    }

    /// Timer upkeep, the optional fractional-position clearing, and the
    /// gravity restore.
    #[verifier::rlimit(100)]
    #[verifier::spinoff_prover]
    fn epilogue_timers(&mut self, c: &SmbOptions)
        requires
            -0x40000000 < old(self).s.y_pos < 0x40000000,
        ensures
            *final(self) == old(self).spec_epilogue_timers(*c),
    {
        proof {
            reveal(Machine::spec_epilogue_timers);
        }
        if c.scroll_pos.track_scroll_pos() && self.side_collision {
            self.s.side_collision_timer = 0xf;
        } else if c.scroll_pos.track_scroll_pos() && self.s.side_collision_timer > 0 {
            self.s.side_collision_timer = self.s.side_collision_timer - 1;
        }
        if c.swim.is_swimming() && self.started_jump {
            self.s.jump_swim_timer = 0x1f;
        } else if c.swim.is_swimming() && self.s.jump_swim_timer > 0 {
            self.s.jump_swim_timer = self.s.jump_swim_timer - 1;
        }
        if c.y_pos_fractional_behavior.clear_y_pos_fractionals() && self.s.is_on_ground() {
            let frac = rem_euclid_i32(self.s.y_pos, 256);
            self.s.y_pos = self.s.y_pos - frac;
            self.s.v_force_down = c.platform.v_force_area_init();
        }
        let is_jumping = match self.s.player_state {
            PlayerState::JUMPING => true,
            _ => false,
        };
        if !is_jumping {
            self.s.v_force = self.s.v_force_down;
        }
    }

    #[verifier::opaque]
    pub(crate) open spec fn spec_step_epilogue(self, c: SmbOptions) -> (Machine, bool) {
        let m7 = self.spec_epilogue_timers(c);
        if c.y_pos_fractional_behavior.spec_clear_y_pos_fractionals() && m7.started_on_ground
            && m7.s.player_state is FALLING {
            (m7, true)
        } else {
            let m8 = Machine {
                s: State {
                    parity: ((((m7.s.parity + 1) % 256) as u8) % c.parity.spec_parity_value()) as u8,
                    ..m7.s
                },
                ..m7
            };
            (m8, false)
        }
    }

    /// The invalid-state test and the parity counter, after timer upkeep.
    #[verifier::spinoff_prover]
    fn step_epilogue(&mut self, c: &SmbOptions) -> (invalid: bool)
        requires
            -0x40000000 < old(self).s.y_pos < 0x40000000,
        ensures
            (*final(self), invalid) == old(self).spec_step_epilogue(*c),
    {
        proof {
            reveal(Machine::spec_step_epilogue);
        }
        self.epilogue_timers(c);
        let is_falling = match self.s.player_state {
            PlayerState::FALLING => true,
            _ => false,
        };
        if c.y_pos_fractional_behavior.clear_y_pos_fractionals() && self.started_on_ground
            && is_falling {
            return true;
        }
        let bumped: u8 = ((self.s.parity as u32 + 1) % 256) as u8;
        self.s.parity = bumped % c.parity.parity_value();
        false
    }

    #[verifier::opaque]
    pub(crate) open spec fn spec_run_step<B: BlockBuffer>(self, c: SmbOptions, b: &B) -> (
        State,
        EmuResult,
    ) {
        let m1 = Machine { started_on_ground: self.s.spec_is_on_ground(), ..self };
        let m2 = if c.running_timer.spec_use_running_timer() && m1.s.running_timer > 0 {
            Machine { s: State { running_timer: (m1.s.running_timer - 1) as u8, ..m1.s }, ..m1 }
        } else {
            m1
        };
        let pr = m2.spec_player_ctrl_routine(c, b);
        let ep = pr.0.spec_step_epilogue(c);
        if ep.1 {
            (ep.0.s, EmuResult::InvalidStateFallingWithClearedYposFractionals)
        } else {
            (ep.0.s, pr.1)
        }
    }

    /// One whole frame: timers, the control routine, then the epilogue.
    #[verifier::rlimit(100)]
    #[verifier::spinoff_prover]
    fn step<B: BlockBuffer>(&mut self, c: &SmbOptions, b: &B) -> (r: EmuResult)
        requires
            c.wf(),
            steppable(*c, old(self).s),
        ensures
            (final(self).s, r) == old(self).spec_run_step(*c, b),
    {
        proof {
            reveal(Machine::spec_run_step);
        }
        self.started_on_ground = self.s.is_on_ground();
        if c.running_timer.use_running_timer() && self.s.running_timer > 0 {
            self.s.running_timer = self.s.running_timer - 1;
        }
        let result = self.player_ctrl_routine(c, b);
        let invalid = self.step_epilogue(c);
        if invalid {
            return EmuResult::InvalidStateFallingWithClearedYposFractionals;
        }
        result
    }
}

/// The step function as seen by the search: a deterministic map from a
/// state and an input to a successor state and a result tag.
pub trait Emu {
    /// Which states this emulator accepts.
    spec fn spec_step_req(&self, s: State) -> bool;

    /// The mathematical one-step transition function.
    spec fn spec_step(&self, s: State, input: Input) -> (State, EmuResult);

    /// Runtime test of `spec_step_req`.
    fn step_ok(&self, s: &State) -> (r: bool)
        ensures
            r == self.spec_step_req(*s),
    ;

    fn run_step(&self, s: State, input: Input) -> (r: (State, EmuResult))
        requires
            self.spec_step_req(s),
        ensures
            r == self.spec_step(s, input),
    ;
}

/// A machine state at the start of a frame, before any input handling.
pub(crate) open spec fn fresh_machine(s: State, input: Input) -> Machine {
    Machine {
        s,
        joypad: input,
        joypad_lr: Dir::Empty,
        joypad_ud: 0,
        max_speed_left: 0,
        max_speed_right: 0,
        friction: 0,
        started_jump: false,
        started_on_ground: false,
        x_scroll: 0,
        side_collision: false,
    }
}

/// The configured simulation: platform timing, scenario policies and the
/// level's collision map.
pub struct SmbEmu<B: BlockBuffer> {
    pub options: SmbOptions,
    pub block_buffer: B,
}

impl<B: BlockBuffer> SmbEmu<B> {
    pub fn new(options: SmbOptions, block_buffer: B) -> (r: SmbEmu<B>)
        requires
            options.wf(),
        ensures
            r.options == options,
            r.block_buffer == block_buffer,
    {
        SmbEmu { options, block_buffer }
    }
}

impl<B: BlockBuffer> Emu for SmbEmu<B> {
    open spec fn spec_step_req(&self, s: State) -> bool {
        self.options.wf() && steppable(self.options, s)
    }

    closed spec fn spec_step(&self, s: State, input: Input) -> (State, EmuResult) {
        fresh_machine(s, input).spec_run_step(self.options, &self.block_buffer)
    }

    fn step_ok(&self, s: &State) -> (r: bool) {
        self.options.coin_handler.wf_check() && 0x1000 <= s.x_pos && s.x_pos < 0x100000 && 0xd000
            <= s.y_pos && s.y_pos < 0x1d000 && -0x4000 < s.x_spd && s.x_spd < 0x4000 && -0x800
            < s.y_spd && s.y_spd < 0x800 && (match s.player_state {
            PlayerState::CLIMBING => false,
            _ => true,
        }) && s.parity < self.options.parity.parity_value()
    }

    fn run_step(&self, s: State, input: Input) -> (r: (State, EmuResult)) {
        let mut m = Machine {
            s,
            joypad: input,
            joypad_lr: Dir::Empty,
            joypad_ud: 0,
            max_speed_left: 0,
            max_speed_right: 0,
            friction: 0,
            started_jump: false,
            started_on_ground: false,
            x_scroll: 0,
            side_collision: false,
        };
        let res = m.step(&self.options, &self.block_buffer);
        (m.s, res)
    }
}

} // verus!
