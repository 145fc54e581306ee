//! Scenario configuration: which optional state fields exist, how coins,
//! powerups and pipes are handled, and the platform timing constants.
//!
//! A search scenario is described by one [`SmbOptions`] value. The fingerprint
//! codec, the step function and the input enumerator all read this value, so
//! the bit layout of a fingerprint is a function of the configuration alone.

use vstd::prelude::*;
use crate::state::State;

verus! {

/// Platform timing constants (frame rules differ between the two video
/// standards). All physics constants are exposed as methods with exact
/// contracts so that verified callers know the concrete values.
#[allow(non_camel_case_types)]
#[derive(Clone, Copy, PartialEq, Eq, Structural, Hash, Debug)]
pub enum Platform {
    NTSC,
    PAL,
}

impl Platform {
    pub open spec fn spec_max_x_spd_run(self) -> i16 {
        if self is NTSC { 0x2800 } else { 0x3000 }
    }

    pub fn max_x_spd_run(self) -> (r: i16)
        ensures
            r == self.spec_max_x_spd_run(),
    {
        match self {
            Platform::NTSC => 0x2800,
            Platform::PAL => 0x3000,
        }
    }

    pub open spec fn spec_max_x_spd_walk(self) -> i16 {
        if self is NTSC { 0x1800 } else { 0x1c00 }
    }

    pub fn max_x_spd_walk(self) -> (r: i16)
        ensures
            r == self.spec_max_x_spd_walk(),
    {
        match self {
            Platform::NTSC => 0x1800,
            Platform::PAL => 0x1c00,
        }
    }

    pub open spec fn spec_max_x_spd_swim(self) -> i16 {
        if self is NTSC { 0x1000 } else { 0x1300 }
    }

    pub fn max_x_spd_swim(self) -> (r: i16)
        ensures
            r == self.spec_max_x_spd_swim(),
    {
        match self {
            Platform::NTSC => 0x1000,
            Platform::PAL => 0x1300,
        }
    }

    pub open spec fn spec_max_y_spd(self) -> i16 {
        if self is NTSC { 0x400 } else { 0x500 }
    }

    pub fn max_y_spd(self) -> (r: i16)
        ensures
            r == self.spec_max_y_spd(),
    {
        match self {
            Platform::NTSC => 0x400,
            Platform::PAL => 0x500,
        }
    }

    pub open spec fn spec_block_surface_thickness(self) -> i32 {
        if self is NTSC { 0x500 } else { 0x600 }
    }

    pub fn block_surface_thickness(self) -> (r: i32)
        ensures
            r == self.spec_block_surface_thickness(),
    {
        match self {
            Platform::NTSC => 0x500,
            Platform::PAL => 0x600,
        }
    }

    pub open spec fn spec_friction_run(self) -> i16 {
        if self is NTSC { 0xe4 } else { 0x1c0 }
    }

    pub fn friction_run(self) -> (r: i16)
        ensures
            r == self.spec_friction_run(),
    {
        match self {
            Platform::NTSC => 0xe4,
            Platform::PAL => 0x1c0,
        }
    }

    pub open spec fn spec_friction_walk_fast(self) -> i16 {
        if self is NTSC { 0xd0 } else { 0x180 }
    }

    pub fn friction_walk_fast(self) -> (r: i16)
        ensures
            r == self.spec_friction_walk_fast(),
    {
        match self {
            Platform::NTSC => 0xd0,
            Platform::PAL => 0x180,
        }
    }

    pub open spec fn spec_friction_walk_slow(self) -> i16 {
        if self is NTSC { 0x98 } else { 0x100 }
    }

    pub fn friction_walk_slow(self) -> (r: i16)
        ensures
            r == self.spec_friction_walk_slow(),
    {
        match self {
            Platform::NTSC => 0x98,
            Platform::PAL => 0x100,
        }
    }

    pub open spec fn spec_jump_velocity_slow(self) -> i16 {
        if self is NTSC { -0x400i16 } else { -0x4cci16 }
    }

    pub fn jump_velocity_slow(self) -> (r: i16)
        ensures
            r == self.spec_jump_velocity_slow(),
    {
        match self {
            Platform::NTSC => -0x400,
            Platform::PAL => -0x4cc,
        }
    }

    pub open spec fn spec_jump_velocity_fast(self) -> i16 {
        if self is NTSC { -0x500i16 } else { -0x600i16 }
    }

    pub fn jump_velocity_fast(self) -> (r: i16)
        ensures
            r == self.spec_jump_velocity_fast(),
    {
        match self {
            Platform::NTSC => -0x500,
            Platform::PAL => -0x600,
        }
    }

    pub open spec fn spec_jump_velocity_swim(self) -> i16 {
        -0x180i16
    }

    pub fn jump_velocity_swim(self) -> (r: i16)
        ensures
            r == self.spec_jump_velocity_swim(),
    {
        -0x180
    }

    pub open spec fn spec_v_force_swim_too_high(self) -> u8 {
        0x18
    }

    pub fn v_force_swim_too_high(self) -> (r: u8)
        ensures
            r == self.spec_v_force_swim_too_high(),
    {
        0x18
    }

    pub open spec fn spec_v_force_area_init(self) -> u8 {
        if self is NTSC { 0x28 } else { 0x70 }
    }

    pub fn v_force_area_init(self) -> (r: u8)
        ensures
            r == self.spec_v_force_area_init(),
    {
        match self {
            Platform::NTSC => 0x28,
            Platform::PAL => 0x70,
        }
    }

    pub open spec fn spec_v_force_jump_standing(self) -> u8 {
        if self is NTSC { 0x20 } else { 0x30 }
    }

    pub fn v_force_jump_standing(self) -> (r: u8)
        ensures
            r == self.spec_v_force_jump_standing(),
    {
        match self {
            Platform::NTSC => 0x20,
            Platform::PAL => 0x30,
        }
    }

    pub open spec fn spec_v_force_jump_walking(self) -> u8 {
        if self is NTSC { 0x1e } else { 0x2d }
    }

    pub fn v_force_jump_walking(self) -> (r: u8)
        ensures
            r == self.spec_v_force_jump_walking(),
    {
        match self {
            Platform::NTSC => 0x1e,
            Platform::PAL => 0x2d,
        }
    }

    pub open spec fn spec_v_force_jump_running(self) -> u8 {
        if self is NTSC { 0x28 } else { 0x38 }
    }

    pub fn v_force_jump_running(self) -> (r: u8)
        ensures
            r == self.spec_v_force_jump_running(),
    {
        match self {
            Platform::NTSC => 0x28,
            Platform::PAL => 0x38,
        }
    }

    pub open spec fn spec_v_force_jump_swimming(self) -> u8 {
        0x0d
    }

    pub fn v_force_jump_swimming(self) -> (r: u8)
        ensures
            r == self.spec_v_force_jump_swimming(),
    {
        0x0d
    }

    pub open spec fn spec_v_force_fall_standing(self) -> u8 {
        if self is NTSC { 0x70 } else { 0xa8 }
    }

    pub fn v_force_fall_standing(self) -> (r: u8)
        ensures
            r == self.spec_v_force_fall_standing(),
    {
        match self {
            Platform::NTSC => 0x70,
            Platform::PAL => 0xa8,
        }
    }

    pub open spec fn spec_v_force_fall_walking(self) -> u8 {
        if self is NTSC { 0x60 } else { 0x90 }
    }

    pub fn v_force_fall_walking(self) -> (r: u8)
        ensures
            r == self.spec_v_force_fall_walking(),
    {
        match self {
            Platform::NTSC => 0x60,
            Platform::PAL => 0x90,
        }
    }

    pub open spec fn spec_v_force_fall_running(self) -> u8 {
        if self is NTSC { 0x90 } else { 0xd0 }
    }

    pub fn v_force_fall_running(self) -> (r: u8)
        ensures
            r == self.spec_v_force_fall_running(),
    {
        match self {
            Platform::NTSC => 0x90,
            Platform::PAL => 0xd0,
        }
    }

    pub open spec fn spec_v_force_fall_swimming(self) -> u8 {
        0x0a
    }

    pub fn v_force_fall_swimming(self) -> (r: u8)
        ensures
            r == self.spec_v_force_fall_swimming(),
    {
        0x0a
    }

    /// The speed classes used for jump strength and animation decisions:
    /// six absolute-speed cutoffs, in increasing order.
    pub open spec fn spec_x_spd_abs_cutoff(self, i: int) -> u8 {
        if self is NTSC {
            if i == 0 { 0x00 } else if i == 1 { 0x0b } else if i == 2 { 0x10 }
            else if i == 3 { 0x19 } else if i == 4 { 0x1c } else { 0x21 }
        } else {
            if i == 0 { 0x00 } else if i == 1 { 0x0d } else if i == 2 { 0x12 }
            else if i == 3 { 0x1d } else if i == 4 { 0x20 } else { 0x27 }
        }
    }

    pub fn x_spd_abs_cutoff(self, i: usize) -> (r: u8)
        requires
            i < 6,
        ensures
            r == self.spec_x_spd_abs_cutoff(i as int),
            r <= 0x27,
    {
        match self {
            Platform::NTSC => {
                if i == 0 { 0x00 } else if i == 1 { 0x0b } else if i == 2 { 0x10 }
                else if i == 3 { 0x19 } else if i == 4 { 0x1c } else { 0x21 }
            },
            Platform::PAL => {
                if i == 0 { 0x00 } else if i == 1 { 0x0d } else if i == 2 { 0x12 }
                else if i == 3 { 0x1d } else if i == 4 { 0x20 } else { 0x27 }
            },
        }
    }

    /// Index of the largest speed cutoff that `x_spd_abs` reaches.
    pub open spec fn spec_x_spd_abs_cutoff_index(self, x_spd_abs: u8) -> int {
        if x_spd_abs >= self.spec_x_spd_abs_cutoff(5) { 5 }
        else if x_spd_abs >= self.spec_x_spd_abs_cutoff(4) { 4 }
        else if x_spd_abs >= self.spec_x_spd_abs_cutoff(3) { 3 }
        else if x_spd_abs >= self.spec_x_spd_abs_cutoff(2) { 2 }
        else if x_spd_abs >= self.spec_x_spd_abs_cutoff(1) { 1 }
        else { 0 }
    }

    pub fn get_x_spd_abs_cutoff(self, x_spd_abs: u8) -> (r: usize)
        ensures
            r == self.spec_x_spd_abs_cutoff_index(x_spd_abs),
            r < 6,
    {
        if x_spd_abs >= self.x_spd_abs_cutoff(5) { 5 }
        else if x_spd_abs >= self.x_spd_abs_cutoff(4) { 4 }
        else if x_spd_abs >= self.x_spd_abs_cutoff(3) { 3 }
        else if x_spd_abs >= self.x_spd_abs_cutoff(2) { 2 }
        else if x_spd_abs >= self.x_spd_abs_cutoff(1) { 1 }
        else { 0 }
    }

    /// The ten vertical-force values that can ever be stored in a state.
    pub open spec fn spec_is_known_v_force(self, v: u8) -> bool {
        ||| v == self.spec_v_force_swim_too_high()
        ||| v == self.spec_v_force_area_init()
        ||| v == self.spec_v_force_jump_standing()
        ||| v == self.spec_v_force_jump_walking()
        ||| v == self.spec_v_force_jump_running()
        ||| v == self.spec_v_force_jump_swimming()
        ||| v == self.spec_v_force_fall_standing()
        ||| v == self.spec_v_force_fall_walking()
        ||| v == self.spec_v_force_fall_running()
        ||| v == self.spec_v_force_fall_swimming()
    }

    pub fn is_known_v_force(self, v: u8) -> (r: bool)
        ensures
            r == self.spec_is_known_v_force(v),
    {
        v == self.v_force_swim_too_high() || v == self.v_force_area_init() || v
            == self.v_force_jump_standing() || v == self.v_force_jump_walking() || v
            == self.v_force_jump_running() || v == self.v_force_jump_swimming() || v
            == self.v_force_fall_standing() || v == self.v_force_fall_walking() || v
            == self.v_force_fall_running() || v == self.v_force_fall_swimming()
    }

    pub open spec fn spec_v_force_index(self, v: u8) -> u32 {
        if v == self.spec_v_force_swim_too_high() { 0u32 }
        else if v == self.spec_v_force_area_init() { 1u32 }
        else if v == self.spec_v_force_jump_standing() { 2u32 }
        else if v == self.spec_v_force_jump_walking() { 3u32 }
        else if v == self.spec_v_force_jump_running() { 4u32 }
        else if v == self.spec_v_force_jump_swimming() { 5u32 }
        else if v == self.spec_v_force_fall_standing() { 6u32 }
        else if v == self.spec_v_force_fall_walking() { 7u32 }
        else if v == self.spec_v_force_fall_running() { 8u32 }
        else { 9u32 }
    }

    /// Maps a stored vertical-force value to its 4-bit fingerprint code.
    pub fn get_v_force_index(self, v: u8) -> (r: u32)
        requires
            self.spec_is_known_v_force(v),
        ensures
            r == self.spec_v_force_index(v),
            r < 10,
    {
        if v == self.v_force_swim_too_high() { 0 }
        else if v == self.v_force_area_init() { 1 }
        else if v == self.v_force_jump_standing() { 2 }
        else if v == self.v_force_jump_walking() { 3 }
        else if v == self.v_force_jump_running() { 4 }
        else if v == self.v_force_jump_swimming() { 5 }
        else if v == self.v_force_fall_standing() { 6 }
        else if v == self.v_force_fall_walking() { 7 }
        else if v == self.v_force_fall_running() { 8 }
        else { 9 }
    }
}

/// Player size policy: affects crouching, head height, and brick shattering.
#[derive(Clone, Copy, PartialEq, Eq, Structural, Hash, Debug)]
pub enum PlayerSize {
    Small,
    Big,
    BigAfterPowerup,
}

impl PlayerSize {
    pub open spec fn spec_crouch_bits(self) -> nat {
        if self is Small { 0 } else { 1 }
    }

    pub open spec fn spec_may_be_big(self) -> bool {
        !(self is Small)
    }

    pub fn may_be_big(self) -> (r: bool)
        ensures
            r == self.spec_may_be_big(),
    {
        match self {
            PlayerSize::Small => false,
            PlayerSize::Big => true,
            PlayerSize::BigAfterPowerup => true,
        }
    }

    pub open spec fn spec_is_big(self, s: State) -> bool {
        match self {
            PlayerSize::Small => false,
            PlayerSize::Big => true,
            PlayerSize::BigAfterPowerup => s.powerup_collected,
        }
    }

    pub fn is_big(self, s: &State) -> (r: bool)
        ensures
            r == self.spec_is_big(*s),
    {
        match self {
            PlayerSize::Small => false,
            PlayerSize::Big => true,
            PlayerSize::BigAfterPowerup => s.powerup_collected,
        }
    }
}

/// Whether the scenario takes place in water.
#[derive(Clone, Copy, PartialEq, Eq, Structural, Hash, Debug)]
pub enum Swim {
    NotSwimming,
    Swimming,
}

impl Swim {
    pub open spec fn spec_is_swimming(self) -> bool {
        self is Swimming
    }

    pub fn is_swimming(self) -> (r: bool)
        ensures
            r == self.spec_is_swimming(),
    {
        match self {
            Swim::NotSwimming => false,
            Swim::Swimming => true,
        }
    }

    pub open spec fn spec_swimming_bits(self) -> nat {
        if self is Swimming { 5 } else { 0 }
    }
}

/// Whether the 10-frame running timer is part of the tracked state.
#[derive(Clone, Copy, PartialEq, Eq, Structural, Hash, Debug)]
pub enum RunningTimer {
    NoRunningTimer,
    WithRunningTimer,
}

impl RunningTimer {
    pub open spec fn spec_use_running_timer(self) -> bool {
        self is WithRunningTimer
    }

    pub fn use_running_timer(self) -> (r: bool)
        ensures
            r == self.spec_use_running_timer(),
    {
        match self {
            RunningTimer::NoRunningTimer => false,
            RunningTimer::WithRunningTimer => true,
        }
    }

    pub open spec fn spec_running_timer_bits(self) -> nat {
        if self is WithRunningTimer { 4 } else { 0 }
    }
}

/// Whether fractional vertical positions are cleared on the ground.
#[derive(Clone, Copy, PartialEq, Eq, Structural, Hash, Debug)]
pub enum YPosFractionalBehavior {
    ClearYPosFractionals,
    KeepYPosFractionals,
}

impl YPosFractionalBehavior {
    pub open spec fn spec_clear_y_pos_fractionals(self) -> bool {
        self is ClearYPosFractionals
    }

    pub fn clear_y_pos_fractionals(self) -> (r: bool)
        ensures
            r == self.spec_clear_y_pos_fractionals(),
    {
        match self {
            YPosFractionalBehavior::ClearYPosFractionals => true,
            YPosFractionalBehavior::KeepYPosFractionals => false,
        }
    }
}

/// Whether the screen-scroll position is part of the tracked state.
#[derive(Clone, Copy, PartialEq, Eq, Structural, Hash, Debug)]
pub enum ScrollPos {
    NoScrollPos,
    WithScrollPos,
}

impl ScrollPos {
    pub open spec fn spec_track_scroll_pos(self) -> bool {
        self is WithScrollPos
    }

    pub fn track_scroll_pos(self) -> (r: bool)
        ensures
            r == self.spec_track_scroll_pos(),
    {
        match self {
            ScrollPos::NoScrollPos => false,
            ScrollPos::WithScrollPos => true,
        }
    }

    pub open spec fn spec_scroll_pos_bits(self) -> nat {
        if self is WithScrollPos { 12 } else { 0 }
    }
}

/// Modulus of the frame-parity counter kept in the state.
#[derive(Clone, Copy, PartialEq, Eq, Structural, Hash, Debug)]
pub enum Parity {
    NoParity,
    Parity2,
    Parity3,
    Parity4,
    Parity8,
}

impl Parity {
    pub open spec fn spec_parity_value(self) -> u8 {
        match self {
            Parity::NoParity => 1,
            Parity::Parity2 => 2,
            Parity::Parity3 => 3,
            Parity::Parity4 => 4,
            Parity::Parity8 => 8,
        }
    }

    pub fn parity_value(self) -> (r: u8)
        ensures
            r == self.spec_parity_value(),
            1 <= r <= 8,
    {
        match self {
            Parity::NoParity => 1,
            Parity::Parity2 => 2,
            Parity::Parity3 => 3,
            Parity::Parity4 => 4,
            Parity::Parity8 => 8,
        }
    }

    pub open spec fn spec_parity_bits(self) -> nat {
        match self {
            Parity::NoParity => 0,
            Parity::Parity2 => 1,
            Parity::Parity3 => 2,
            Parity::Parity4 => 2,
            Parity::Parity8 => 3,
        }
    }

    pub fn parity_bits(self) -> (r: u32)
        ensures
            r as nat == self.spec_parity_bits(),
    {
        match self {
            Parity::NoParity => 0,
            Parity::Parity2 => 1,
            Parity::Parity3 => 2,
            Parity::Parity4 => 2,
            Parity::Parity8 => 3,
        }
    }
}

/// Coin policy: either coins are ignored, or the scenario tracks a fixed
/// list of coin positions, one collected-bit per listed coin.
#[derive(Clone, Debug)]
pub enum CoinHandler {
    IgnoreCoins,
    CoinList(Vec<(usize, usize)>),
}

/// First index of `(cx, cy)` in `list`, or -1 when it does not occur.
pub open spec fn spec_coin_pos(list: Seq<(usize, usize)>, cx: usize, cy: usize) -> int
    decreases list.len(),
{
    if list.len() == 0 {
        -1
    } else if list[0].0 == cx && list[0].1 == cy {
        0
    } else {
        let rest = spec_coin_pos(list.skip(1), cx, cy);
        if rest == -1 { -1 } else { rest + 1 }
    }
}

impl CoinHandler {
    /// Number of collected-coin bits in the fingerprint.
    pub open spec fn spec_coin_handler_bits(self) -> nat {
        match self {
            CoinHandler::IgnoreCoins => 0,
            CoinHandler::CoinList(v) => v@.len(),
        }
    }

    pub open spec fn wf(self) -> bool {
        match self {
            CoinHandler::IgnoreCoins => true,
            CoinHandler::CoinList(v) => v@.len() <= 32,
        }
    }

    /// Runtime test of `wf`.
    pub fn wf_check(&self) -> (r: bool)
        ensures
            r == self.wf(),
    {
        match self {
            CoinHandler::IgnoreCoins => true,
            CoinHandler::CoinList(v) => v.len() <= 32,
        }
    }

    pub fn coin_handler_bits(&self) -> (r: u32)
        requires
            self.wf(),
        ensures
            r as nat == self.spec_coin_handler_bits(),
            r <= 32,
    {
        match self {
            CoinHandler::IgnoreCoins => 0,
            CoinHandler::CoinList(v) => v.len() as u32,
        }
    }

    pub open spec fn spec_is_coin_collected(self, s: State, cx: usize, cy: usize) -> bool {
        match self {
            CoinHandler::IgnoreCoins => true,
            CoinHandler::CoinList(v) => {
                let i = spec_coin_pos(v@, cx, cy);
                if i == -1 { true } else { s.collected_coins & (1u32 << i) != 0 }
            },
        }
    }

    pub fn is_coin_collected(&self, s: &State, cx: usize, cy: usize) -> (r: bool)
        requires
            self.wf(),
        ensures
            r == self.spec_is_coin_collected(*s, cx, cy),
    {
        match self {
            CoinHandler::IgnoreCoins => true,
            CoinHandler::CoinList(v) => {
                match coin_pos(v, cx, cy) {
                    Option::Some(i) => {
                        assert(i < 32);
                        let bit: u32 = 1u32 << (i as u32);
                        assert(bit == (1u32 << (spec_coin_pos(v@, cx, cy))));
                        s.collected_coins & bit != 0
                    },
                    Option::None => true,
                }
            },
        }
    }

    pub fn collect_coin(&self, s: &mut State, cx: usize, cy: usize)
        requires
            self.wf(),
        ensures
            *final(s) == self.spec_collect_coin(*old(s), cx, cy),
    {
        match self {
            CoinHandler::IgnoreCoins => {},
            CoinHandler::CoinList(v) => {
                match coin_pos(v, cx, cy) {
                    Option::Some(i) => {
                        assert(i < 32);
                        let bit: u32 = 1u32 << (i as u32);
                        assert(bit == (1u32 << (spec_coin_pos(v@, cx, cy))));
                        s.collected_coins = s.collected_coins | bit;
                    },
                    Option::None => {},
                }
            },
        }
    }

    pub open spec fn spec_collect_coin(self, s: State, cx: usize, cy: usize) -> State {
        match self {
            CoinHandler::IgnoreCoins => s,
            CoinHandler::CoinList(v) => {
                let i = spec_coin_pos(v@, cx, cy);
                if i == -1 {
                    s
                } else {
                    State { collected_coins: s.collected_coins | (1u32 << i), ..s }
                }
            },
        }
    }
}

/// A coin position is at least the "not found" marker.
proof fn lemma_coin_pos_ge(list: Seq<(usize, usize)>, cx: usize, cy: usize)
    ensures
        spec_coin_pos(list, cx, cy) >= -1,
        spec_coin_pos(list, cx, cy) < list.len(),
    decreases list.len(),
{
    if list.len() > 0 {
        lemma_coin_pos_ge(list.skip(1), cx, cy);
    }
}

/// A step of `spec_coin_pos` per dropped prefix element.
proof fn lemma_coin_pos_skip(list: Seq<(usize, usize)>, cx: usize, cy: usize, i: int)
    requires
        0 <= i <= list.len(),
        forall|j: int| 0 <= j < i ==> !((#[trigger] list[j]).0 == cx && list[j].1 == cy),
    ensures
        spec_coin_pos(list, cx, cy) == (if spec_coin_pos(list.skip(i), cx, cy) == -1 {
            -1int
        } else {
            spec_coin_pos(list.skip(i), cx, cy) + i
        }),
    decreases i,
{
    if i == 0 {
        assert(list.skip(0) =~= list);
    } else {
        lemma_coin_pos_skip(list, cx, cy, i - 1);
        lemma_coin_pos_ge(list.skip(i), cx, cy);
        let l1 = list.skip(i - 1);
        assert(l1.len() > 0);
        assert(l1[0] == list[i - 1]);
        assert(l1.skip(1) =~= list.skip(i));
        assert(spec_coin_pos(l1, cx, cy) == (if spec_coin_pos(list.skip(i), cx, cy) == -1 {
            -1int
        } else {
            spec_coin_pos(list.skip(i), cx, cy) + 1
        }));
    }
}

/// First index of `(cx, cy)` in the coin list, if any.
fn coin_pos(list: &Vec<(usize, usize)>, cx: usize, cy: usize) -> (r: Option<usize>)
    ensures
        match r {
            Option::Some(i) => spec_coin_pos(list@, cx, cy) == i && i < list@.len(),
            Option::None => spec_coin_pos(list@, cx, cy) == -1,
        },
{
    let n: usize = list.len();
    let mut i: usize = 0;
    while i < n
        invariant
            i <= n,
            n == list@.len(),
            forall|j: int| 0 <= j < i ==> !((#[trigger] list@[j]).0 == cx && list@[j].1 == cy),
        decreases n - i,
    {
        let p = list[i];
        if p.0 == cx && p.1 == cy {
            proof {
                lemma_coin_pos_skip(list@, cx, cy, i as int);
                assert(list@.skip(i as int)[0] == list@[i as int]);
            }
            return Option::Some(i);
        }
        i = i + 1;
    }
    proof {
        lemma_coin_pos_skip(list@, cx, cy, n as int);
        assert(list@.skip(n as int) =~= Seq::<(usize, usize)>::empty());
    }
    Option::None
}

/// Powerup policy: no powerup blocks, one activatable block at a fixed
/// position, or a pretend powerup that never activates anything.
#[derive(Clone, Copy, PartialEq, Eq, Structural, Hash, Debug)]
pub enum PowerupHandler {
    NoPowerups,
    SinglePowerupHandler { block_x: usize, block_y: usize },
    ImaginaryPowerup,
}

impl PowerupHandler {
    pub open spec fn spec_powerup_handler_bits(self) -> nat {
        match self {
            PowerupHandler::NoPowerups => 0,
            PowerupHandler::SinglePowerupHandler { .. } => 2,
            PowerupHandler::ImaginaryPowerup => 2,
        }
    }

    pub fn powerup_handler_bits(self) -> (r: u32)
        ensures
            r as nat == self.spec_powerup_handler_bits(),
    {
        match self {
            PowerupHandler::NoPowerups => 0,
            PowerupHandler::SinglePowerupHandler { .. } => 2,
            PowerupHandler::ImaginaryPowerup => 2,
        }
    }

    pub open spec fn spec_is_activated_powerup_block(self, s: State, cx: usize, cy: usize) -> bool {
        match self {
            PowerupHandler::NoPowerups => false,
            PowerupHandler::SinglePowerupHandler { block_x, block_y } => {
                s.powerup_block_hit && cx == block_x && cy == block_y
            },
            PowerupHandler::ImaginaryPowerup => false,
        }
    }

    pub fn is_activated_powerup_block(self, s: &State, cx: usize, cy: usize) -> (r: bool)
        ensures
            r == self.spec_is_activated_powerup_block(*s, cx, cy),
    {
        match self {
            PowerupHandler::NoPowerups => false,
            PowerupHandler::SinglePowerupHandler { block_x, block_y } => {
                s.powerup_block_hit && cx == block_x && cy == block_y
            },
            PowerupHandler::ImaginaryPowerup => false,
        }
    }

    pub open spec fn spec_activate_powerup_block(self, s: State, cx: usize, cy: usize) -> State {
        match self {
            PowerupHandler::SinglePowerupHandler { block_x, block_y } => {
                if cx == block_x && cy == block_y {
                    State { powerup_block_hit: true, ..s }
                } else {
                    s
                }
            },
            _ => s,
        }
    }

    pub fn activate_powerup_block(self, s: &mut State, cx: usize, cy: usize)
        ensures
            *final(s) == self.spec_activate_powerup_block(*old(s), cx, cy),
    {
        match self {
            PowerupHandler::SinglePowerupHandler { block_x, block_y } => {
                if cx == block_x && cy == block_y {
                    s.powerup_block_hit = true;
                }
            },
            _ => {},
        }
    }
}

/// Vertical pipe policy: either no pipe is enterable, or exactly one, at a
/// fixed block position.
#[derive(Clone, Copy, PartialEq, Eq, Structural, Hash, Debug)]
pub enum VerticalPipeHandler {
    IgnoreVerticalPipes,
    EnterVerticalPipe { pipe_x: usize, pipe_y: usize },
}

impl VerticalPipeHandler {
    pub open spec fn spec_enter_vertical_pipe(self, cx: usize, cy: usize) -> bool {
        match self {
            VerticalPipeHandler::IgnoreVerticalPipes => false,
            VerticalPipeHandler::EnterVerticalPipe { pipe_x, pipe_y } => cx == pipe_x && cy == pipe_y,
        }
    }

    pub fn enter_vertical_pipe(self, cx: usize, cy: usize) -> (r: bool)
        ensures
            r == self.spec_enter_vertical_pipe(cx, cy),
    {
        match self {
            VerticalPipeHandler::IgnoreVerticalPipes => false,
            VerticalPipeHandler::EnterVerticalPipe { pipe_x, pipe_y } => cx == pipe_x && cy == pipe_y,
        }
    }
}

/// The full configuration of one search scenario.
#[derive(Clone, Debug)]
pub struct SmbOptions {
    pub platform: Platform,
    pub player_size: PlayerSize,
    pub swim: Swim,
    pub running_timer: RunningTimer,
    pub y_pos_fractional_behavior: YPosFractionalBehavior,
    pub scroll_pos: ScrollPos,
    pub parity: Parity,
    pub coin_handler: CoinHandler,
    pub powerup_handler: PowerupHandler,
    pub vertical_pipe_handler: VerticalPipeHandler,
}

impl SmbOptions {
    pub open spec fn wf(self) -> bool {
        self.coin_handler.wf()
    }

    /// Width in bits of the packed fingerprint of a state under this
    /// configuration: the fixed fields plus the enabled optional fields.
    pub open spec fn spec_total_bits(self) -> nat {
        (77 + self.player_size.spec_crouch_bits() + self.swim.spec_swimming_bits()
            + self.running_timer.spec_running_timer_bits()
            + self.scroll_pos.spec_scroll_pos_bits() + self.parity.spec_parity_bits()
            + self.coin_handler.spec_coin_handler_bits()
            + self.powerup_handler.spec_powerup_handler_bits()) as nat
    }

    /// The fingerprint buffer length: the bit width rounded up to bytes.
    pub open spec fn spec_bytes_needed(self) -> nat {
        (self.spec_total_bits() + 7) / 8
    }
}

} // verus!
