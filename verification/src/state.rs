//! The mutable simulation state, and the fingerprint codec that packs the
//! scenario-relevant fields of a state into a small byte buffer.

use vstd::prelude::*;
use crate::options::SmbOptions;

verus! {

/// Distance counter: steps taken along the best known path to a state.
pub type Dist = u16;

/// A left/right direction set (possibly empty, possibly both).
#[derive(Clone, Copy, PartialEq, Eq, Structural, Hash, Debug)]
pub enum Dir {
    Empty,
    Right,
    Left,
    Lr,
}

impl Dir {
    /// The two-bit encoding used by the fingerprint: right is bit 0,
    /// left is bit 1.
    pub open spec fn spec_bits(self) -> u8 {
        match self {
            Dir::Empty => 0,
            Dir::Right => 1,
            Dir::Left => 2,
            Dir::Lr => 3,
        }
    }

    pub fn bits(self) -> (r: u8)
        ensures
            r == self.spec_bits(),
    {
        match self {
            Dir::Empty => 0,
            Dir::Right => 1,
            Dir::Left => 2,
            Dir::Lr => 3,
        }
    }

    /// The direction set encoded in the low two bits of a controller mask.
    pub open spec fn spec_from_low_bits(bits: u8) -> Dir {
        if bits & 3 == 0 { Dir::Empty }
        else if bits & 3 == 1 { Dir::Right }
        else if bits & 3 == 2 { Dir::Left }
        else { Dir::Lr }
    }

    pub fn from_low_bits(bits: u8) -> (r: Dir)
        ensures
            r == Dir::spec_from_low_bits(bits),
    {
        let b: u8 = bits & 3;
        if b == 0 { Dir::Empty }
        else if b == 1 { Dir::Right }
        else if b == 2 { Dir::Left }
        else { Dir::Lr }
    }

    pub open spec fn spec_is_empty(self) -> bool {
        self is Empty
    }

    pub fn is_empty(self) -> (r: bool)
        ensures
            r == self.spec_is_empty(),
    {
        match self {
            Dir::Empty => true,
            _ => false,
        }
    }

    /// Set intersection of two direction sets.
    pub open spec fn spec_inter(self, other: Dir) -> Dir {
        match (self, other) {
            (Dir::Empty, _) => Dir::Empty,
            (_, Dir::Empty) => Dir::Empty,
            (Dir::Lr, o) => o,
            (d, Dir::Lr) => d,
            (Dir::Right, Dir::Right) => Dir::Right,
            (Dir::Left, Dir::Left) => Dir::Left,
            _ => Dir::Empty,
        }
    }

    pub fn inter(self, other: Dir) -> (r: Dir)
        ensures
            r == self.spec_inter(other),
    {
        match (self, other) {
            (Dir::Empty, _) => Dir::Empty,
            (_, Dir::Empty) => Dir::Empty,
            (Dir::Lr, o) => o,
            (d, Dir::Lr) => d,
            (Dir::Right, Dir::Right) => Dir::Right,
            (Dir::Left, Dir::Left) => Dir::Left,
            _ => Dir::Empty,
        }
    }

    /// Set difference: the directions of `self` not in `other`.
    pub open spec fn spec_remove(self, other: Dir) -> Dir {
        match (self, other) {
            (d, Dir::Empty) => d,
            (_, Dir::Lr) => Dir::Empty,
            (Dir::Empty, _) => Dir::Empty,
            (Dir::Right, Dir::Right) => Dir::Empty,
            (Dir::Right, Dir::Left) => Dir::Right,
            (Dir::Left, Dir::Left) => Dir::Empty,
            (Dir::Left, Dir::Right) => Dir::Left,
            (Dir::Lr, Dir::Right) => Dir::Left,
            (Dir::Lr, Dir::Left) => Dir::Right,
        }
    }

    pub fn remove(self, other: Dir) -> (r: Dir)
        ensures
            r == self.spec_remove(other),
    {
        match (self, other) {
            (d, Dir::Empty) => d,
            (_, Dir::Lr) => Dir::Empty,
            (Dir::Empty, _) => Dir::Empty,
            (Dir::Right, Dir::Right) => Dir::Empty,
            (Dir::Right, Dir::Left) => Dir::Right,
            (Dir::Left, Dir::Left) => Dir::Empty,
            (Dir::Left, Dir::Right) => Dir::Left,
            (Dir::Lr, Dir::Right) => Dir::Left,
            (Dir::Lr, Dir::Left) => Dir::Right,
        }
    }

    /// Set containment: every direction of `other` is in `self`.
    pub open spec fn spec_contains(self, other: Dir) -> bool {
        match other {
            Dir::Empty => true,
            Dir::Right => self is Right || self is Lr,
            Dir::Left => self is Left || self is Lr,
            Dir::Lr => self is Lr,
        }
    }

    pub fn contains(self, other: Dir) -> (r: bool)
        ensures
            r == self.spec_contains(other),
    {
        match other {
            Dir::Empty => true,
            Dir::Right => match self {
                Dir::Right => true,
                Dir::Lr => true,
                _ => false,
            },
            Dir::Left => match self {
                Dir::Left => true,
                Dir::Lr => true,
                _ => false,
            },
            Dir::Lr => match self {
                Dir::Lr => true,
                _ => false,
            },
        }
    }
}

/// The discrete movement mode of the player.
#[derive(Clone, Copy, PartialEq, Eq, Structural, Hash, Debug)]
pub enum PlayerState {
    STANDING,
    JUMPING,
    FALLING,
    CLIMBING,
}

impl PlayerState {
    pub open spec fn spec_bits(self) -> u32 {
        match self {
            PlayerState::STANDING => 0,
            PlayerState::JUMPING => 1,
            PlayerState::FALLING => 2,
            PlayerState::CLIMBING => 3,
        }
    }

    pub fn bits(self) -> (r: u32)
        ensures
            r == self.spec_bits(),
            r < 4,
    {
        match self {
            PlayerState::STANDING => 0,
            PlayerState::JUMPING => 1,
            PlayerState::FALLING => 2,
            PlayerState::CLIMBING => 3,
        }
    }
}

/// One frame of simulation state. Positions carry sub-pixel precision in
/// their low bits: `x_pos` is page/pixel/subpixel in nibbles, `y_pos`
/// likewise with the page in the high byte.
#[derive(Clone, Copy, PartialEq, Eq, Structural, Hash, Debug)]
pub struct State {
    pub x_pos: i32,
    pub y_pos: i32,
    pub x_spd: i16,
    pub y_spd: i16,
    pub player_state: PlayerState,
    pub moving_dir: Dir,
    pub facing_dir: Dir,
    pub v_force: u8,
    pub v_force_down: u8,
    pub x_spd_abs: u8,
    pub running_speed: bool,
    pub collision_bits: Dir,
    /// Only meaningful when the player can be big.
    pub is_crouching: bool,
    /// Only meaningful when swimming.
    pub jump_swim_timer: u8,
    /// Only meaningful when the running timer is enabled.
    pub running_timer: u8,
    /// Only meaningful when scrolling is tracked.
    pub left_screen_edge_pos: u8,
    /// Only meaningful when scrolling is tracked.
    pub side_collision_timer: u8,
    /// One bit per tracked coin, in coin-list order.
    pub collected_coins: u32,
    /// Only meaningful when powerups are tracked.
    pub powerup_block_hit: bool,
    /// Only meaningful when powerups are tracked.
    pub powerup_collected: bool,
    pub parity: u8,
}

impl State {
    pub open spec fn spec_is_on_ground(self) -> bool {
        self.player_state is STANDING
    }

    pub fn is_on_ground(&self) -> (r: bool)
        ensures
            r == self.spec_is_on_ground(),
    {
        match self.player_state {
            PlayerState::STANDING => true,
            _ => false,
        }
    }

    /// Quantizes a raw absolute speed to the platform's nearest cutoff value.
    pub fn set_x_spd_abs(&mut self, plat: crate::options::Platform, spd: u8)
        ensures
            *final(self) == (State {
                x_spd_abs: plat.spec_x_spd_abs_cutoff(plat.spec_x_spd_abs_cutoff_index(spd)),
                ..*old(self)
            }),
    {
        let i = plat.get_x_spd_abs_cutoff(spd);
        self.x_spd_abs = plat.x_spd_abs_cutoff(i);
    }

    /// Runtime test of `wf`: whether every field of this state is inside
    /// the ranges the fingerprint codec packs.
    pub fn fits(&self, c: &SmbOptions) -> (r: bool)
        requires
            c.wf(),
        ensures
            r == self.wf(*c),
    {
        let coin_bits = c.coin_handler.coin_handler_bits();
        let coins_ok: bool = if coin_bits < 32 {
            self.collected_coins < (1u32 << coin_bits)
        } else {
            true
        };
        0 <= self.x_pos && self.x_pos < 0x100000 && 0xd000 <= self.y_pos && self.y_pos < 0x1d000
            && -0x4000 <= self.x_spd && self.x_spd < 0x4000 && -0x800 <= self.y_spd && self.y_spd
            < 0x800 && !self.facing_dir.is_empty() && c.platform.is_known_v_force(self.v_force)
            && c.platform.is_known_v_force(self.v_force_down) && self.x_spd_abs <= 0x27
            && self.jump_swim_timer < 0x20 && self.running_timer < 0x10
            && self.side_collision_timer < 0x10 && self.parity < c.parity.parity_value()
            && coins_ok
    }

    /// Every field is within the range its fingerprint bit width can hold,
    /// and the vertical-force fields hold values the physics can produce.
    /// The facing direction of a reachable state is never empty; the codec
    /// relies on that for its occupancy sentinel.
    pub open spec fn wf(self, c: SmbOptions) -> bool {
        &&& 0 <= self.x_pos < 0x100000
        &&& 0xd000 <= self.y_pos < 0x1d000
        &&& -0x4000 <= self.x_spd < 0x4000
        &&& -0x800 <= self.y_spd < 0x800
        &&& !(self.facing_dir is Empty)
        &&& c.platform.spec_is_known_v_force(self.v_force)
        &&& c.platform.spec_is_known_v_force(self.v_force_down)
        &&& self.x_spd_abs <= 0x27
        &&& self.jump_swim_timer < 0x20
        &&& self.running_timer < 0x10
        &&& self.side_collision_timer < 0x10
        &&& self.parity < c.parity.spec_parity_value()
        &&& (c.coin_handler.spec_coin_handler_bits() < 32
            ==> self.collected_coins < (1u32 << c.coin_handler.spec_coin_handler_bits()))
    }
}

/// The low `width` bits of `v`, most significant first.
pub open spec fn bits_of(v: nat, width: nat) -> Seq<bool>
    decreases width,
{
    if width == 0 {
        Seq::empty()
    } else {
        bits_of(v / 2, (width - 1) as nat).push(v % 2 == 1)
    }
}

pub broadcast proof fn lemma_bits_of_len(v: nat, width: nat)
    ensures
        #[trigger] bits_of(v, width).len() == width,
    decreases width,
{
    if width > 0 {
        lemma_bits_of_len(v / 2, (width - 1) as nat);
    }
}

/// The unsigned value of a bit string read most significant bit first.
pub open spec fn bits_val(bits: Seq<bool>) -> nat
    decreases bits.len(),
{
    if bits.len() == 0 {
        0
    } else {
        bits_val(bits.drop_last()) * 2 + (if bits.last() { 1nat } else { 0nat })
    }
}

pub open spec fn pow2b(n: nat) -> nat
    decreases n,
{
    if n == 0 { 1nat } else { 2 * pow2b((n - 1) as nat) }
}

pub proof fn lemma_bits_val_bound(bits: Seq<bool>)
    ensures
        bits_val(bits) < pow2b(bits.len()),
    decreases bits.len(),
{
    if bits.len() > 0 {
        lemma_bits_val_bound(bits.drop_last());
    }
}

/// A bit string with any bit set has a positive value.
pub proof fn lemma_bits_val_pos(bits: Seq<bool>, i: int)
    requires
        0 <= i < bits.len(),
        bits[i],
    ensures
        bits_val(bits) > 0,
    decreases bits.len(),
{
    if i < bits.len() - 1 {
        lemma_bits_val_pos(bits.drop_last(), i);
    }
}

/// Appends the low `width` bits of `v` to `out`, most significant first.
fn push_bits(out: &mut Vec<bool>, v: u32, width: u32)
    requires
        width <= 32,
    ensures
        final(out)@ == old(out)@ + bits_of(v as nat, width as nat),
    decreases width,
{
    proof {
        broadcast use lemma_bits_of_len;
    }
    if width == 0 {
        assert(final(out)@ =~= old(out)@ + bits_of(v as nat, 0));
    } else {
        push_bits(out, v / 2, width - 1);
        out.push(v % 2 == 1);
        assert(final(out)@ =~= old(out)@ + bits_of(v as nat, width as nat));
    }
}

/// Packs eight bits starting at `start` into one byte, high bit first.
fn pack_byte(bits: &Vec<bool>, start: usize) -> (r: u8)
    requires
        start + 8 <= bits@.len(),
    ensures
        r as nat == bits_val(bits@.subrange(start as int, start as int + 8)),
{
    let n: usize = bits.len();
    let mut acc: u32 = 0;
    let mut i: usize = 0;
    while i < 8
        invariant
            0 <= i <= 8,
            n == bits@.len(),
            start + 8 <= n,
            acc as nat == bits_val(bits@.subrange(start as int, start as int + i)),
            acc < 256,
        decreases 8 - i,
    {
        proof {
            let pre = bits@.subrange(start as int, start as int + i);
            let post = bits@.subrange(start as int, start as int + i + 1);
            assert(post.drop_last() =~= pre);
            lemma_bits_val_bound(post);
            assert(pow2b(8) == 256) by {
                reveal_with_fuel(pow2b, 10);
            }
            assert(pow2b(post.len()) <= pow2b(8)) by {
                lemma_pow2b_mono(post.len(), 8);
            }
        }
        acc = acc * 2 + (if bits[start + i] { 1 } else { 0 });
        i = i + 1;
    }
    acc as u8
}

pub proof fn lemma_pow2b_mono(a: nat, b: nat)
    requires
        a <= b,
    ensures
        pow2b(a) <= pow2b(b),
    decreases b,
{
    if a < b {
        lemma_pow2b_mono(a, (b - 1) as nat);
    }
}

/// The twelve fields packed for every scenario, concatenated most
/// significant bit first: position (sub-pixel bits dropped), velocity,
/// discrete mode, directions, vertical-force codes, speed class,
/// running flag and collision sides. The facing direction starts at bit 61,
/// so it always lands in byte 7 of the buffer.
pub open spec fn fixed_bits(c: SmbOptions, s: State) -> Seq<bool> {
    bits_of(((s.x_pos as int) / 16) as nat, 16)
        + bits_of((s.y_pos - 0xd000) as nat, 16)
        + bits_of((((s.x_spd + 0x4000) as int) / 4) as nat, 13)
        + bits_of((s.y_spd + 0x800) as nat, 12)
        + bits_of(s.player_state.spec_bits() as nat, 2)
        + bits_of(s.moving_dir.spec_bits() as nat, 2)
        + bits_of(s.facing_dir.spec_bits() as nat, 2)
        + bits_of(c.platform.spec_v_force_index(s.v_force) as nat, 4)
        + bits_of(c.platform.spec_v_force_index(s.v_force_down) as nat, 4)
        + bits_of(c.platform.spec_x_spd_abs_cutoff_index(s.x_spd_abs) as nat, 3)
        + bits_of(if s.running_speed { 1nat } else { 0nat }, 1)
        + bits_of(s.collision_bits.spec_bits() as nat, 2)
}

/// The optional fields enabled by the scenario configuration, in a fixed
/// order, appended after the fixed fields.
pub open spec fn optional_bits(c: SmbOptions, s: State) -> Seq<bool> {
    let crouch = if c.player_size.spec_may_be_big() {
        bits_of(if s.is_crouching { 1nat } else { 0nat }, 1)
    } else {
        Seq::empty()
    };
    let swim = if c.swim.spec_is_swimming() {
        bits_of(s.jump_swim_timer as nat, 5)
    } else {
        Seq::empty()
    };
    let rt = if c.running_timer.spec_use_running_timer() {
        bits_of(s.running_timer as nat, 4)
    } else {
        Seq::empty()
    };
    let scroll = if c.scroll_pos.spec_track_scroll_pos() {
        bits_of(s.left_screen_edge_pos as nat, 8) + bits_of(s.side_collision_timer as nat, 4)
    } else {
        Seq::empty()
    };
    let par = if c.parity.spec_parity_bits() > 0 {
        bits_of(s.parity as nat, c.parity.spec_parity_bits())
    } else {
        Seq::empty()
    };
    let coins = if c.coin_handler.spec_coin_handler_bits() > 0 {
        bits_of(s.collected_coins as nat, c.coin_handler.spec_coin_handler_bits())
    } else {
        Seq::empty()
    };
    let pow = if c.powerup_handler.spec_powerup_handler_bits() > 0 {
        bits_of(if s.powerup_block_hit { 1nat } else { 0nat }, 1)
            + bits_of(if s.powerup_collected { 1nat } else { 0nat }, 1)
    } else {
        Seq::empty()
    };
    crouch + swim + rt + scroll + par + coins + pow
}

/// The whole packed bit string of a state under a configuration.
pub open spec fn state_bits(c: SmbOptions, s: State) -> Seq<bool> {
    fixed_bits(c, s) + optional_bits(c, s)
}

#[verifier::rlimit(60)]
pub proof fn lemma_state_bits_len(c: SmbOptions, s: State)
    ensures
        fixed_bits(c, s).len() == 77,
        state_bits(c, s).len() == c.spec_total_bits(),
{
    broadcast use lemma_bits_of_len;

    assert(fixed_bits(c, s).len() == 77);
    assert(optional_bits(c, s).len() == c.spec_total_bits() - 77);
}

/// A bit string padded with zero bits to the next byte boundary.
pub open spec fn padded_bits(b: Seq<bool>) -> Seq<bool> {
    b + Seq::new((((8 - b.len() % 8) % 8) as nat), |i: int| false)
}

/// A bit string packed eight bits to a byte, high bit first, the last byte
/// padded with zero bits.
pub open spec fn spec_pack(b: Seq<bool>) -> Seq<u8> {
    Seq::new((b.len() + 7) / 8, |i: int| bits_val(padded_bits(b).subrange(8 * i, 8 * i + 8)) as u8)
}

/// The packed fingerprint: the state's bit string, eight bits to a byte.
pub open spec fn spec_compress(c: SmbOptions, s: State) -> Seq<u8> {
    spec_pack(state_bits(c, s))
}

/// Appends the fixed fields of `s` to `out`.
#[verifier::rlimit(100)]
fn push_fixed(out: &mut Vec<bool>, s: &State, c: &SmbOptions)
    requires
        c.wf(),
        s.wf(*c),
    ensures
        final(out)@ == old(out)@ + fixed_bits(*c, *s),
{
    proof {
        broadcast use lemma_bits_of_len;

    }
    let fx: u32 = (s.x_pos as u32) / 16;
    push_bits(out, fx, 16);
    let fy: u32 = (s.y_pos - 0xd000) as u32;
    push_bits(out, fy, 16);
    let fxs: u32 = ((s.x_spd as i32 + 0x4000) as u32) / 4;
    push_bits(out, fxs, 13);
    let fys: u32 = (s.y_spd as i32 + 0x800) as u32;
    push_bits(out, fys, 12);
    push_bits(out, s.player_state.bits(), 2);
    push_bits(out, s.moving_dir.bits() as u32, 2);
    push_bits(out, s.facing_dir.bits() as u32, 2);
    push_bits(out, c.platform.get_v_force_index(s.v_force), 4);
    push_bits(out, c.platform.get_v_force_index(s.v_force_down), 4);
    push_bits(out, c.platform.get_x_spd_abs_cutoff(s.x_spd_abs) as u32, 3);
    push_bits(out, if s.running_speed { 1 } else { 0 }, 1);
    push_bits(out, s.collision_bits.bits() as u32, 2);
    assert(final(out)@ =~= old(out)@ + fixed_bits(*c, *s));
}

/// Appends the collected-crouch flag when the player can be big.
fn push_opt_crouch(out: &mut Vec<bool>, s: &State, c: &SmbOptions)
    ensures
        final(out)@ == old(out)@ + (if c.player_size.spec_may_be_big() {
            bits_of(if s.is_crouching { 1nat } else { 0nat }, 1)
        } else {
            Seq::<bool>::empty()
        }),
{
    if c.player_size.may_be_big() {
        push_bits(out, if s.is_crouching { 1 } else { 0 }, 1);
    } else {
        assert(final(out)@ =~= old(out)@ + Seq::<bool>::empty());
    }
}

/// Appends the swim timer when the scenario is under water.
fn push_opt_swim(out: &mut Vec<bool>, s: &State, c: &SmbOptions)
    ensures
        final(out)@ == old(out)@ + (if c.swim.spec_is_swimming() {
            bits_of(s.jump_swim_timer as nat, 5)
        } else {
            Seq::<bool>::empty()
        }),
{
    if c.swim.is_swimming() {
        push_bits(out, s.jump_swim_timer as u32, 5);
    } else {
        assert(final(out)@ =~= old(out)@ + Seq::<bool>::empty());
    }
}

/// Appends the running timer when it is tracked.
fn push_opt_rt(out: &mut Vec<bool>, s: &State, c: &SmbOptions)
    ensures
        final(out)@ == old(out)@ + (if c.running_timer.spec_use_running_timer() {
            bits_of(s.running_timer as nat, 4)
        } else {
            Seq::<bool>::empty()
        }),
{
    if c.running_timer.use_running_timer() {
        push_bits(out, s.running_timer as u32, 4);
    } else {
        assert(final(out)@ =~= old(out)@ + Seq::<bool>::empty());
    }
}

/// Appends the scroll position and side-collision timer when tracked.
fn push_opt_scroll(out: &mut Vec<bool>, s: &State, c: &SmbOptions)
    ensures
        final(out)@ == old(out)@ + (if c.scroll_pos.spec_track_scroll_pos() {
            bits_of(s.left_screen_edge_pos as nat, 8) + bits_of(s.side_collision_timer as nat, 4)
        } else {
            Seq::<bool>::empty()
        }),
{
    if c.scroll_pos.track_scroll_pos() {
        push_bits(out, s.left_screen_edge_pos as u32, 8);
        push_bits(out, s.side_collision_timer as u32, 4);
        assert(final(out)@ =~= old(out)@ + (bits_of(s.left_screen_edge_pos as nat, 8)
            + bits_of(s.side_collision_timer as nat, 4)));
    } else {
        assert(final(out)@ =~= old(out)@ + Seq::<bool>::empty());
    }
}

/// Appends the parity counter when it is tracked.
fn push_opt_parity(out: &mut Vec<bool>, s: &State, c: &SmbOptions)
    ensures
        final(out)@ == old(out)@ + (if c.parity.spec_parity_bits() > 0 {
            bits_of(s.parity as nat, c.parity.spec_parity_bits())
        } else {
            Seq::<bool>::empty()
        }),
{
    let pbits: u32 = c.parity.parity_bits();
    if pbits > 0 {
        push_bits(out, s.parity as u32, pbits);
    } else {
        assert(final(out)@ =~= old(out)@ + Seq::<bool>::empty());
    }
}

/// Appends the collected-coin bits when coins are tracked.
fn push_opt_coins(out: &mut Vec<bool>, s: &State, c: &SmbOptions)
    requires
        c.wf(),
    ensures
        final(out)@ == old(out)@ + (if c.coin_handler.spec_coin_handler_bits() > 0 {
            bits_of(s.collected_coins as nat, c.coin_handler.spec_coin_handler_bits())
        } else {
            Seq::<bool>::empty()
        }),
{
    let cbits: u32 = c.coin_handler.coin_handler_bits();
    if cbits > 0 {
        push_bits(out, s.collected_coins, cbits);
    } else {
        assert(final(out)@ =~= old(out)@ + Seq::<bool>::empty());
    }
}

/// Appends the powerup flags when powerups are tracked.
fn push_opt_powerup(out: &mut Vec<bool>, s: &State, c: &SmbOptions)
    ensures
        final(out)@ == old(out)@ + (if c.powerup_handler.spec_powerup_handler_bits() > 0 {
            bits_of(if s.powerup_block_hit { 1nat } else { 0nat }, 1)
                + bits_of(if s.powerup_collected { 1nat } else { 0nat }, 1)
        } else {
            Seq::<bool>::empty()
        }),
{
    let wbits: u32 = c.powerup_handler.powerup_handler_bits();
    if wbits > 0 {
        push_bits(out, if s.powerup_block_hit { 1 } else { 0 }, 1);
        push_bits(out, if s.powerup_collected { 1 } else { 0 }, 1);
        assert(final(out)@ =~= old(out)@ + (bits_of(if s.powerup_block_hit { 1nat } else { 0nat },
            1) + bits_of(if s.powerup_collected { 1nat } else { 0nat }, 1)));
    } else {
        assert(final(out)@ =~= old(out)@ + Seq::<bool>::empty());
    }
}

proof fn lemma_seq_add_assoc<A>(a: Seq<A>, b: Seq<A>, c: Seq<A>)
    ensures
        (a + b) + c == a + (b + c),
{
    assert((a + b) + c =~= a + (b + c));
}

/// Appends the optional fields enabled by the configuration to `out`.
fn push_optional(out: &mut Vec<bool>, s: &State, c: &SmbOptions)
    requires
        c.wf(),
        s.wf(*c),
    ensures
        final(out)@ == old(out)@ + optional_bits(*c, *s),
{
    let ghost base = out@;
    let ghost f1 = if c.player_size.spec_may_be_big() {
        bits_of(if s.is_crouching { 1nat } else { 0nat }, 1)
    } else {
        Seq::<bool>::empty()
    };
    let ghost f2 = if c.swim.spec_is_swimming() {
        bits_of(s.jump_swim_timer as nat, 5)
    } else {
        Seq::<bool>::empty()
    };
    let ghost f3 = if c.running_timer.spec_use_running_timer() {
        bits_of(s.running_timer as nat, 4)
    } else {
        Seq::<bool>::empty()
    };
    let ghost f4 = if c.scroll_pos.spec_track_scroll_pos() {
        bits_of(s.left_screen_edge_pos as nat, 8) + bits_of(s.side_collision_timer as nat, 4)
    } else {
        Seq::<bool>::empty()
    };
    let ghost f5 = if c.parity.spec_parity_bits() > 0 {
        bits_of(s.parity as nat, c.parity.spec_parity_bits())
    } else {
        Seq::<bool>::empty()
    };
    let ghost f6 = if c.coin_handler.spec_coin_handler_bits() > 0 {
        bits_of(s.collected_coins as nat, c.coin_handler.spec_coin_handler_bits())
    } else {
        Seq::<bool>::empty()
    };
    let ghost f7 = if c.powerup_handler.spec_powerup_handler_bits() > 0 {
        bits_of(if s.powerup_block_hit { 1nat } else { 0nat }, 1)
            + bits_of(if s.powerup_collected { 1nat } else { 0nat }, 1)
    } else {
        Seq::<bool>::empty()
    };
    push_opt_crouch(out, s, c);
    push_opt_swim(out, s, c);
    push_opt_rt(out, s, c);
    push_opt_scroll(out, s, c);
    push_opt_parity(out, s, c);
    push_opt_coins(out, s, c);
    push_opt_powerup(out, s, c);
    proof {
        assert(out@ == ((((((base + f1) + f2) + f3) + f4) + f5) + f6) + f7);
        lemma_seq_add_assoc(base + f1, f2, f3);
        lemma_seq_add_assoc(base + f1, f2 + f3, f4);
        lemma_seq_add_assoc(base + f1, (f2 + f3) + f4, f5);
        lemma_seq_add_assoc(base + f1, ((f2 + f3) + f4) + f5, f6);
        lemma_seq_add_assoc(base + f1, (((f2 + f3) + f4) + f5) + f6, f7);
        assert(out@ == (base + f1) + (((((f2 + f3) + f4) + f5) + f6) + f7));
        lemma_seq_add_assoc(base, f1, ((((f2 + f3) + f4) + f5) + f6) + f7);
        lemma_seq_add_assoc(f1, (((f2 + f3) + f4) + f5) + f6, f7);
        lemma_seq_add_assoc(f1, ((f2 + f3) + f4) + f5, f6);
        lemma_seq_add_assoc(f1, (f2 + f3) + f4, f5);
        lemma_seq_add_assoc(f1, f2 + f3, f4);
        lemma_seq_add_assoc(f1, f2, f3);
        assert(optional_bits(*c, *s) == ((((((f1 + f2) + f3) + f4) + f5) + f6) + f7));
        assert(out@ == base + optional_bits(*c, *s));
    }
}

/// Pads a bit string to a byte boundary and packs it into bytes.
fn pack_all(bits_in: Vec<bool>) -> (r: Vec<u8>)
    requires
        bits_in@.len() + 8 <= usize::MAX,
    ensures
        r@ == spec_pack(bits_in@),
{
    let ghost sb = bits_in@;
    let mut bits = bits_in;

    // Pad to a byte boundary with zero bits.
    let pad: usize = (8 - bits.len() % 8) % 8;
    let mut j: usize = 0;
    while j < pad
        invariant
            j <= pad,
            pad < 8,
            bits@ == sb + Seq::new(j as nat, |i: int| false),
            sb.len() + 8 <= usize::MAX,
        decreases pad - j,
    {
        bits.push(false);
        assert(bits@ =~= sb + Seq::new((j + 1) as nat, |i: int| false));
        j = j + 1;
    }
    assert(bits@ =~= padded_bits(sb));
    proof {
        lemma_pad_arith(sb.len());
    }
    assert(bits@.len() == ((sb.len() + 7) / 8) * 8);

    // Pack eight bits to a byte, high bit first.
    let total_bytes: usize = bits.len() / 8;
    let mut buf: Vec<u8> = Vec::new();
    let mut bi: usize = 0;
    while bi < total_bytes
        invariant
            bi <= total_bytes,
            total_bytes * 8 == bits@.len(),
            bits@.len() <= usize::MAX,
            buf@ == Seq::new(bi as nat, |i: int| bits_val(bits@.subrange(8 * i, 8 * i + 8)) as u8),
        decreases total_bytes - bi,
    {
        let b = pack_byte(&bits, bi * 8);
        buf.push(b);
        assert(buf@ =~= Seq::new((bi + 1) as nat,
            |i: int| bits_val(bits@.subrange(8 * i, 8 * i + 8)) as u8));
        bi = bi + 1;
    }
    proof {
        assert(bits@ == padded_bits(sb));
        assert(total_bytes == (sb.len() + 7) / 8);
        assert(buf@ =~= spec_pack(sb));
    }
    buf
}

/// The fingerprint of a state: a compact byte buffer used as the key of the
/// visited-state store. An all-zero buffer never encodes a reachable state
/// (byte 7 holds the facing direction, which is never empty), so the store
/// can use a zeroed slot to mean "empty".
#[derive(Clone, Debug)]
pub struct CompressedState {
    pub buf: Vec<u8>,
}

impl View for CompressedState {
    type V = Seq<u8>;

    open spec fn view(&self) -> Seq<u8> {
        self.buf@
    }
}

impl CompressedState {
    /// Packs the scenario-relevant fields of `s` into a fresh buffer.
    /// The result is a pure function of the packed fields, and its length
    /// is exactly the configured bit sum rounded up to bytes.
    pub fn from_state(s: &State, c: &SmbOptions) -> (r: CompressedState)
        requires
            c.wf(),
            s.wf(*c),
        ensures
            r@ == spec_compress(*c, *s),
            r@.len() == c.spec_bytes_needed(),
            r.spec_is_valid(),
    {
        proof {
            lemma_state_bits_len(*c, *s);
        }
        let mut bits: Vec<bool> = Vec::new();
        push_fixed(&mut bits, s, c);
        push_optional(&mut bits, s, c);
        assert(bits@ =~= state_bits(*c, *s));
        let buf = pack_all(bits);
        let r = CompressedState { buf };
        proof {
            lemma_sentinel(*c, *s);
        }
        r
    }

    pub open spec fn spec_is_valid(self) -> bool {
        self@.len() > 7 && self@[7] != 0
    }

    /// Occupancy test: byte 7 holds the facing direction of the encoded
    /// state, which is never empty for a reachable state.
    pub fn is_valid(&self) -> (r: bool)
        ensures
            r == self.spec_is_valid(),
    {
        self.buf.len() > 7 && *vstd::slice::slice_index_get(self.buf.as_slice(), 7) != 0
    }

    /// The reserved fingerprint stored in empty slots.
    pub fn invalid() -> (r: CompressedState)
        ensures
            !r.spec_is_valid(),
            r@.len() == 0,
    {
        CompressedState { buf: Vec::new() }
    }

    /// An owned copy with the same bytes.
    pub fn duplicate(&self) -> (r: CompressedState)
        ensures
            r@ == self@,
    {
        let n: usize = self.buf.len();
        let mut buf: Vec<u8> = Vec::new();
        let mut i: usize = 0;
        while i < n
            invariant
                i <= n,
                n == self@.len(),
                buf@ == self@.subrange(0, i as int),
            decreases n - i,
        {
            buf.push(self.buf[i]);
            assert(buf@ =~= self@.subrange(0, i + 1));
            i = i + 1;
        }
        proof {
            assert(buf@ =~= self@);
        }
        CompressedState { buf }
    }

    /// Byte-wise fingerprint equality.
    pub fn key_eq(&self, other: &CompressedState) -> (r: bool)
        ensures
            r == (self@ == other@),
    {
        if self.buf.len() != other.buf.len() {
            assert(self@.len() != other@.len());
            return false;
        }
        let n: usize = self.buf.len();
        let mut i: usize = 0;
        while i < n
            invariant
                i <= n,
                n == self@.len(),
                n == other@.len(),
                forall|j: int| 0 <= j < i ==> self@[j] == other@[j],
            decreases n - i,
        {
            if self.buf[i] != other.buf[i] {
                return false;
            }
            i = i + 1;
        }
        proof {
            assert(self@ =~= other@);
        }
        true
    }

    /// A 64-bit hash of the fingerprint bytes (FNV-1a).
    pub fn hash64(&self) -> (r: u64)
        ensures
            r == fnv1a(self@),
    {
        let n: usize = self.buf.len();
        let mut h: u64 = 0xcbf29ce484222325;
        let mut i: usize = 0;
        while i < n
            invariant
                i <= n,
                n == self@.len(),
                h == fnv1a(self@.subrange(0, i as int)),
            decreases n - i,
        {
            proof {
                assert(self@.subrange(0, i + 1).drop_last() =~= self@.subrange(0, i as int));
            }
            h = (h ^ (self.buf[i] as u64)).wrapping_mul(0x100000001b3);
            i = i + 1;
        }
        proof {
            assert(self@.subrange(0, n as int) =~= self@);
        }
        h
    }
}

/// The FNV-1a hash of a byte string: deterministic, so that a fingerprint's
/// home slot is a function of the fingerprint alone.
pub open spec fn fnv1a(s: Seq<u8>) -> u64
    decreases s.len(),
{
    if s.len() == 0 {
        0xcbf29ce484222325u64
    } else {
        (fnv1a(s.drop_last()) ^ (s.last() as u64)).wrapping_mul(0x100000001b3)
    }
}

/// Rounding the bit count up to bytes adds exactly the padding that makes
/// the total a multiple of eight.
pub proof fn lemma_pad_arith(t: nat)
    ensures
        ((t + 7) / 8) * 8 == t + (8 - t % 8) % 8,
        (t + (8 - t % 8) % 8) % 8 == 0,
{
    let q = t / 8;
    let r = t % 8;
    assert(t == 8 * q + r) by (nonlinear_arith)
        requires
            q == t / 8,
            r == t % 8,
    {
    }
    if r == 0 {
        assert((t + 7) / 8 == q);
    } else {
        assert((t + 7) / 8 == q + 1);
    }
}

/// Sentinel law: the fingerprint of a well-formed state is never the
/// reserved all-zero buffer, because byte 7 holds the facing direction.
pub proof fn lemma_sentinel(c: SmbOptions, s: State)
    requires
        c.wf(),
        s.wf(c),
    ensures
        spec_compress(c, s).len() == c.spec_bytes_needed(),
        spec_compress(c, s).len() >= 10,
        spec_compress(c, s)[7] != 0,
{
    broadcast use lemma_bits_of_len;

    lemma_state_bits_len(c, s);
    lemma_pad_arith(c.spec_total_bits());
    let sb = state_bits(c, s);
    let padded = padded_bits(sb);
    let chunk = padded.subrange(56, 64);
    let fd = s.facing_dir.spec_bits();
    assert(bits_of(fd as nat, 2) == bits_of((fd as nat) / 2, 1).push(fd as nat % 2 == 1));
    assert(bits_of((fd as nat) / 2, 1) == bits_of((fd as nat) / 4, 0).push((fd as nat) / 2 % 2 == 1));
    assert(bits_of(fd as nat, 2)[0] == ((fd as nat) / 2 % 2 == 1));
    assert(bits_of(fd as nat, 2)[1] == ((fd as nat) % 2 == 1));
    assert(fixed_bits(c, s)[61] == ((fd as nat) / 2 % 2 == 1));
    assert(fixed_bits(c, s)[62] == ((fd as nat) % 2 == 1));
    assert(chunk[5] == sb[61]);
    assert(chunk[6] == sb[62]);
    assert(fd == 1 || fd == 2 || fd == 3);
    if fd >= 2 {
        lemma_bits_val_pos(chunk, 5);
    } else {
        lemma_bits_val_pos(chunk, 6);
    }
    lemma_bits_val_bound(chunk);
    assert(pow2b(8) == 256) by {
        reveal_with_fuel(pow2b, 10);
    }
    assert(spec_compress(c, s)[7] == bits_val(chunk) as u8);
}

/// Fingerprint determinism: states that agree on every packed field (after
/// the sub-pixel bits the codec drops) have equal fingerprints.
pub open spec fn spec_packed_fields_eq(c: SmbOptions, s1: State, s2: State) -> bool {
    &&& s1.x_pos / 16 == s2.x_pos / 16
    &&& s1.y_pos == s2.y_pos
    &&& (s1.x_spd + 0x4000) / 4 == (s2.x_spd + 0x4000) / 4
    &&& s1.y_spd == s2.y_spd
    &&& s1.player_state == s2.player_state
    &&& s1.moving_dir == s2.moving_dir
    &&& s1.facing_dir == s2.facing_dir
    &&& c.platform.spec_v_force_index(s1.v_force) == c.platform.spec_v_force_index(s2.v_force)
    &&& c.platform.spec_v_force_index(s1.v_force_down) == c.platform.spec_v_force_index(
        s2.v_force_down,
    )
    &&& c.platform.spec_x_spd_abs_cutoff_index(s1.x_spd_abs) == c.platform.spec_x_spd_abs_cutoff_index(
        s2.x_spd_abs,
    )
    &&& s1.running_speed == s2.running_speed
    &&& s1.collision_bits == s2.collision_bits
    &&& (c.player_size.spec_may_be_big() ==> s1.is_crouching == s2.is_crouching)
    &&& (c.swim.spec_is_swimming() ==> s1.jump_swim_timer == s2.jump_swim_timer)
    &&& (c.running_timer.spec_use_running_timer() ==> s1.running_timer == s2.running_timer)
    &&& (c.scroll_pos.spec_track_scroll_pos() ==> s1.left_screen_edge_pos
        == s2.left_screen_edge_pos && s1.side_collision_timer == s2.side_collision_timer)
    &&& (c.parity.spec_parity_bits() > 0 ==> s1.parity == s2.parity)
    &&& (c.coin_handler.spec_coin_handler_bits() > 0 ==> s1.collected_coins == s2.collected_coins)
    &&& (c.powerup_handler.spec_powerup_handler_bits() > 0 ==> s1.powerup_block_hit
        == s2.powerup_block_hit && s1.powerup_collected == s2.powerup_collected)
}

/// Anything that can stand in for a state as a duplicate-detection key.
pub trait StateCompressor: Sized {
    /// Whether `self` is the key of state `s` under configuration `c`.
    spec fn matches_state(&self, s: State, c: SmbOptions) -> bool;

    fn from_state(s: &State, c: &SmbOptions) -> (r: Self)
        requires
            c.wf(),
            s.wf(*c),
        ensures
            r.matches_state(*s, *c),
    ;
}

impl StateCompressor for State {
    open spec fn matches_state(&self, s: State, c: SmbOptions) -> bool {
        *self == s
    }

    fn from_state(s: &State, c: &SmbOptions) -> (r: Self) {
        *s
    }
}

impl StateCompressor for CompressedState {
    open spec fn matches_state(&self, s: State, c: SmbOptions) -> bool {
        self@ == spec_compress(c, s)
    }

    fn from_state(s: &State, c: &SmbOptions) -> (r: Self) {
        CompressedState::from_state(s, c)
    }
}

/// A fingerprint that carries its own distance, for stores whose slots
/// hold the distance inside the key.
pub struct StateDist {
    pub s: CompressedState,
    pub dist: Dist,
}

/// Keys that carry a distance alongside the compressed state.
pub trait StateDistCompressor: Sized {
    spec fn spec_dist(&self) -> Dist;

    fn from_state_dist(s: &State, c: &SmbOptions, d: Dist) -> (r: Self)
        requires
            c.wf(),
            s.wf(*c),
        ensures
            r.spec_dist() == d,
    ;

    fn dist(&self) -> (r: Dist)
        ensures
            r == self.spec_dist(),
    ;

    fn increment_dist(&mut self)
        requires
            old(self).spec_dist() < 0xffff,
        ensures
            final(self).spec_dist() == old(self).spec_dist() + 1,
    ;
}

impl StateDistCompressor for StateDist {
    open spec fn spec_dist(&self) -> Dist {
        self.dist
    }

    fn from_state_dist(s: &State, c: &SmbOptions, d: Dist) -> (r: Self) {
        StateDist { s: CompressedState::from_state(s, c), dist: d }
    }

    fn dist(&self) -> (r: Dist) {
        self.dist
    }

    fn increment_dist(&mut self) {
        self.dist = self.dist + 1;
    }
}

/// Two states the search should treat as one configuration compress to the
/// same fingerprint: the codec reads nothing outside the packed fields.
pub proof fn lemma_fingerprint_determined_by_packed_fields(c: SmbOptions, s1: State, s2: State)
    requires
        c.wf(),
        s1.wf(c),
        s2.wf(c),
        spec_packed_fields_eq(c, s1, s2),
    ensures
        spec_compress(c, s1) == spec_compress(c, s2),
{
    assert(fixed_bits(c, s1) == fixed_bits(c, s2));
    assert(optional_bits(c, s1) == optional_bits(c, s2));
}

} // verus!
