//! Collision maps: what block, if any, occupies a 16x16 cell of the level,
//! and the block-class predicates the collision routines branch on.

use vstd::prelude::*;

verus! {

/// Collectible coin tiles.
pub open spec fn spec_is_coin(cv: u8) -> bool {
    cv == 0xc2 || cv == 0xc3
}

pub fn is_coin(cv: u8) -> (r: bool)
    ensures
        r == spec_is_coin(cv),
{
    cv == 0xc2 || cv == 0xc3
}

/// Tiles the player cannot pass through.
pub open spec fn spec_is_solid(cv: u8) -> bool {
    ||| (cv < 0x40 && cv >= 0x10)
    ||| (cv < 0x80 && cv >= 0x61)
    ||| (cv < 0xc0 && cv >= 0x88)
    ||| cv >= 0xc4
}

pub fn is_solid(cv: u8) -> (r: bool)
    ensures
        r == spec_is_solid(cv),
{
    (cv < 0x40 && cv >= 0x10) || (cv < 0x80 && cv >= 0x61) || (cv < 0xc0 && cv >= 0x88)
        || cv >= 0xc4
}

/// Climbable tiles: vines and the flag pole.
pub open spec fn spec_is_climb(cv: u8) -> bool {
    ||| (cv < 0x40 && cv >= 0x24)
    ||| (cv < 0x80 && cv >= 0x6d)
    ||| (cv < 0xc0 && cv >= 0x8a)
    ||| cv >= 0xc6
}

pub fn is_climb(cv: u8) -> (r: bool)
    ensures
        r == spec_is_climb(cv),
{
    (cv < 0x40 && cv >= 0x24) || (cv < 0x80 && cv >= 0x6d) || (cv < 0xc0 && cv >= 0x8a)
        || cv >= 0xc6
}

/// Invisible blocks that only a head bump reveals.
pub open spec fn spec_is_hidden_block(cv: u8) -> bool {
    cv == 0x5f || cv == 0x60
}

pub fn is_hidden_block(cv: u8) -> (r: bool)
    ensures
        r == spec_is_hidden_block(cv),
{
    cv == 0x5f || cv == 0x60
}

/// Question blocks (and their hidden variants).
pub open spec fn spec_is_question_block(cv: u8) -> bool {
    cv == 0xc0 || cv == 0xc1 || (cv >= 0x55 && cv <= 0x60)
}

pub fn is_question_block(cv: u8) -> (r: bool)
    ensures
        r == spec_is_question_block(cv),
{
    cv == 0xc0 || cv == 0xc1 || (cv >= 0x55 && cv <= 0x60)
}

/// A level's collision map: the block value at each 16x16 cell. Cells
/// outside the stored area are empty.
pub trait BlockBuffer {
    spec fn spec_block_at(&self, x: int, y: int) -> u8;

    fn get_block_at(&self, x: usize, y: usize) -> (r: u8)
        ensures
            r == self.spec_block_at(x as int, y as int),
    ;
}

/// The empty collision map: no block anywhere.
pub enum NoCollisions {
    Nothing,
}

impl BlockBuffer for NoCollisions {
    open spec fn spec_block_at(&self, x: int, y: int) -> u8 {
        0
    }

    fn get_block_at(&self, x: usize, y: usize) -> (r: u8) {
        0
    }
}

/// A collision map backed by rows of block values: row `y`, column `x`.
/// Anything outside the stored rows or row lengths is empty.
pub struct BlockGrid {
    pub rows: Vec<Vec<u8>>,
}

impl BlockGrid {
    pub fn new(rows: Vec<Vec<u8>>) -> (r: BlockGrid)
        ensures
            r.rows@ == rows@,
    {
        BlockGrid { rows }
    }
}

impl BlockBuffer for BlockGrid {
    open spec fn spec_block_at(&self, x: int, y: int) -> u8 {
        if 0 <= y < self.rows@.len() && 0 <= x < self.rows@[y]@.len() {
            self.rows@[y]@[x]
        } else {
            0
        }
    }

    fn get_block_at(&self, x: usize, y: usize) -> (r: u8) {
        if y < self.rows.len() {
            let row = &self.rows[y];
            if x < row.len() {
                row[x]
            } else {
                0
            }
        } else {
            0
        }
    }
}

} // verus!
