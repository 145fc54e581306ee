//! An offline route optimizer for a deterministic 2D platformer: an
//! iterative-deepening depth-first search over the game's state-transition
//! graph, backed by a compact bit-packed state fingerprint and an
//! open-addressed probing hash table as the visited-state store.

pub mod options;
pub mod store;
pub mod blockbuffer;
pub mod emu;
pub mod heuristics;
pub mod ida;
pub mod case;
pub mod state;
