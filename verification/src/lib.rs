//! A turn-based city-building game on a fixed 13-cell map, together with a
//! depth-bounded game-tree search that recommends moves.
//!
//! The library is organised around a small state machine: `GameState` holds
//! the map, the resource counters and the cached list of legal actions;
//! `advance` is the single mutation entry point; `find_legal_actions`
//! enumerates the moves the rules allow; the `ai` module scores states and
//! searches the move tree with a memoised score table.

pub mod ai;
pub mod buildings;
pub mod game_state;
pub mod laws;
pub mod legal;
pub mod resources;
pub mod tile;
