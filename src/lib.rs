//! Rule engine for a two-player card-driven strategy game on a 5x5 grid.
//!
//! Each side has a King and four Pawns and holds two movement cards; a fifth
//! card lies spare. A move uses a hand card, which then swaps places with the
//! spare, and the spare's stamp names the next player. A side wins by taking
//! the opposing King or by bringing its own King to the opposing home square.
//!
//! - `square`, `moves`, `player`, `piece`: coordinates, relative moves and
//!   their mirroring for Blue.
//! - `card`: the fixed catalog of sixteen cards.
//! - `board`, `side`: the grid of occupants and each player's slots and hand.
//! - `game`: legal-action listing, move application and win detection, with
//!   the invariant that the grid and the slots describe the same placement.
//! - `ui`: the click-driven selection logic of a terminal front end.
//! - `list`: a small inline list with swap-removal.

pub mod player;
pub mod moves;
pub mod square;
pub mod piece;
pub mod card;
pub mod board;
pub mod side;
pub mod game;
pub mod list;
pub mod ui;

use vstd::prelude::*;

verus! {

/// Number of files (and of ranks) of the grid, and of piece slots per side.
pub const SIZE: usize = 5;

/// Number of cards in a hand.
pub const HAND: usize = 2;

} // verus!
