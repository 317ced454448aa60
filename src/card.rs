use vstd::prelude::*;

use crate::moves::Horizontal::{Left, Right};
use crate::moves::Move;
use crate::moves::Vertical::{Down, Up};
use crate::player::Player;

verus! {

/// Number of cards in the catalog.
pub const CARD_COUNT: usize = 16;

/// A movement card: a name, the player it hands the turn to, and the moves it
/// allows, written from Red's view.
#[derive(Clone, Eq, PartialEq, Debug)]
pub struct Card {
    pub name: &'static str,
    pub stamp: Player,
    pub moves: Vec<Move>,
}

/// The moves of catalog card `id`, from Red's view.
pub open spec fn card_moves(id: int) -> Seq<Move> {
    if id == 0 {
        seq![Move(Up(2), Right(0)), Move(Down(1), Right(0))]
    } else if id == 1 {
        seq![Move(Up(1), Right(0)), Move(Up(0), Right(2)), Move(Up(0), Left(2))]
    } else if id == 2 {
        seq![Move(Up(1), Left(1)), Move(Up(1), Right(1)), Move(Down(1), Left(1)), Move(Down(1), Right(1))]
    } else if id == 3 {
        seq![Move(Up(1), Right(0)), Move(Down(1), Left(1)), Move(Down(1), Right(1))]
    } else if id == 4 {
        seq![Move(Up(1), Left(2)), Move(Up(1), Right(2)), Move(Down(1), Left(1)), Move(Down(1), Right(1))]
    } else if id == 5 {
        seq![Move(Up(1), Left(1)), Move(Up(1), Right(1)), Move(Up(0), Left(1)), Move(Up(0), Right(1))]
    } else if id == 6 {
        seq![Move(Up(1), Left(1)), Move(Up(1), Right(1)), Move(Down(1), Right(0))]
    } else if id == 7 {
        seq![Move(Up(1), Right(0)), Move(Up(0), Left(1)), Move(Up(0), Right(1))]
    } else if id == 8 {
        seq![Move(Up(1), Left(1)), Move(Up(0), Left(2)), Move(Down(1), Right(1))]
    } else if id == 9 {
        seq![Move(Up(1), Left(1)), Move(Up(0), Left(1)), Move(Up(0), Right(1)), Move(Down(1), Right(1))]
    } else if id == 10 {
        seq![Move(Up(1), Right(0)), Move(Up(0), Left(1)), Move(Down(1), Right(0))]
    } else if id == 11 {
        seq![Move(Up(1), Left(1)), Move(Up(0), Right(1)), Move(Down(1), Left(1))]
    } else if id == 12 {
        seq![Move(Up(1), Right(1)), Move(Up(0), Right(2)), Move(Down(1), Left(1))]
    } else if id == 13 {
        seq![Move(Up(1), Right(1)), Move(Up(0), Right(1)), Move(Up(0), Left(1)), Move(Down(1), Left(1))]
    } else if id == 14 {
        seq![Move(Up(1), Left(0)), Move(Up(0), Right(1)), Move(Down(1), Left(0))]
    } else {
        seq![Move(Up(1), Right(1)), Move(Up(0), Left(1)), Move(Down(1), Right(1))]
    }
}

/// The player that catalog card `id` is stamped with.
pub open spec fn card_stamp(id: int) -> Player {
    if id == 4 || id == 5 || id == 6 || id == 7 || id == 8 || id == 10 || id == 13 || id == 15 {
        Player::Red
    } else {
        Player::Blue
    }
}

/// Card `id` of the catalog.
pub fn card(id: usize) -> (c: Card)
    requires
        id < CARD_COUNT,
    ensures
        c.moves@ == card_moves(id as int),
        c.stamp == card_stamp(id as int),
        c.moves@.len() <= 4,
{
    match id {
        0 => Card {
            name: "Tiger",
            stamp: Player::Blue,
            moves: vec![Move(Up(2), Right(0)), Move(Down(1), Right(0))],
        },
        1 => Card {
            name: "Crab",
            stamp: Player::Blue,
            moves: vec![Move(Up(1), Right(0)), Move(Up(0), Right(2)), Move(Up(0), Left(2))],
        },
        2 => Card {
            name: "Monkey",
            stamp: Player::Blue,
            moves: vec![Move(Up(1), Left(1)), Move(Up(1), Right(1)), Move(Down(1), Left(1)), Move(Down(1), Right(1))],
        },
        3 => Card {
            name: "Crane",
            stamp: Player::Blue,
            moves: vec![Move(Up(1), Right(0)), Move(Down(1), Left(1)), Move(Down(1), Right(1))],
        },
        4 => Card {
            name: "Dragon",
            stamp: Player::Red,
            moves: vec![Move(Up(1), Left(2)), Move(Up(1), Right(2)), Move(Down(1), Left(1)), Move(Down(1), Right(1))],
        },
        5 => Card {
            name: "Elephant",
            stamp: Player::Red,
            moves: vec![Move(Up(1), Left(1)), Move(Up(1), Right(1)), Move(Up(0), Left(1)), Move(Up(0), Right(1))],
        },
        6 => Card {
            name: "Mantis",
            stamp: Player::Red,
            moves: vec![Move(Up(1), Left(1)), Move(Up(1), Right(1)), Move(Down(1), Right(0))],
        },
        7 => Card {
            name: "Boar",
            stamp: Player::Red,
            moves: vec![Move(Up(1), Right(0)), Move(Up(0), Left(1)), Move(Up(0), Right(1))],
        },
        8 => Card {
            name: "Frog",
            stamp: Player::Red,
            moves: vec![Move(Up(1), Left(1)), Move(Up(0), Left(2)), Move(Down(1), Right(1))],
        },
        9 => Card {
            name: "Goose",
            stamp: Player::Blue,
            moves: vec![Move(Up(1), Left(1)), Move(Up(0), Left(1)), Move(Up(0), Right(1)), Move(Down(1), Right(1))],
        },
        10 => Card {
            name: "Horse",
            stamp: Player::Red,
            moves: vec![Move(Up(1), Right(0)), Move(Up(0), Left(1)), Move(Down(1), Right(0))],
        },
        11 => Card {
            name: "Eel",
            stamp: Player::Blue,
            moves: vec![Move(Up(1), Left(1)), Move(Up(0), Right(1)), Move(Down(1), Left(1))],
        },
        12 => Card {
            name: "Rabbit",
            stamp: Player::Blue,
            moves: vec![Move(Up(1), Right(1)), Move(Up(0), Right(2)), Move(Down(1), Left(1))],
        },
        13 => Card {
            name: "Rooster",
            stamp: Player::Red,
            moves: vec![Move(Up(1), Right(1)), Move(Up(0), Right(1)), Move(Up(0), Left(1)), Move(Down(1), Left(1))],
        },
        14 => Card {
            name: "Ox",
            stamp: Player::Blue,
            moves: vec![Move(Up(1), Left(0)), Move(Up(0), Right(1)), Move(Down(1), Left(0))],
        },
        _ => Card {
            name: "Cobra",
            stamp: Player::Red,
            moves: vec![Move(Up(1), Right(1)), Move(Up(0), Left(1)), Move(Down(1), Right(1))],
        },
    }
}

/// The player that card `id` of the catalog is stamped with.
pub fn stamp(id: usize) -> (p: Player)
    requires
        id < CARD_COUNT,
    ensures
        p == card_stamp(id as int),
{
    card(id).stamp
}

} // verus!
