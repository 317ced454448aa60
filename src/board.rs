use vstd::prelude::*;

use crate::piece::Piece;
use crate::player::Player;
use crate::square::{lemma_square_eq, on_grid, Square};
use crate::SIZE;

verus! {

/// The piece that starts on file index `f` of its side's back rank.
pub open spec fn start_piece(f: int) -> Piece {
    if f == 0 {
        Piece::PawnA
    } else if f == 1 {
        Piece::PawnB
    } else if f == 2 {
        Piece::King
    } else if f == 3 {
        Piece::PawnD
    } else {
        Piece::PawnE
    }
}

/// The occupant of each square, indexed by file and then by rank.
#[derive(Copy, Clone, Eq, PartialEq, Debug)]
pub struct Board(pub [[Option<(Player, Piece)>; SIZE]; SIZE]);

impl Board {
    /// The occupant of the square with file index `f` and rank index `r`.
    pub open spec fn cell(self, f: int, r: int) -> Option<(Player, Piece)> {
        self.0[f][r]
    }

    /// The occupant of `s`.
    pub open spec fn occupant(self, s: Square) -> Option<(Player, Piece)> {
        self.cell(s.0.idx(), s.1.idx())
    }

    /// The starting layout: Red's five pieces on the first rank, Blue's on the
    /// fifth, each in the file its slot names.
    pub open spec fn is_initial(self) -> bool {
        forall|f: int, r: int|
            on_grid(f) && on_grid(r) ==> #[trigger] self.cell(f, r) == (if r == 0 {
                Some((Player::Red, start_piece(f)))
            } else if r == 4 {
                Some((Player::Blue, start_piece(f)))
            } else {
                None::<(Player, Piece)>
            })
    }

    /// The board in its starting layout.
    pub fn initial() -> (b: Board)
        ensures
            b.is_initial(),
    {
        let a = [Some((Player::Red, Piece::PawnA)), None, None, None, Some((Player::Blue, Piece::PawnA))];
        let b = [Some((Player::Red, Piece::PawnB)), None, None, None, Some((Player::Blue, Piece::PawnB))];
        let c = [Some((Player::Red, Piece::King)), None, None, None, Some((Player::Blue, Piece::King))];
        let d = [Some((Player::Red, Piece::PawnD)), None, None, None, Some((Player::Blue, Piece::PawnD))];
        let e = [Some((Player::Red, Piece::PawnE)), None, None, None, Some((Player::Blue, Piece::PawnE))];
        let board = Board([a, b, c, d, e]);
        assert forall|f: int, r: int| on_grid(f) && on_grid(r) implies #[trigger] board.cell(f, r) == (if r == 0 {
            Some((Player::Red, start_piece(f)))
        } else if r == 4 {
            Some((Player::Blue, start_piece(f)))
        } else {
            None::<(Player, Piece)>
        }) by {}
        board
    }

    /// A board with no piece on it.
    pub fn empty() -> (b: Board)
        ensures
            forall|s: Square| #[trigger] b.occupant(s) is None,
    {
        let column: [Option<(Player, Piece)>; 5] = [None, None, None, None, None];
        let b = Board([column, column, column, column, column]);
        assert forall|s: Square| #[trigger] b.occupant(s) is None by {
            crate::square::lemma_square_indices(s);
        }
        b
    }

    /// The occupant of `square`.
    pub fn get(&self, square: Square) -> (r: Option<(Player, Piece)>)
        ensures
            r == self.occupant(square),
    {
        let f = square.0.index();
        let r = square.1.index();
        self.0[f][r]
    }

    /// Puts `occupant` on `square`, leaving every other square as it was.
    pub fn set(&mut self, square: Square, occupant: Option<(Player, Piece)>)
        ensures
            forall|f: int, r: int|
                on_grid(f) && on_grid(r) ==> #[trigger] final(self).cell(f, r) == (if f
                    == square.0.idx() && r == square.1.idx() {
                    occupant
                } else {
                    old(self).cell(f, r)
                }),
            forall|s: Square| #[trigger]
                final(self).occupant(s) == (if s == square {
                    occupant
                } else {
                    old(self).occupant(s)
                }),
    {
        let f = square.0.index();
        let r = square.1.index();
        let mut column = self.0[f];
        column[r] = occupant;
        self.0[f] = column;
        assert forall|s: Square| #[trigger]
            self.occupant(s) == (if s == square {
                occupant
            } else {
                old(self).occupant(s)
            }) by {
            lemma_square_eq(s, square);
        }
    }
}

impl Default for Board {
    fn default() -> (b: Board)
        ensures
            b.is_initial(),
    {
        Board::initial()
    }
}

} // verus!
