use vstd::prelude::*;

use crate::square::File;

verus! {

/// The five piece slots of a side. A slot keeps its identity for the whole game.
#[derive(Copy, Clone, Eq, PartialEq, Debug, Structural)]
pub enum Piece {
    King,
    PawnA,
    PawnB,
    PawnD,
    PawnE,
}

impl Piece {
    /// The slot index of the piece, from 0 to 4.
    pub open spec fn idx(self) -> int {
        match self {
            Piece::King => 0,
            Piece::PawnA => 1,
            Piece::PawnB => 2,
            Piece::PawnD => 3,
            Piece::PawnE => 4,
        }
    }

    /// The piece in slot `i`, for `i` from 0 to 4.
    pub open spec fn of(i: int) -> Piece {
        if i == 0 {
            Piece::King
        } else if i == 1 {
            Piece::PawnA
        } else if i == 2 {
            Piece::PawnB
        } else if i == 3 {
            Piece::PawnD
        } else {
            Piece::PawnE
        }
    }

    /// The file index on which the piece starts.
    pub open spec fn file_idx(self) -> int {
        match self {
            Piece::PawnA => 0,
            Piece::PawnB => 1,
            Piece::King => 2,
            Piece::PawnD => 3,
            Piece::PawnE => 4,
        }
    }

    pub fn index(&self) -> (r: usize)
        ensures
            r as int == self.idx(),
            r < 5,
    {
        match *self {
            Piece::King => 0,
            Piece::PawnA => 1,
            Piece::PawnB => 2,
            Piece::PawnD => 3,
            Piece::PawnE => 4,
        }
    }

    /// The piece in slot `i`.
    pub fn from_index(i: usize) -> (r: Piece)
        requires
            i < 5,
        ensures
            r == Piece::of(i as int),
            r.idx() == i,
    {
        match i {
            0 => Piece::King,
            1 => Piece::PawnA,
            2 => Piece::PawnB,
            3 => Piece::PawnD,
            _ => Piece::PawnE,
        }
    }

    /// The file on which the piece starts.
    pub fn file(&self) -> (r: File)
        ensures
            r.idx() == self.file_idx(),
    {
        match *self {
            Piece::PawnA => File::A,
            Piece::PawnB => File::B,
            Piece::King => File::C,
            Piece::PawnD => File::D,
            Piece::PawnE => File::E,
        }
    }
}

/// Slot indices and pieces correspond one to one.
pub proof fn lemma_piece_index(p: Piece)
    ensures
        0 <= p.idx() < 5,
        Piece::of(p.idx()) == p,
{
}

} // verus!
