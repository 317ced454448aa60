use vstd::prelude::*;

use crate::moves::{Horizontal, Move, Vertical};
use crate::player::Player;

verus! {

/// Whether an axis index lies on the grid.
pub open spec fn on_grid(i: int) -> bool {
    0 <= i < 5
}

/// A column of the grid, from left to right.
#[derive(Copy, Clone, Eq, PartialEq, Debug, Structural)]
pub enum File {
    A,
    B,
    C,
    D,
    E,
}

/// A row of the grid, from Red's back rank to Blue's.
#[derive(Copy, Clone, Eq, PartialEq, Debug, Structural)]
pub enum Rank {
    One,
    Two,
    Three,
    Four,
    Five,
}

impl File {
    /// The position of the file, from 0 to 4.
    pub open spec fn idx(self) -> int {
        match self {
            File::A => 0,
            File::B => 1,
            File::C => 2,
            File::D => 3,
            File::E => 4,
        }
    }

    /// The file at position `i`, for `i` from 0 to 4.
    pub open spec fn of(i: int) -> File {
        if i == 0 {
            File::A
        } else if i == 1 {
            File::B
        } else if i == 2 {
            File::C
        } else if i == 3 {
            File::D
        } else {
            File::E
        }
    }

    pub fn index(&self) -> (r: usize)
        ensures
            r as int == self.idx(),
            r < 5,
    {
        match *self {
            File::A => 0,
            File::B => 1,
            File::C => 2,
            File::D => 3,
            File::E => 4,
        }
    }

    /// The file at position `i`, if there is one.
    pub fn from_index(i: usize) -> (r: Option<File>)
        ensures
            r == (if i < 5 { Some(File::of(i as int)) } else { None::<File> }),
    {
        match i {
            0 => Some(File::A),
            1 => Some(File::B),
            2 => Some(File::C),
            3 => Some(File::D),
            4 => Some(File::E),
            _ => None,
        }
    }

    /// Steps along the files; fails where the step leaves the grid.
    pub fn apply(&self, horizontal: Horizontal) -> (r: Option<File>)
        ensures
            r == (if on_grid(self.idx() + horizontal.offset()) {
                Some(File::of(self.idx() + horizontal.offset()))
            } else {
                None::<File>
            }),
    {
        let v = self.index();
        match horizontal {
            Horizontal::Left(u) => if u <= v {
                File::from_index(v - u)
            } else {
                None
            },
            Horizontal::Right(u) => if u <= 4 - v {
                File::from_index(v + u)
            } else {
                None
            },
        }
    }
}

impl Rank {
    /// The position of the rank, from 0 to 4.
    pub open spec fn idx(self) -> int {
        match self {
            Rank::One => 0,
            Rank::Two => 1,
            Rank::Three => 2,
            Rank::Four => 3,
            Rank::Five => 4,
        }
    }

    /// The rank at position `i`, for `i` from 0 to 4.
    pub open spec fn of(i: int) -> Rank {
        if i == 0 {
            Rank::One
        } else if i == 1 {
            Rank::Two
        } else if i == 2 {
            Rank::Three
        } else if i == 3 {
            Rank::Four
        } else {
            Rank::Five
        }
    }

    pub fn index(&self) -> (r: usize)
        ensures
            r as int == self.idx(),
            r < 5,
    {
        match *self {
            Rank::One => 0,
            Rank::Two => 1,
            Rank::Three => 2,
            Rank::Four => 3,
            Rank::Five => 4,
        }
    }

    /// The rank at position `i`, if there is one.
    pub fn from_index(i: usize) -> (r: Option<Rank>)
        ensures
            r == (if i < 5 { Some(Rank::of(i as int)) } else { None::<Rank> }),
    {
        match i {
            0 => Some(Rank::One),
            1 => Some(Rank::Two),
            2 => Some(Rank::Three),
            3 => Some(Rank::Four),
            4 => Some(Rank::Five),
            _ => None,
        }
    }

    /// Steps along the ranks; fails where the step leaves the grid.
    pub fn apply(&self, vertical: Vertical) -> (r: Option<Rank>)
        ensures
            r == (if on_grid(self.idx() + vertical.offset()) {
                Some(Rank::of(self.idx() + vertical.offset()))
            } else {
                None::<Rank>
            }),
    {
        let v = self.index();
        match vertical {
            Vertical::Down(u) => if u <= v {
                Rank::from_index(v - u)
            } else {
                None
            },
            Vertical::Up(u) => if u <= 4 - v {
                Rank::from_index(v + u)
            } else {
                None
            },
        }
    }
}

/// A cell of the grid: a file and a rank.
#[derive(Copy, Clone, Eq, PartialEq, Debug, Structural)]
pub struct Square(pub File, pub Rank);

impl Square {
    /// The square with file index `f` and rank index `r`.
    pub open spec fn at(f: int, r: int) -> Square {
        Square(File::of(f), Rank::of(r))
    }

    /// Where `mov` leads from this square, if it stays on the grid.
    pub open spec fn step(self, mov: Move) -> Option<Square> {
        let f = self.0.idx() + mov.1.offset();
        let r = self.1.idx() + mov.0.offset();
        if on_grid(f) && on_grid(r) {
            Some(Square::at(f, r))
        } else {
            None
        }
    }

    /// The home square of `player`'s King: the center file of the back rank.
    pub open spec fn home(player: Player) -> Square {
        Square(File::C, Rank::of(player.rank_idx()))
    }

    pub fn file(&self) -> (r: File)
        ensures
            r == self.0,
    {
        self.0
    }

    pub fn rank(&self) -> (r: Rank)
        ensures
            r == self.1,
    {
        self.1
    }

    /// Where `mov` leads from this square; `None` where it leaves the grid.
    pub fn apply(&self, mov: Move) -> (r: Option<Square>)
        ensures
            r == self.step(mov),
    {
        let f = self.0.apply(mov.1);
        let r = self.1.apply(mov.0);
        match (f, r) {
            (Some(f), Some(r)) => Some(Square(f, r)),
            _ => None,
        }
    }

    /// The home square of `player`'s King.
    pub fn king(player: Player) -> (r: Square)
        ensures
            r == Square::home(player),
    {
        Square(File::C, player.rank())
    }
}

/// Every file and rank index names a square, and a square is named by its indices.
pub proof fn lemma_square_indices(s: Square)
    ensures
        on_grid(s.0.idx()),
        on_grid(s.1.idx()),
        Square::at(s.0.idx(), s.1.idx()) == s,
{
}

/// Two squares are equal exactly when their indices are.
pub proof fn lemma_square_eq(s: Square, t: Square)
    ensures
        (s == t) <==> (s.0.idx() == t.0.idx() && s.1.idx() == t.1.idx()),
{
}

} // verus!
