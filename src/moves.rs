use vstd::prelude::*;

use crate::player::Player;

verus! {

/// A signed step along the ranks.
#[derive(Copy, Clone, Eq, PartialEq, Debug, Structural)]
pub enum Vertical {
    Down(usize),
    Up(usize),
}

/// A signed step along the files.
#[derive(Copy, Clone, Eq, PartialEq, Debug, Structural)]
pub enum Horizontal {
    Left(usize),
    Right(usize),
}

impl Vertical {
    /// The step as a signed number of ranks.
    pub open spec fn offset(self) -> int {
        match self {
            Vertical::Down(n) => -(n as int),
            Vertical::Up(n) => n as int,
        }
    }

    /// The same step in the other direction.
    pub open spec fn flipped(self) -> Vertical {
        match self {
            Vertical::Down(n) => Vertical::Up(n),
            Vertical::Up(n) => Vertical::Down(n),
        }
    }

    /// Reverses the direction of the step.
    pub fn flip(&mut self)
        ensures
            *final(self) == old(self).flipped(),
    {
        *self = match *self {
            Vertical::Down(u) => Vertical::Up(u),
            Vertical::Up(u) => Vertical::Down(u),
        };
    }
}

impl Horizontal {
    /// The step as a signed number of files.
    pub open spec fn offset(self) -> int {
        match self {
            Horizontal::Left(n) => -(n as int),
            Horizontal::Right(n) => n as int,
        }
    }

    /// The same step in the other direction.
    pub open spec fn flipped(self) -> Horizontal {
        match self {
            Horizontal::Left(n) => Horizontal::Right(n),
            Horizontal::Right(n) => Horizontal::Left(n),
        }
    }

    /// Reverses the direction of the step.
    pub fn flip(&mut self)
        ensures
            *final(self) == old(self).flipped(),
    {
        *self = match *self {
            Horizontal::Left(u) => Horizontal::Right(u),
            Horizontal::Right(u) => Horizontal::Left(u),
        };
    }
}

/// A relative displacement: a step along the ranks and one along the files.
#[derive(Copy, Clone, Eq, PartialEq, Debug, Structural)]
pub struct Move(pub Vertical, pub Horizontal);

impl Move {
    /// The move seen from the other side of the board.
    pub open spec fn flipped(self) -> Move {
        Move(self.0.flipped(), self.1.flipped())
    }

    /// The move, written from Red's view, as `player` makes it.
    pub open spec fn for_player(self, player: Player) -> Move {
        match player {
            Player::Red => self,
            Player::Blue => self.flipped(),
        }
    }

    pub fn vertical(&self) -> (r: Vertical)
        ensures
            r == self.0,
    {
        self.0
    }

    pub fn horizontal(&self) -> (r: Horizontal)
        ensures
            r == self.1,
    {
        self.1
    }

    /// Mirrors the move through the center of the board.
    pub fn flip(&mut self)
        ensures
            *final(self) == old(self).flipped(),
    {
        self.0.flip();
        self.1.flip();
    }

    /// Mirrors the move when `player` is Blue; leaves it as it is for Red.
    pub fn flip_for(&mut self, player: Player)
        ensures
            *final(self) == old(self).for_player(player),
    {
        if player == Player::Blue {
            self.flip();
        }
    }
}

/// Mirroring a move twice gives back the move.
pub proof fn lemma_flip_twice(m: Move)
    ensures
        m.flipped().flipped() == m,
        m.for_player(Player::Blue).for_player(Player::Blue) == m,
        m.flipped().0.offset() == -m.0.offset(),
        m.flipped().1.offset() == -m.1.offset(),
{
}

} // verus!
