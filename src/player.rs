use vstd::prelude::*;

use crate::moves::Move;
use crate::square::Rank;

verus! {

/// One of the two opponents.
#[derive(Copy, Clone, Eq, PartialEq, Debug, Structural)]
pub enum Player {
    /// Plays from the first rank; cards are written from this player's view.
    Red,
    /// Plays from the fifth rank; sees every card mirrored.
    Blue,
}

impl Player {
    /// The other player.
    pub open spec fn opp(self) -> Player {
        match self {
            Player::Red => Player::Blue,
            Player::Blue => Player::Red,
        }
    }

    /// The back rank of the player, as an index.
    pub open spec fn rank_idx(self) -> int {
        match self {
            Player::Red => 0,
            Player::Blue => 4,
        }
    }

    /// The back rank of the player.
    pub fn rank(&self) -> (r: Rank)
        ensures
            r.idx() == self.rank_idx(),
    {
        match *self {
            Player::Red => Rank::One,
            Player::Blue => Rank::Five,
        }
    }

    /// Turns the player into the other one.
    pub fn invert(&mut self)
        ensures
            *final(self) == old(self).opp(),
    {
        *self = match *self {
            Player::Red => Player::Blue,
            Player::Blue => Player::Red,
        };
    }

    /// The other player.
    pub fn opponent(&self) -> (r: Player)
        ensures
            r == self.opp(),
    {
        let mut p = *self;
        p.invert();
        p
    }

    /// A move written from Red's view, as this player makes it.
    pub fn flipper(&self, mov: &Move) -> (r: Move)
        ensures
            r == mov.for_player(*self),
    {
        let mut m = *mov;
        m.flip_for(*self);
        m
    }
}

} // verus!
