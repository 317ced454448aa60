use vstd::prelude::*;

use crate::card::{card, card_moves, card_stamp, Card, CARD_COUNT};
use crate::piece::Piece;
use crate::player::Player;
use crate::square::Square;
use crate::{HAND, SIZE};

verus! {

/// One player's pieces and hand.
#[derive(Copy, Clone, Eq, PartialEq, Debug)]
pub struct Side {
    /// Where each slot's piece stands; `None` once it is captured.
    pub pieces: [Option<Square>; SIZE],
    /// The two catalog ids in the hand.
    pub cards: [usize; HAND],
}

impl Side {
    /// The occupied slots among the first `n`, in slot order, with their squares.
    pub open spec fn occupied(self, n: int) -> Seq<(Piece, Square)>
        decreases n,
    {
        if n <= 0 {
            Seq::empty()
        } else {
            let prev = self.occupied(n - 1);
            match self.pieces[n - 1] {
                Some(s) => prev.push((Piece::of(n - 1), s)),
                None => prev,
            }
        }
    }

    /// The squares of the occupied slots, in slot order.
    pub open spec fn squares_of(self, n: int) -> Seq<Square> {
        self.occupied(n).map_values(|e: (Piece, Square)| e.1)
    }

    /// Both ids of the hand name catalog cards.
    pub open spec fn hand_ok(self) -> bool {
        self.cards[0] < CARD_COUNT && self.cards[1] < CARD_COUNT
    }

    /// A side with all five pieces on `player`'s back rank, each in its own file.
    pub fn new(player: Player, cards: [usize; 2]) -> (s: Side)
        ensures
            s.cards == cards,
            forall|i: int|
                0 <= i < 5 ==> #[trigger] s.pieces[i] == Some(
                    Square::at(Piece::of(i).file_idx(), player.rank_idx()),
                ),
    {
        let rank = player.rank();
        let pieces = [
            Some(Square(Piece::King.file(), rank)),
            Some(Square(Piece::PawnA.file(), rank)),
            Some(Square(Piece::PawnB.file(), rank)),
            Some(Square(Piece::PawnD.file(), rank)),
            Some(Square(Piece::PawnE.file(), rank)),
        ];
        Side { pieces, cards }
    }

    /// The occupied slots, in slot order, with their squares.
    pub fn pieces(&self) -> (r: Vec<(Piece, Square)>)
        ensures
            r@ == self.occupied(5),
    {
        let mut r: Vec<(Piece, Square)> = Vec::new();
        let mut i: usize = 0;
        while i < 5
            invariant
                i <= 5,
                r@ == self.occupied(i as int),
            decreases 5 - i,
        {
            if let Some(s) = self.pieces[i] {
                r.push((Piece::from_index(i), s));
            }
            i += 1;
        }
        r
    }

    /// The squares of the occupied slots, in slot order.
    pub fn squares(&self) -> (r: Vec<Square>)
        ensures
            r@ == self.squares_of(5),
    {
        let mut r: Vec<Square> = Vec::new();
        let mut i: usize = 0;
        while i < 5
            invariant
                i <= 5,
                r@ == self.squares_of(i as int),
            decreases 5 - i,
        {
            if let Some(s) = self.pieces[i] {
                r.push(s);
            }
            proof {
                let f = |e: (Piece, Square)| e.1;
                let prev = self.occupied(i as int);
                assert(self.occupied(i + 1) == match self.pieces[i as int] {
                    Some(s) => prev.push((Piece::of(i as int), s)),
                    None => prev,
                });
                if self.pieces[i as int] is Some {
                    assert(prev.push((Piece::of(i as int), self.pieces[i as int]->0)).map_values(f)
                        =~= prev.map_values(f).push(self.pieces[i as int]->0));
                }
            }
            i += 1;
        }
        r
    }

    /// The two cards of the hand.
    pub fn cards(&self) -> (r: [Card; 2])
        requires
            self.hand_ok(),
        ensures
            r[0].moves@ == card_moves(self.cards[0] as int),
            r[0].stamp == card_stamp(self.cards[0] as int),
            r[1].moves@ == card_moves(self.cards[1] as int),
            r[1].stamp == card_stamp(self.cards[1] as int),
    {
        [card(self.cards[0]), card(self.cards[1])]
    }

    /// Where `piece` stands, or `None` if it was captured.
    pub fn square(&self, piece: Piece) -> (r: &Option<Square>)
        ensures
            *r == self.pieces[piece.idx()],
    {
        &self.pieces[piece.index()]
    }

    /// The slot entry of `piece`, to be changed in place.
    pub fn square_mut(&mut self, piece: Piece) -> (r: &mut Option<Square>)
        ensures
            *r == old(self).pieces[piece.idx()],
            final(self).pieces@ == old(self).pieces@.update(piece.idx(), *final(r)),
            final(self).cards == old(self).cards,
    {
        &mut self.pieces[piece.index()]
    }
}

} // verus!
