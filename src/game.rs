use vstd::multiset::Multiset;
use vstd::prelude::*;

use crate::board::Board;
use crate::card::{card, card_moves, card_stamp, stamp, Card, CARD_COUNT};
use crate::moves::Move;
use crate::piece::{lemma_piece_index, Piece};
use crate::player::Player;
use crate::side::Side;
use crate::square::{lemma_square_indices, Square};

verus! {

/// An action of the player to move.
#[derive(Copy, Clone, Eq, PartialEq, Debug, Structural)]
pub enum Play {
    /// Move the piece on `src` to `dest` with hand card `card` (0 or 1).
    Card { card: usize, src: Square, dest: Square },
    /// Pass by giving up hand card `0` or `1`, when no move is possible.
    Discard(usize),
}

/// Why an action was refused.
#[derive(Copy, Clone, Eq, PartialEq, Debug, Structural)]
pub enum PlayError {
    /// The match is already won.
    Finished,
    /// The action is not open to the player to move.
    Illegal,
}

/// A match: the board, both sides, the spare card, whose turn it is and the winner.
#[derive(Copy, Clone, Eq, PartialEq, Debug)]
pub struct Game {
    winner: Option<Player>,
    player: Player,
    board: Board,
    red: Side,
    blue: Side,
    spare: usize,
}

impl Game {
    /// The winner, once there is one.
    pub closed spec fn spec_winner(self) -> Option<Player> {
        self.winner
    }

    /// The player to move.
    pub closed spec fn spec_player(self) -> Player {
        self.player
    }

    /// The board.
    pub closed spec fn spec_board(self) -> Board {
        self.board
    }

    /// The side of `p`.
    pub closed spec fn spec_side(self, p: Player) -> Side {
        match p {
            Player::Red => self.red,
            Player::Blue => self.blue,
        }
    }

    /// The catalog id of the spare card.
    pub closed spec fn spec_spare(self) -> usize {
        self.spare
    }

    /// The well-formedness of a game: card ids name catalog cards, and the
    /// board and the two slot arrays describe the same placement, square for
    /// slot and slot for square.
    pub open spec fn wf(self) -> bool {
        &&& self.spec_spare() < CARD_COUNT
        &&& self.spec_side(Player::Red).hand_ok()
        &&& self.spec_side(Player::Blue).hand_ok()
        &&& forall|s: Square|
            match #[trigger] self.spec_board().occupant(s) {
                Some((p, x)) => self.spec_side(p).pieces[x.idx()] == Some(s),
                None => true,
            }
        &&& forall|p: Player, i: int|
            0 <= i < 5 ==> match #[trigger] self.spec_side(p).pieces[i] {
                Some(s) => self.spec_board().occupant(s) == Some((p, Piece::of(i))),
                None => true,
            }
    }

    /// Whether `s` holds a piece of the player to move.
    pub open spec fn owns(self, s: Square) -> bool {
        match self.spec_board().occupant(s) {
            Some((p, _)) => p == self.spec_player(),
            None => false,
        }
    }

    /// The moves, from Red's view, of hand card `c` of the player to move.
    pub open spec fn hand_moves(self, c: int) -> Seq<Move> {
        card_moves(self.spec_side(self.spec_player()).cards[c] as int)
    }

    /// Some move of hand card `c`, seen by the player to move, leads from `src` to `dest`.
    pub open spec fn reaches(self, c: int, src: Square, dest: Square) -> bool {
        &&& 0 <= c < 2
        &&& exists|k: int|
            0 <= k < self.hand_moves(c).len() && #[trigger] src.step(
                self.hand_moves(c)[k].for_player(self.spec_player()),
            ) == Some(dest)
    }

    /// Moving the piece on `src` to `dest` with hand card `c` is allowed.
    pub open spec fn can_move(self, c: int, src: Square, dest: Square) -> bool {
        self.owns(src) && self.reaches(c, src, dest) && !self.owns(dest)
    }

    /// The player to move has at least one move.
    pub open spec fn has_move(self) -> bool {
        exists|c: int, src: Square, dest: Square| #[trigger] self.can_move(c, src, dest)
    }

    /// `play` is allowed for the player to move.
    pub open spec fn is_legal(self, play: Play) -> bool {
        match play {
            Play::Card { card, src, dest } => self.can_move(card as int, src, dest),
            Play::Discard(c) => c < 2 && !self.has_move(),
        }
    }

    /// A new match in the starting layout, with the given hands and spare card.
    /// The spare card's stamp names the first player.
    pub fn new(red: [usize; 2], blue: [usize; 2], spare: usize) -> (g: Game)
        requires
            red[0] < CARD_COUNT,
            red[1] < CARD_COUNT,
            blue[0] < CARD_COUNT,
            blue[1] < CARD_COUNT,
            spare < CARD_COUNT,
        ensures
            g.wf(),
            g.spec_winner() is None,
            g.spec_player() == card_stamp(spare as int),
            g.spec_spare() == spare,
            g.spec_board().is_initial(),
            g.spec_side(Player::Red).cards == red,
            g.spec_side(Player::Blue).cards == blue,
            forall|p: Player, i: int|
                0 <= i < 5 ==> #[trigger] g.spec_side(p).pieces[i] == Some(
                    Square::at(Piece::of(i).file_idx(), p.rank_idx()),
                ),
    {
        let g = Game {
            winner: None,
            player: stamp(spare),
            board: Board::initial(),
            red: Side::new(Player::Red, red),
            blue: Side::new(Player::Blue, blue),
            spare,
        };
        assert forall|s: Square|
            match #[trigger] g.board.occupant(s) {
                Some((p, x)) => g.spec_side(p).pieces[x.idx()] == Some(s),
                None => true,
            } by {
            lemma_square_indices(s);
            assert(g.board.cell(s.0.idx(), s.1.idx()) == g.board.occupant(s));
        }
        assert forall|p: Player, i: int|
            0 <= i < 5 implies match #[trigger] g.spec_side(p).pieces[i] {
                Some(s) => g.spec_board().occupant(s) == Some((p, Piece::of(i))),
                None => true,
            } by {
            let s = Square::at(Piece::of(i).file_idx(), p.rank_idx());
            assert(g.board.cell(Piece::of(i).file_idx(), p.rank_idx()) == g.board.occupant(s));
        }
        g
    }

    /// A match in progress from the given sides and spare card, with the
    /// spare's stamp naming the player to move; `None` where a card id is not
    /// in the catalog or two pieces stand on the same square.
    pub fn setup(red: Side, blue: Side, spare: usize) -> (r: Option<Game>)
        ensures
            r is Some <==> (red.hand_ok() && blue.hand_ok() && spare < CARD_COUNT
                && placement_ok(red, blue)),
            r matches Some(g) ==> {
                &&& g.wf()
                &&& g.spec_winner() is None
                &&& g.spec_player() == card_stamp(spare as int)
                &&& g.spec_spare() == spare
                &&& g.spec_side(Player::Red) == red
                &&& g.spec_side(Player::Blue) == blue
            },
    {
        if !(red.cards[0] < CARD_COUNT && red.cards[1] < CARD_COUNT && blue.cards[0] < CARD_COUNT
            && blue.cards[1] < CARD_COUNT && spare < CARD_COUNT) {
            return None;
        }
        let mut board = Board::empty();
        let mut k: usize = 0;
        while k < 10
            invariant
                k <= 10,
                filled(board, red, blue, k as int),
            decreases 10 - k,
        {
            let player = if k < 5 {
                Player::Red
            } else {
                Player::Blue
            };
            let j: usize = if k < 5 {
                k
            } else {
                k - 5
            };
            let slot = if k < 5 {
                red.pieces[j]
            } else {
                blue.pieces[j]
            };
            assert(slot == pick(red, blue, player).pieces[j as int]);
            assert(ord(player, j as int) == k);
            if let Some(s) = slot {
                if let Some((q, x)) = board.get(s) {
                    proof {
                        assert(pick(red, blue, q).pieces[x.idx()] == Some(s));
                        assert(ord(q, x.idx()) < k);
                        assert(!placement_ok(red, blue));
                    }
                    return None;
                }
                let ghost before = board;
                board.set(s, Some((player, Piece::from_index(j))));
                proof {
                    assert forall|q: Player, i: int|
                        0 <= i < 5 && ord(q, i) < k + 1 && #[trigger] pick(red, blue, q).pieces[i]
                            is Some implies board.occupant(pick(red, blue, q).pieces[i]->0) == Some(
                        (q, Piece::of(i)),
                    ) by {
                        if ord(q, i) < k {
                            assert(before.occupant(pick(red, blue, q).pieces[i]->0) == Some(
                                (q, Piece::of(i)),
                            ));
                        }
                    }
                }
            }
            k += 1;
        }
        let g = Game {
            winner: None,
            player: stamp(spare),
            board,
            red,
            blue,
            spare,
        };
        assert(forall|p: Player| #[trigger] pick(red, blue, p) == g.spec_side(p));
        assert forall|s: Square|
            match #[trigger] g.spec_board().occupant(s) {
                Some((p, x)) => g.spec_side(p).pieces[x.idx()] == Some(s),
                None => true,
            } by {
            if let Some((p, x)) = board.occupant(s) {
                assert(pick(red, blue, p).pieces[x.idx()] == Some(s));
            }
        }
        assert forall|p: Player, i: int|
            0 <= i < 5 implies match #[trigger] g.spec_side(p).pieces[i] {
                Some(s) => g.spec_board().occupant(s) == Some((p, Piece::of(i))),
                None => true,
            } by {
            assert(pick(red, blue, p).pieces[i] == g.spec_side(p).pieces[i]);
            assert(ord(p, i) < 10);
        }
        assert forall|p: Player, i: int, q: Player, j: int|
            0 <= i < 5 && 0 <= j < 5 && #[trigger] pick(red, blue, p).pieces[i] is Some
                && #[trigger] pick(red, blue, q).pieces[j] == pick(red, blue, p).pieces[i] implies p
            == q && i == j by {
            assert(board.occupant(pick(red, blue, p).pieces[i]->0) == Some((p, Piece::of(i))));
            assert(board.occupant(pick(red, blue, q).pieces[j]->0) == Some((q, Piece::of(j))));
        }
        Some(g)
    }

    /// The winner, once there is one.
    pub fn winner(&self) -> (r: Option<Player>)
        ensures
            r == self.spec_winner(),
    {
        self.winner
    }

    /// The player to move, or `None` once the match is won.
    pub fn player(&self) -> (r: Option<Player>)
        ensures
            r == (if self.spec_winner() is None {
                Some(self.spec_player())
            } else {
                None::<Player>
            }),
    {
        if self.winner.is_none() {
            Some(self.player)
        } else {
            None
        }
    }

    /// The player whose turn it is, or was when the match was won.
    pub fn player_to_move(&self) -> (r: Player)
        ensures
            r == self.spec_player(),
    {
        self.player
    }

    /// The side of `player`.
    pub fn side(&self, player: Player) -> (r: &Side)
        ensures
            *r == self.spec_side(player),
    {
        match player {
            Player::Red => &self.red,
            Player::Blue => &self.blue,
        }
    }

    fn side_mut(&mut self, player: Player) -> (r: &mut Side)
        ensures
            *r == old(self).spec_side(player),
            *final(self) == (match player {
                Player::Red => Game { red: *final(r), ..*old(self) },
                Player::Blue => Game { blue: *final(r), ..*old(self) },
            }),
    {
        match player {
            Player::Red => &mut self.red,
            Player::Blue => &mut self.blue,
        }
    }

    /// The occupant of `square`.
    pub fn occupant(&self, square: Square) -> (r: Option<(Player, Piece)>)
        ensures
            r == self.spec_board().occupant(square),
    {
        self.board.get(square)
    }

    /// The spare card.
    pub fn spare(&self) -> (c: Card)
        requires
            self.wf(),
        ensures
            c.moves@ == card_moves(self.spec_spare() as int),
            c.stamp == card_stamp(self.spec_spare() as int),
    {
        card(self.spare)
    }

    /// The occupied slots of `player`, in slot order, with their squares.
    pub fn pieces(&self, player: Player) -> (r: Vec<(Piece, Square)>)
        ensures
            r@ == self.spec_side(player).occupied(5),
    {
        self.side(player).pieces()
    }

    /// Chebyshev distance from `player`'s King to the opponent's home square.
    pub open spec fn spec_distance(self, player: Player) -> int {
        let k = self.spec_side(player).pieces[0]->0;
        let h = Square::home(player.opp());
        let df = abs(k.0.idx() - h.0.idx());
        let dr = abs(k.1.idx() - h.1.idx());
        if df >= dr {
            df
        } else {
            dr
        }
    }

    /// How far `player`'s King is from the opponent's home square, counting a
    /// diagonal step as one.
    pub fn distance(&self, player: Player) -> (r: u8)
        requires
            self.spec_side(player).pieces[0] is Some,
        ensures
            r as int == self.spec_distance(player),
    {
        let king = self.side(player).square(Piece::King).unwrap();
        let home = Square::king(player.opponent());
        let kf = king.file().index();
        let kr = king.rank().index();
        let hf = home.file().index();
        let hr = home.rank().index();
        let df: usize = if kf >= hf { kf - hf } else { hf - kf };
        let dr: usize = if kr >= hr { kr - hr } else { hr - kr };
        if df >= dr {
            df as u8
        } else {
            dr as u8
        }
    }

    /// The squares reached from `src` by the first `n` moves of hand card `c`,
    /// in move order, leaving out those off the grid or on a piece of the
    /// player to move.
    pub open spec fn dest_list(self, c: int, src: Square, n: int) -> Seq<Square>
        decreases n,
    {
        if n <= 0 {
            Seq::empty()
        } else {
            let prev = self.dest_list(c, src, n - 1);
            match src.step(self.hand_moves(c)[n - 1].for_player(self.spec_player())) {
                Some(d) => if self.owns(d) {
                    prev
                } else {
                    prev.push(d)
                },
                None => prev,
            }
        }
    }

    /// Where hand card `c` lets the piece on `src` go, in move order.
    pub open spec fn dests_of(self, c: int, src: Square) -> Seq<Square> {
        self.dest_list(c, src, self.hand_moves(c).len() as int)
    }

    /// The moves with hand card `c` from `src`, in move order.
    pub open spec fn card_plays(self, c: int, src: Square) -> Seq<Play> {
        self.dests_of(c, src).map_values(|d: Square| Play::Card { card: c as usize, src, dest: d })
    }

    /// The moves of the pieces in the first `n` slots of the player to move:
    /// slot by slot, and for each slot the first hand card, then the second.
    pub open spec fn plays_upto(self, n: int) -> Seq<Play>
        decreases n,
    {
        if n <= 0 {
            Seq::empty()
        } else {
            let prev = self.plays_upto(n - 1);
            match self.spec_side(self.spec_player()).pieces[n - 1] {
                Some(src) => prev + self.card_plays(0, src) + self.card_plays(1, src),
                None => prev,
            }
        }
    }

    /// What `plays` returns: every move in generation order or, when there is
    /// none, one discard for each hand card.
    pub open spec fn spec_plays(self) -> Seq<Play> {
        if self.plays_upto(5).len() == 0 {
            seq![Play::Discard(0), Play::Discard(1)]
        } else {
            self.plays_upto(5)
        }
    }

    /// The catalog ids of `p`'s hand together with the spare card.
    pub open spec fn pool(self, p: Player) -> Multiset<usize> {
        Multiset::empty().insert(self.spec_side(p).cards[0]).insert(
            self.spec_side(p).cards[1],
        ).insert(self.spec_spare())
    }

    /// `next` holds the hands and spare after the player to move gave up hand
    /// card `c`: that card becomes the spare, the old spare takes its place in
    /// the hand, and the new spare's stamp names the player to move.
    pub open spec fn rotated(self, c: int, next: Game) -> bool {
        let p = self.spec_player();
        &&& next.spec_side(p).cards@ == self.spec_side(p).cards@.update(c, self.spec_spare())
        &&& next.spec_spare() == self.spec_side(p).cards[c]
        &&& next.spec_side(p.opp()).cards == self.spec_side(p.opp()).cards
        &&& next.spec_player() == card_stamp(next.spec_spare() as int)
    }

    /// `next` is the game after the player to move made `play`.
    ///
    /// A move takes the piece off `src` and puts it on `dest`; a piece of the
    /// opponent on `dest` is captured and its slot emptied, with every other
    /// slot kept. The mover wins on capturing the opponent's King or on
    /// bringing their own King to the opponent's home square. A discard
    /// changes no piece. Either way the card used is swapped with the spare.
    pub open spec fn transition(self, play: Play, next: Game) -> bool {
        let p = self.spec_player();
        let o = p.opp();
        match play {
            Play::Card { card, src, dest } => {
                let mover = self.spec_board().occupant(src)->0;
                let captured = self.spec_board().occupant(dest);
                &&& self.rotated(card as int, next)
                &&& forall|s: Square| #[trigger]
                    next.spec_board().occupant(s) == (if s == dest {
                        Some(mover)
                    } else if s == src {
                        None::<(Player, Piece)>
                    } else {
                        self.spec_board().occupant(s)
                    })
                &&& next.spec_side(p).pieces@ == self.spec_side(p).pieces@.update(
                    mover.1.idx(),
                    Some(dest),
                )
                &&& next.spec_side(o).pieces@ == (match captured {
                    Some((_, q)) => self.spec_side(o).pieces@.update(q.idx(), None::<Square>),
                    None => self.spec_side(o).pieces@,
                })
                &&& next.spec_winner() == (if captured == Some((o, Piece::King))
                    || next.spec_board().occupant(Square::home(o)) == Some((p, Piece::King)) {
                    Some(p)
                } else {
                    None::<Player>
                })
            },
            Play::Discard(c) => {
                &&& self.rotated(c as int, next)
                &&& next.spec_board() == self.spec_board()
                &&& next.spec_side(p).pieces == self.spec_side(p).pieces
                &&& next.spec_side(o).pieces == self.spec_side(o).pieces
                &&& next.spec_winner() is None
            },
        }
    }

    /// `play` moves a piece onto the opponent's King.
    pub open spec fn takes_king(self, play: Play) -> bool {
        match play {
            Play::Card { dest, .. } => self.spec_board().occupant(dest) == Some(
                (self.spec_player().opp(), Piece::King),
            ),
            Play::Discard(_) => false,
        }
    }

    /// `play` moves the mover's King onto the opponent's home square.
    pub open spec fn king_home(self, play: Play) -> bool {
        match play {
            Play::Card { src, dest, .. } => self.spec_board().occupant(src) == Some(
                (self.spec_player(), Piece::King),
            ) && dest == Square::home(self.spec_player().opp()),
            Play::Discard(_) => false,
        }
    }

    fn discard_unchecked(&mut self, card: usize)
        requires
            card < 2,
        ensures
            final(self).board == old(self).board,
            final(self).winner == old(self).winner,
            final(self).player == old(self).player,
            final(self).spec_side(old(self).player).pieces == old(self).spec_side(
                old(self).player,
            ).pieces,
            final(self).spec_side(old(self).player).cards@ == old(self).spec_side(
                old(self).player,
            ).cards@.update(card as int, old(self).spare),
            final(self).spare == old(self).spec_side(old(self).player).cards[card as int],
            final(self).spec_side(old(self).player.opp()) == old(self).spec_side(
                old(self).player.opp(),
            ),
    {
        let player = self.player;
        let spare = self.spare;
        let side = self.side_mut(player);
        let held = side.cards[card];
        side.cards[card] = spare;
        self.spare = held;
    }

    /// Makes `play`, which must be legal, for the player to move, and returns
    /// the winner, if the match is now won.
    pub fn play(&mut self, play: Play) -> (r: Option<Player>)
        requires
            old(self).wf(),
            old(self).spec_winner() is None,
            old(self).is_legal(play),
        ensures
            final(self).wf(),
            old(self).transition(play, *final(self)),
            r == final(self).spec_winner(),
            final(self).pool(old(self).spec_player()) == old(self).pool(
                old(self).spec_player(),
            ),
            old(self).takes_king(play) ==> r == Some(old(self).spec_player()),
            old(self).king_home(play) ==> r == Some(old(self).spec_player()),
    {
        let ghost g0 = *self;
        let discard = match play {
            Play::Card { card, src, dest } => {
                let (player, piece) = self.board.get(src).unwrap();
                let capture = self.board.get(dest);
                self.board.set(src, None);
                self.board.set(dest, Some((player, piece)));
                *self.side_mut(player).square_mut(piece) = Some(dest);
                if let Some((o, q)) = capture {
                    *self.side_mut(o).square_mut(q) = None;
                }
                let stone = match capture {
                    Some((o, Piece::King)) => o != player,
                    _ => false,
                };
                let stream = match self.board.get(Square::king(player.opponent())) {
                    Some((p, Piece::King)) => p == player,
                    _ => false,
                };
                if stone || stream {
                    self.winner = Some(player);
                }
                card
            },
            Play::Discard(card) => card,
        };
        self.discard_unchecked(discard);
        self.player = stamp(self.spare);
        proof {
            lemma_transition_wf(g0, play, *self);
            lemma_pool_kept(g0, discard as int, *self);
        }
        self.winner
    }

    /// Makes `play` if the match is still on and `play` is legal; otherwise
    /// leaves the game as it is and says why not.
    pub fn try_play(&mut self, play: Play) -> (r: Result<Option<Player>, PlayError>)
        requires
            old(self).wf(),
        ensures
            final(self).wf(),
            old(self).spec_winner() is Some ==> r == Err::<Option<Player>, PlayError>(
                PlayError::Finished,
            ) && *final(self) == *old(self),
            old(self).spec_winner() is None && !old(self).is_legal(play) ==> r == Err::<
                Option<Player>,
                PlayError,
            >(PlayError::Illegal) && *final(self) == *old(self),
            old(self).spec_winner() is None && old(self).is_legal(play) ==> r == Ok::<
                Option<Player>,
                PlayError,
            >(final(self).spec_winner()) && old(self).transition(play, *final(self)),
    {
        if self.winner.is_some() {
            return Err(PlayError::Finished);
        }
        let plays = self.plays();
        let mut i: usize = 0;
        while i < plays.len()
            invariant
                *self == *old(self),
                self.wf(),
                self.spec_winner() is None,
                forall|p: Play| #[trigger] plays@.contains(p) <==> self.is_legal(p),
                i <= plays@.len(),
                forall|j: int| 0 <= j < i ==> plays@[j] != play,
            decreases plays@.len() - i,
        {
            if plays[i] == play {
                assert(plays@.contains(play));
                return Ok(self.play(play));
            }
            i += 1;
        }
        assert(!plays@.contains(play));
        Err(PlayError::Illegal)
    }

    /// Gives up hand card `card` when the player to move has no move.
    pub fn discard(&mut self, card: usize)
        requires
            old(self).wf(),
            old(self).spec_winner() is None,
            card < 2,
            !old(self).has_move(),
        ensures
            final(self).wf(),
            old(self).transition(Play::Discard(card), *final(self)),
    {
        self.play(Play::Discard(card));
    }

    /// Whether `square` holds a piece of the player to move.
    pub fn owns_square(&self, square: Square) -> (r: bool)
        ensures
            r == self.owns(square),
    {
        match self.board.get(square) {
            Some((p, _)) => p == self.player,
            None => false,
        }
    }

    /// Where hand card `card` of the player to move lets the piece on `src` go,
    /// in the order of the card's moves.
    pub fn dests(&self, card: usize, src: Square) -> (r: Vec<Square>)
        requires
            self.wf(),
            card < 2,
        ensures
            r@ == self.dests_of(card as int, src),
    {
        let player = self.player;
        let cards = self.side(player).cards();
        let moves = &cards[card].moves;
        let mut r: Vec<Square> = Vec::new();
        let mut k: usize = 0;
        while k < moves.len()
            invariant
                self.wf(),
                card < 2,
                player == self.spec_player(),
                moves@ == self.hand_moves(card as int),
                k <= moves@.len(),
                r@ == self.dest_list(card as int, src, k as int),
            decreases moves@.len() - k,
        {
            let m = player.flipper(&moves[k]);
            if let Some(d) = src.apply(m) {
                if !self.owns_square(d) {
                    r.push(d);
                }
            }
            k += 1;
        }
        r
    }

    fn push_card_plays(&self, r: &mut Vec<Play>, card: usize, src: Square)
        requires
            self.wf(),
            card < 2,
        ensures
            final(r)@ == old(r)@ + self.card_plays(card as int, src),
    {
        let ds = self.dests(card, src);
        let ghost start = r@;
        let mut j: usize = 0;
        while j < ds.len()
            invariant
                j <= ds@.len(),
                ds@ == self.dests_of(card as int, src),
                r@ == start + ds@.take(j as int).map_values(
                    |d: Square| Play::Card { card: card, src, dest: d },
                ),
            decreases ds@.len() - j,
        {
            r.push(Play::Card { card, src, dest: ds[j] });
            proof {
                let f = |d: Square| Play::Card { card: card, src, dest: d };
                assert(ds@.take(j + 1) =~= ds@.take(j as int).push(ds@[j as int]));
                assert(ds@.take(j + 1).map_values(f) =~= ds@.take(j as int).map_values(f).push(
                    f(ds@[j as int]),
                ));
            }
            j += 1;
        }
        assert(ds@.take(ds@.len() as int) =~= ds@);
    }

    /// Every action open to the player to move: each move, slot by slot, and
    /// for each slot the first hand card, then the second, in the order of the
    /// card's moves; or, when there is no move, one discard for each hand card.
    pub fn plays(&self) -> (r: Vec<Play>)
        requires
            self.wf(),
        ensures
            r@ == self.spec_plays(),
            r@.len() > 0,
            forall|p: Play| #[trigger] r@.contains(p) <==> self.is_legal(p),
    {
        let side = self.side(self.player);
        let mut r: Vec<Play> = Vec::new();
        let mut i: usize = 0;
        while i < 5
            invariant
                self.wf(),
                *side == self.spec_side(self.spec_player()),
                i <= 5,
                r@ == self.plays_upto(i as int),
            decreases 5 - i,
        {
            if let Some(src) = side.pieces[i] {
                self.push_card_plays(&mut r, 0, src);
                self.push_card_plays(&mut r, 1, src);
            }
            i += 1;
        }
        if r.len() == 0 {
            r.push(Play::Discard(0));
            r.push(Play::Discard(1));
            assert(r@ =~= seq![Play::Discard(0), Play::Discard(1)]);
        }
        proof {
            lemma_plays_legal(*self);
        }
        r
    }
}


/// The side that `p` names, of `red` and `blue`.
pub open spec fn pick(red: Side, blue: Side, p: Player) -> Side {
    match p {
        Player::Red => red,
        Player::Blue => blue,
    }
}

/// No two occupied slots of `red` and `blue` name the same square.
pub open spec fn placement_ok(red: Side, blue: Side) -> bool {
    forall|p: Player, i: int, q: Player, j: int|
        0 <= i < 5 && 0 <= j < 5 && #[trigger] pick(red, blue, p).pieces[i] is Some
            && #[trigger] pick(red, blue, q).pieces[j] == pick(red, blue, p).pieces[i] ==> p == q
            && i == j
}

/// The place of slot `i` of `p` when Red's slots are taken before Blue's.
pub open spec fn ord(p: Player, i: int) -> int {
    match p {
        Player::Red => i,
        Player::Blue => 5 + i,
    }
}

/// `board` holds exactly the occupied slots among the first `n` in the order of `ord`.
pub open spec fn filled(board: Board, red: Side, blue: Side, n: int) -> bool {
    &&& forall|s: Square|
        match #[trigger] board.occupant(s) {
            Some((q, x)) => ord(q, x.idx()) < n && pick(red, blue, q).pieces[x.idx()] == Some(s),
            None => forall|q: Player, j: int|
                0 <= j < 5 && ord(q, j) < n ==> #[trigger] pick(red, blue, q).pieces[j] != Some(s),
        }
    &&& forall|q: Player, i: int|
        0 <= i < 5 && ord(q, i) < n && #[trigger] pick(red, blue, q).pieces[i] is Some
            ==> board.occupant(pick(red, blue, q).pieces[i]->0) == Some((q, Piece::of(i)))
}

/// Absolute value.
pub open spec fn abs(x: int) -> int {
    if x >= 0 {
        x
    } else {
        -x
    }
}

/// A square is among the destinations of the first `n` moves of a hand card
/// exactly when one of those moves leads there and no piece of the player to
/// move stands on it.
pub proof fn lemma_dest_list(g: Game, c: int, src: Square, n: int, d: Square)
    requires
        0 <= n <= g.hand_moves(c).len(),
    ensures
        g.dest_list(c, src, n).contains(d) <==> (!g.owns(d) && exists|k: int|
            0 <= k < n && #[trigger] src.step(g.hand_moves(c)[k].for_player(g.spec_player()))
                == Some(d)),
    decreases n,
{
    if n > 0 {
        lemma_dest_list(g, c, src, n - 1, d);
        let m = g.hand_moves(c)[n - 1].for_player(g.spec_player());
        if g.dest_list(c, src, n).contains(d) {
            if !g.dest_list(c, src, n - 1).contains(d) {
                assert(src.step(m) == Some(d));
            }
        }
        if !g.owns(d) && exists|k: int|
            0 <= k < n && #[trigger] src.step(g.hand_moves(c)[k].for_player(g.spec_player()))
                == Some(d) {
            let k = choose|k: int|
                0 <= k < n && #[trigger] src.step(g.hand_moves(c)[k].for_player(g.spec_player()))
                    == Some(d);
            if k == n - 1 {
                assert(g.dest_list(c, src, n) == g.dest_list(c, src, n - 1).push(d));
                assert(g.dest_list(c, src, n)[g.dest_list(c, src, n - 1).len() as int] == d);
            } else {
                let prev = g.dest_list(c, src, n - 1);
                let j = choose|j: int| 0 <= j < prev.len() && prev[j] == d;
                assert(g.dest_list(c, src, n)[j] == d);
            }
        }
    }
}

/// The moves generated for the first `n` slots are exactly the legal moves of
/// the pieces in those slots.
pub proof fn lemma_plays_upto(g: Game, n: int, p: Play)
    requires
        0 <= n <= 5,
        g.wf(),
    ensures
        g.plays_upto(n).contains(p) <==> match p {
            Play::Card { card, src, dest } => g.can_move(card as int, src, dest) && exists|i: int|
                0 <= i < n && #[trigger] g.spec_side(g.spec_player()).pieces[i] == Some(src),
            Play::Discard(_) => false,
        },
    decreases n,
{
    if n > 0 {
        lemma_plays_upto(g, n - 1, p);
        let prev = g.plays_upto(n - 1);
        let side = g.spec_side(g.spec_player());
        if let Play::Card { card, src, dest } = p {
            if card < 2 {
                lemma_dest_list(g, card as int, src, g.hand_moves(card as int).len() as int, dest);
            }
        }
        match side.pieces[n - 1] {
            Some(s) => {
                let a = g.card_plays(0, s);
                let b = g.card_plays(1, s);
                assert(g.plays_upto(n) == prev + a + b);
                lemma_concat_contains(prev, a, b, p);
                lemma_card_plays(g, 0, s, p);
                lemma_card_plays(g, 1, s, p);
                assert(g.owns(s));
            },
            None => {},
        }
        if let Play::Card { card, src, dest } = p {
            if exists|i: int| 0 <= i < n && #[trigger] side.pieces[i] == Some(src) {
                let i = choose|i: int| 0 <= i < n && #[trigger] side.pieces[i] == Some(src);
                assert(g.owns(src));
                if i < n - 1 {
                    assert(exists|i: int| 0 <= i < n - 1 && #[trigger] side.pieces[i] == Some(src));
                }
            }
        }
    }
}

/// What the moves of hand card `c` from `src` hold.
proof fn lemma_card_plays(g: Game, c: int, s: Square, p: Play)
    requires
        0 <= c < 2,
        g.wf(),
    ensures
        g.card_plays(c, s).contains(p) <==> match p {
            Play::Card { card, src, dest } => card == c && src == s && g.dests_of(c, s).contains(
                dest,
            ),
            Play::Discard(_) => false,
        },
{
    let ds = g.dests_of(c, s);
    let f = |d: Square| Play::Card { card: c as usize, src: s, dest: d };
    if g.card_plays(c, s).contains(p) {
        let j = choose|j: int| 0 <= j < g.card_plays(c, s).len() && g.card_plays(c, s)[j] == p;
        assert(p == f(ds[j]));
    }
    if let Play::Card { card, src, dest } = p {
        if card == c && src == s && ds.contains(dest) {
            let j = choose|j: int| 0 <= j < ds.len() && ds[j] == dest;
            assert(g.card_plays(c, s)[j] == p);
        }
    }
}

proof fn lemma_concat_contains(a: Seq<Play>, b: Seq<Play>, c: Seq<Play>, p: Play)
    ensures
        (a + b + c).contains(p) <==> (a.contains(p) || b.contains(p) || c.contains(p)),
{
    let s = a + b + c;
    if s.contains(p) {
        let j = choose|j: int| 0 <= j < s.len() && s[j] == p;
        if j < a.len() {
            assert(a[j] == p);
        } else if j < a.len() + b.len() {
            assert(b[j - a.len()] == p);
        } else {
            assert(c[j - a.len() - b.len()] == p);
        }
    }
    if a.contains(p) {
        let j = choose|j: int| 0 <= j < a.len() && a[j] == p;
        assert(s[j] == p);
    }
    if b.contains(p) {
        let j = choose|j: int| 0 <= j < b.len() && b[j] == p;
        assert(s[a.len() + j] == p);
    }
    if c.contains(p) {
        let j = choose|j: int| 0 <= j < c.len() && c[j] == p;
        assert(s[a.len() + b.len() + j] == p);
    }
}

/// The actions that `plays` lists are exactly the legal ones, and there is
/// always at least one.
pub proof fn lemma_plays_legal(g: Game)
    requires
        g.wf(),
    ensures
        g.spec_plays().len() > 0,
        forall|p: Play| #[trigger] g.spec_plays().contains(p) <==> g.is_legal(p),
        g.has_move() <==> g.plays_upto(5).len() > 0,
{
    assert forall|p: Play| #[trigger] g.spec_plays().contains(p) <==> g.is_legal(p) by {
        lemma_plays_upto(g, 5, p);
        lemma_moves_listed(g);
    }
    lemma_moves_listed(g);
}

/// There is a move exactly when some move is generated.
proof fn lemma_moves_listed(g: Game)
    requires
        g.wf(),
    ensures
        g.has_move() <==> g.plays_upto(5).len() > 0,
{
    if g.has_move() {
        let (c, src, dest) = choose|c: int, src: Square, dest: Square| #[trigger] g.can_move(c, src, dest);
        let x = (g.spec_board().occupant(src)->0).1;
        assert(g.spec_side(g.spec_player()).pieces[x.idx()] == Some(src));
        lemma_plays_upto(g, 5, Play::Card { card: c as usize, src, dest });
    }
    if g.plays_upto(5).len() > 0 {
        let p = g.plays_upto(5)[0];
        lemma_plays_upto(g, 5, p);
        assert(g.plays_upto(5).contains(p));
    }
}

/// In a well-formed game the board and the slot arrays agree one to one: an
/// occupied square is named by the slot that the board records there, every
/// occupied slot's square records that slot, and no two occupied slots name
/// the same square.
pub proof fn lemma_board_matches_slots(g: Game)
    requires
        g.wf(),
    ensures
        forall|s: Square, p: Player, x: Piece|
            #![trigger g.spec_board().occupant(s), g.spec_side(p).pieces[x.idx()]]
            g.spec_board().occupant(s) == Some((p, x)) ==> g.spec_side(p).pieces[x.idx()] == Some(
                s,
            ),
        forall|p: Player, i: int|
            0 <= i < 5 && #[trigger] g.spec_side(p).pieces[i] is Some ==> g.spec_board().occupant(
                g.spec_side(p).pieces[i]->0,
            ) == Some((p, Piece::of(i))),
        forall|p: Player, i: int, q: Player, j: int|
            0 <= i < 5 && 0 <= j < 5 && #[trigger] g.spec_side(p).pieces[i] is Some
                && #[trigger] g.spec_side(q).pieces[j] == g.spec_side(p).pieces[i] ==> p == q && i
                == j,
{
    assert forall|p: Player, i: int, q: Player, j: int|
        0 <= i < 5 && 0 <= j < 5 && #[trigger] g.spec_side(p).pieces[i] is Some
            && #[trigger] g.spec_side(q).pieces[j] == g.spec_side(p).pieces[i] implies p == q && i
        == j by {
        let s = g.spec_side(p).pieces[i]->0;
        assert(g.spec_board().occupant(s) == Some((p, Piece::of(i))));
        assert(g.spec_board().occupant(s) == Some((q, Piece::of(j))));
        lemma_piece_index(Piece::of(i));
        lemma_piece_index(Piece::of(j));
    }
}

/// Giving up a hand card keeps the multiset of the hand and the spare.
proof fn lemma_pool_kept(g: Game, c: int, next: Game)
    requires
        0 <= c < 2,
        g.rotated(c, next),
    ensures
        next.pool(g.spec_player()) == g.pool(g.spec_player()),
{
    let p = g.spec_player();
    assert(next.spec_side(p).cards@[c] == g.spec_spare());
    assert(next.spec_side(p).cards@[1 - c] == g.spec_side(p).cards@[1 - c]);
    assert(next.pool(p) =~= g.pool(p));
}

/// A legal action leads from a well-formed game to a well-formed game.
proof fn lemma_transition_wf(g: Game, play: Play, next: Game)
    requires
        g.wf(),
        g.is_legal(play),
        g.transition(play, next),
    ensures
        next.wf(),
{
    let p = g.spec_player();
    let o = p.opp();
    assert(g.spec_side(p).cards@[0] == g.spec_side(p).cards[0]);
    assert(next.spec_side(p).cards@[0] == next.spec_side(p).cards[0]);
    assert(next.spec_side(p).cards@[1] == next.spec_side(p).cards[1]);
    match play {
        Play::Card { card, src, dest } => {
            let (pl, pc) = g.spec_board().occupant(src)->0;
            let captured = g.spec_board().occupant(dest);
            lemma_piece_index(pc);
            assert(g.spec_side(pl).pieces[pc.idx()] == Some(src));
            assert(pl == p);
            assert(src != dest);
            assert forall|s: Square|
                match #[trigger] next.spec_board().occupant(s) {
                    Some((pp, x)) => next.spec_side(pp).pieces[x.idx()] == Some(s),
                    None => true,
                } by {
                if s == dest {
                    assert(next.spec_side(p).pieces@[pc.idx()] == Some(dest));
                } else if s != src {
                    if let Some((pp, x)) = g.spec_board().occupant(s) {
                        assert(g.spec_side(pp).pieces[x.idx()] == Some(s));
                        lemma_piece_index(x);
                        if pp == p {
                            assert(x.idx() != pc.idx());
                            assert(next.spec_side(p).pieces@[x.idx()] == g.spec_side(
                                p,
                            ).pieces@[x.idx()]);
                        } else {
                            assert(pp == o);
                            if let Some((_, q)) = captured {
                                lemma_piece_index(q);
                                assert(g.spec_side(o).pieces[q.idx()] == Some(dest));
                                assert(next.spec_side(o).pieces@[x.idx()] == g.spec_side(
                                    o,
                                ).pieces@[x.idx()]);
                            } else {
                                assert(next.spec_side(o).pieces@[x.idx()] == g.spec_side(
                                    o,
                                ).pieces@[x.idx()]);
                            }
                        }
                    }
                }
            }
            assert forall|pp: Player, i: int|
                0 <= i < 5 implies match #[trigger] next.spec_side(pp).pieces[i] {
                    Some(s) => next.spec_board().occupant(s) == Some((pp, Piece::of(i))),
                    None => true,
                } by {
                if pp == p {
                    if i == pc.idx() {
                        assert(next.spec_side(p).pieces@[i] == Some(dest));
                    } else {
                        assert(next.spec_side(p).pieces@[i] == g.spec_side(p).pieces@[i]);
                        if let Some(s) = g.spec_side(p).pieces[i] {
                            assert(g.spec_board().occupant(s) == Some((p, Piece::of(i))));
                            assert(s != src);
                            assert(s != dest);
                        }
                    }
                } else {
                    assert(pp == o);
                    match captured {
                        Some((oo, q)) => {
                            lemma_piece_index(q);
                            assert(g.spec_side(oo).pieces[q.idx()] == Some(dest));
                            assert(oo == o);
                            if i != q.idx() {
                                assert(next.spec_side(o).pieces@[i] == g.spec_side(o).pieces@[i]);
                                if let Some(s) = g.spec_side(o).pieces[i] {
                                    assert(g.spec_board().occupant(s) == Some((o, Piece::of(i))));
                                    assert(s != src);
                                    assert(s != dest);
                                }
                            } else {
                                assert(next.spec_side(o).pieces@[i] == None::<Square>);
                            }
                        },
                        None => {
                            assert(next.spec_side(o).pieces@[i] == g.spec_side(o).pieces@[i]);
                            if let Some(s) = g.spec_side(o).pieces[i] {
                                assert(g.spec_board().occupant(s) == Some((o, Piece::of(i))));
                                assert(s != src);
                                assert(s != dest);
                            }
                        },
                    }
                }
            }
        },
        Play::Discard(c) => {
            assert forall|pp: Player, i: int|
                0 <= i < 5 implies match #[trigger] next.spec_side(pp).pieces[i] {
                    Some(s) => next.spec_board().occupant(s) == Some((pp, Piece::of(i))),
                    None => true,
                } by {
                assert(pp == p || pp == o);
                assert(g.spec_side(pp).pieces[i] == next.spec_side(pp).pieces[i]);
            }
            assert forall|s: Square|
                match #[trigger] next.spec_board().occupant(s) {
                    Some((pp, x)) => next.spec_side(pp).pieces[x.idx()] == Some(s),
                    None => true,
                } by {
                if let Some((pp, x)) = g.spec_board().occupant(s) {
                    assert(pp == p || pp == o);
                    assert(g.spec_side(pp).pieces[x.idx()] == next.spec_side(pp).pieces[x.idx()]);
                }
            }
        },
    }
}

/// When every action that `plays` lists is a discard, each move of either hand
/// card, from each piece of the player to move, leaves the grid or lands on a
/// piece of that same player.
pub proof fn lemma_discard_only(g: Game)
    requires
        g.wf(),
        forall|i: int| 0 <= i < g.spec_plays().len() ==> g.spec_plays()[i] is Discard,
    ensures
        forall|i: int, c: int, k: int|
            0 <= i < 5 && 0 <= c < 2 && 0 <= k < g.hand_moves(c).len() && #[trigger] g.spec_side(
                g.spec_player(),
            ).pieces[i] is Some ==> match (g.spec_side(g.spec_player()).pieces[i]->0).step(
                #[trigger] g.hand_moves(c)[k].for_player(g.spec_player()),
            ) {
                Some(d) => g.owns(d),
                None => true,
            },
{
    lemma_plays_legal(g);
    if g.has_move() {
        let p = g.plays_upto(5)[0];
        assert(g.spec_plays()[0] == p);
        lemma_plays_upto(g, 5, p);
        assert(g.plays_upto(5).contains(p));
    }
    assert forall|i: int, c: int, k: int|
        0 <= i < 5 && 0 <= c < 2 && 0 <= k < g.hand_moves(c).len() && #[trigger] g.spec_side(
            g.spec_player(),
        ).pieces[i] is Some implies match (g.spec_side(g.spec_player()).pieces[i]->0).step(
            #[trigger] g.hand_moves(c)[k].for_player(g.spec_player()),
        ) {
            Some(d) => g.owns(d),
            None => true,
        } by {
        let src = g.spec_side(g.spec_player()).pieces[i]->0;
        if let Some(d) = src.step(g.hand_moves(c)[k].for_player(g.spec_player())) {
            if !g.owns(d) {
                assert(g.spec_board().occupant(src) == Some((g.spec_player(), Piece::of(i))));
                assert(g.reaches(c, src, d));
                assert(g.can_move(c, src, d));
            }
        }
    }
}

} // verus!
