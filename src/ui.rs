use vstd::prelude::*;

use crate::game::{lemma_dest_list, Game, Play};
use crate::player::Player;
use crate::square::{File, Rank, Square};

verus! {

/// Height in cells of one board square.
pub const BOARD_SQUARE_HEIGHT: u16 = 3;
/// Width in cells of one board square.
pub const BOARD_SQUARE_WIDTH: u16 = 6;
/// Height in cells of the board.
pub const BOARD_HEIGHT: u16 = 15;
/// Width in cells of the board.
pub const BOARD_WIDTH: u16 = 30;
/// Height in cells of a drawn card.
pub const CARD_HEIGHT: u16 = 8;
/// Width in cells of a drawn card.
pub const CARD_WIDTH: u16 = 17;
/// Width in cells of a hand of two cards.
pub const HAND_WIDTH: u16 = 35;
/// Gap in cells between the board and the cards.
pub const MARGIN: u16 = 1;

/// A screen rectangle: left, top, right and bottom, all inclusive.
pub type Rect = (u16, u16, u16, u16);

/// What the user has picked so far.
#[derive(Copy, Clone, Eq, PartialEq, Debug, Structural)]
pub enum State {
    /// A hand card of the player to move.
    Card(usize),
    /// A hand card and a piece of the player to move.
    Square(usize, Square),
}

/// What a click landed on.
#[derive(Copy, Clone, Eq, PartialEq, Debug, Structural)]
pub enum Clicked {
    Square(Square),
    Card(Player, usize),
}

/// The offset that centers `size` cells in `total`, or 0 where they do not fit.
pub open spec fn centered(total: int, size: int) -> int {
    if total >= size {
        (total - size) / 2
    } else {
        0
    }
}

/// A rectangle with its corners as integers.
pub open spec fn rect_view(r: Rect) -> (int, int, int, int) {
    (r.0 as int, r.1 as int, r.2 as int, r.3 as int)
}

/// Whether `pos` lies in `rect`, borders included.
pub open spec fn in_rect(rect: Rect, pos: (u16, u16)) -> bool {
    rect.0 <= pos.0 <= rect.2 && rect.1 <= pos.1 <= rect.3
}

fn rect_contains(rect: Rect, pos: (u16, u16)) -> (r: bool)
    ensures
        r == in_rect(rect, pos),
{
    rect.0 <= pos.0 && pos.0 <= rect.2 && rect.1 <= pos.1 && pos.1 <= rect.3
}

fn center(total: u16, size: u16) -> (r: u16)
    ensures
        r as int == centered(total as int, size as int),
        r <= 32767,
{
    if total >= size {
        (total - size) / 2
    } else {
        0
    }
}

/// The board, the hands and the spare on a terminal of a given size, and the
/// selection the user is making.
pub struct GameUI {
    width: u16,
    height: u16,
    game: Game,
    state: Option<State>,
}

impl GameUI {
    /// The game on show.
    pub closed spec fn spec_game(self) -> Game {
        self.game
    }

    /// The selection so far.
    pub closed spec fn spec_state(self) -> Option<State> {
        self.state
    }

    /// The terminal width.
    pub closed spec fn spec_width(self) -> u16 {
        self.width
    }

    /// The terminal height.
    pub closed spec fn spec_height(self) -> u16 {
        self.height
    }

    /// The game is well formed, and a selection names a hand card and, if
    /// any, a piece of the player to move.
    pub open spec fn wf(self) -> bool {
        &&& self.spec_game().wf()
        &&& match self.spec_state() {
            Some(State::Card(c)) => c < 2,
            Some(State::Square(c, src)) => c < 2 && self.spec_game().owns(src),
            None => true,
        }
    }

    /// Where the board is drawn: centered on the terminal.
    pub open spec fn board_at(self) -> (int, int, int, int) {
        let x = centered(self.spec_width() as int, 30);
        let y = centered(self.spec_height() as int, 15);
        (x, y, x + 30, y + 15)
    }

    /// Where `player`'s hand is drawn: below the board for Red, above it for Blue.
    pub open spec fn cards_at(self, player: Player, c: int) -> (int, int, int, int) {
        let b = self.board_at();
        let x1 = centered(self.spec_width() as int, 35);
        let x = if c == 0 {
            x1
        } else {
            x1 + 18
        };
        let y = match player {
            Player::Red => b.3 + 1,
            Player::Blue => if b.1 >= 9 {
                b.1 - 9
            } else {
                0
            },
        };
        (x, y, x + 17, y + 8)
    }

    /// Where the spare is drawn: right of the board on Red's turn, left of it on Blue's.
    pub open spec fn spare_at(self) -> (int, int, int, int) {
        let b = self.board_at();
        let y = centered(self.spec_height() as int, 8);
        let x = match self.spec_game().spec_player() {
            Player::Red => b.2 + 1,
            Player::Blue => if b.0 >= 18 {
                b.0 - 18
            } else {
                0
            },
        };
        (x, y, x + 17, y + 8)
    }

    /// Where square `s` is drawn: files left to right, rank five on top.
    pub open spec fn square_at(self, s: Square) -> (int, int, int, int) {
        let b = self.board_at();
        let x = b.0 + 6 * s.0.idx();
        let y = b.1 + 3 * (4 - s.1.idx());
        (x, y, x + 6, y + 3)
    }

    /// The square drawn under `pos`, which lies on the board; a point on the
    /// line between two squares belongs to the right or lower one.
    pub open spec fn square_under(self, pos: (u16, u16)) -> Square {
        let b = self.board_at();
        let f = (pos.0 - b.0) / 6;
        let r = (pos.1 - b.1) / 3;
        Square::at(if f > 4 {
            4
        } else {
            f
        }, 4 - if r > 4 {
            4
        } else {
            r
        })
    }

    /// What a click at `pos` lands on.
    pub open spec fn target(self, pos: (u16, u16)) -> Option<Clicked> {
        let p = self.spec_game().spec_player();
        let inside = |r: (int, int, int, int)|
            r.0 <= pos.0 <= r.2 && r.1 <= pos.1 <= r.3;
        if inside(self.board_at()) {
            Some(Clicked::Square(self.square_under(pos)))
        } else if inside(self.cards_at(p, 0)) {
            Some(Clicked::Card(p, 0))
        } else if inside(self.cards_at(p, 1)) {
            Some(Clicked::Card(p, 1))
        } else if inside(self.cards_at(p.opp(), 0)) {
            Some(Clicked::Card(p.opp(), 0))
        } else if inside(self.cards_at(p.opp(), 1)) {
            Some(Clicked::Card(p.opp(), 1))
        } else {
            None
        }
    }

    /// The selection after a click on `t`, and the action it completes, if any.
    ///
    /// A hand card of the player to move selects that card. With a card
    /// selected, a piece of the player to move selects that piece; with a
    /// piece selected too, one of its destinations completes the move and
    /// keeps the selection; any other square goes back to the card alone.
    /// Anything else clears the selection.
    pub open spec fn step(self, t: Option<Clicked>) -> (Option<State>, Option<Play>) {
        let g = self.spec_game();
        let p = g.spec_player();
        match t {
            Some(Clicked::Card(q, c)) => if q == p {
                (Some(State::Card(c)), None)
            } else {
                (None, None)
            },
            Some(Clicked::Square(s)) => match self.spec_state() {
                None => (None, None),
                Some(State::Card(c)) => if g.owns(s) {
                    (Some(State::Square(c, s)), None)
                } else {
                    (Some(State::Card(c)), None)
                },
                Some(State::Square(c, src)) => if g.owns(s) {
                    (Some(State::Square(c, s)), None)
                } else if g.dests_of(c as int, src).contains(s) {
                    (Some(State::Square(c, src)), Some(Play::Card { card: c, src, dest: s }))
                } else {
                    (Some(State::Card(c)), None)
                },
            },
            None => (None, None),
        }
    }

    /// A view of `game` on a terminal of `width` by `height` cells, with nothing selected.
    pub fn new(width: u16, height: u16, game: Game) -> (r: GameUI)
        requires
            game.wf(),
        ensures
            r.wf(),
            r.spec_game() == game,
            r.spec_state() is None,
            r.spec_width() == width,
            r.spec_height() == height,
    {
        GameUI { width, height, game, state: None }
    }

    /// Records a new terminal size.
    pub fn set_size(&mut self, width: u16, height: u16)
        ensures
            final(self).spec_width() == width,
            final(self).spec_height() == height,
            final(self).spec_game() == old(self).spec_game(),
            final(self).spec_state() == old(self).spec_state(),
    {
        self.width = width;
        self.height = height;
    }

    /// The game on show.
    pub fn game(&self) -> (r: &Game)
        ensures
            *r == self.spec_game(),
    {
        &self.game
    }

    /// The selection so far.
    pub fn state(&self) -> (r: Option<State>)
        ensures
            r == self.spec_state(),
    {
        self.state
    }

    /// Where the board is drawn.
    pub fn board_rect(&self) -> (r: Rect)
        ensures
            rect_view(r) == self.board_at(),
    {
        let x = center(self.width, BOARD_WIDTH);
        let y = center(self.height, BOARD_HEIGHT);
        (x, y, x + BOARD_WIDTH, y + BOARD_HEIGHT)
    }

    /// Where the two hand cards of `player` are drawn.
    pub fn cards_rect(&self, player: Player) -> (r: [Rect; 2])
        ensures
            rect_view(r[0]) == self.cards_at(player, 0),
            rect_view(r[1]) == self.cards_at(player, 1),
    {
        let (_, board_y1, _, board_y2) = self.board_rect();
        let x1 = center(self.width, HAND_WIDTH);
        let x2 = x1 + MARGIN + CARD_WIDTH;
        let y = match player {
            Player::Red => board_y2 + MARGIN,
            Player::Blue => if board_y1 >= MARGIN + CARD_HEIGHT {
                board_y1 - MARGIN - CARD_HEIGHT
            } else {
                0
            },
        };
        [(x1, y, x1 + CARD_WIDTH, y + CARD_HEIGHT), (x2, y, x2 + CARD_WIDTH, y + CARD_HEIGHT)]
    }

    /// Where the spare card is drawn.
    pub fn spare_rect(&self) -> (r: Rect)
        ensures
            rect_view(r) == self.spare_at(),
    {
        let (board_x1, _, board_x2, _) = self.board_rect();
        let y = center(self.height, CARD_HEIGHT);
        let x = match self.game.player_to_move() {
            Player::Red => board_x2 + MARGIN,
            Player::Blue => if board_x1 >= MARGIN + CARD_WIDTH {
                board_x1 - MARGIN - CARD_WIDTH
            } else {
                0
            },
        };
        (x, y, x + CARD_WIDTH, y + CARD_HEIGHT)
    }

    /// Where `square` is drawn.
    pub fn square_rect(&self, square: Square) -> (r: Rect)
        ensures
            rect_view(r) == self.square_at(square),
    {
        let (board_x, board_y, _, _) = self.board_rect();
        let file = square.file().index() as u16;
        let rank = 4 - square.rank().index() as u16;
        let x = board_x + file * BOARD_SQUARE_WIDTH;
        let y = board_y + rank * BOARD_SQUARE_HEIGHT;
        (x, y, x + BOARD_SQUARE_WIDTH, y + BOARD_SQUARE_HEIGHT)
    }

    fn square_under_pos(&self, pos: (u16, u16)) -> (r: Square)
        requires
            in_rect(self.board_rect_spec(), pos),
        ensures
            r == self.square_under(pos),
    {
        let (board_x, board_y, _, _) = self.board_rect();
        let f = (pos.0 - board_x) / BOARD_SQUARE_WIDTH;
        let r = (pos.1 - board_y) / BOARD_SQUARE_HEIGHT;
        let f: usize = if f > 4 {
            4
        } else {
            f as usize
        };
        let r: usize = if r > 4 {
            4
        } else {
            r as usize
        };
        Square(File::from_index(f).unwrap(), Rank::from_index(4 - r).unwrap())
    }

    /// The board's rectangle in screen cells.
    pub open spec fn board_rect_spec(self) -> Rect {
        let b = self.board_at();
        (b.0 as u16, b.1 as u16, b.2 as u16, b.3 as u16)
    }

    fn clicked(&self, pos: (u16, u16)) -> (r: Option<Clicked>)
        ensures
            r == self.target(pos),
    {
        let player = self.game.player_to_move();
        let other = player.opponent();
        let board = self.board_rect();
        let pc = self.cards_rect(player);
        let oc = self.cards_rect(other);
        if rect_contains(board, pos) {
            Some(Clicked::Square(self.square_under_pos(pos)))
        } else if rect_contains(pc[0], pos) {
            Some(Clicked::Card(player, 0))
        } else if rect_contains(pc[1], pos) {
            Some(Clicked::Card(player, 1))
        } else if rect_contains(oc[0], pos) {
            Some(Clicked::Card(other, 0))
        } else if rect_contains(oc[1], pos) {
            Some(Clicked::Card(other, 1))
        } else {
            None
        }
    }

    /// Takes a click at `pos` and returns the move it completes, if any.
    /// Clicks are ignored once the match is won.
    pub fn handle_click(&mut self, pos: (u16, u16)) -> (r: Option<Play>)
        requires
            old(self).wf(),
        ensures
            final(self).wf(),
            final(self).spec_game() == old(self).spec_game(),
            final(self).spec_width() == old(self).spec_width(),
            final(self).spec_height() == old(self).spec_height(),
            old(self).spec_game().spec_winner() is Some ==> final(self).spec_state() == old(
                self,
            ).spec_state() && r is None,
            old(self).spec_game().spec_winner() is None ==> (final(self).spec_state(), r) == old(
                self,
            ).step(old(self).target(pos)),
            r matches Some(p) ==> old(self).spec_game().is_legal(p),
    {
        if self.game.winner().is_some() {
            return None;
        }
        let clicked = self.clicked(pos);
        let player = self.game.player_to_move();
        let (state, play) = match clicked {
            Some(Clicked::Card(p, card)) => if p == player {
                (Some(State::Card(card)), None)
            } else {
                (None, None)
            },
            Some(Clicked::Square(s)) => match self.state {
                None => (None, None),
                Some(State::Card(card)) => if self.game.owns_square(s) {
                    (Some(State::Square(card, s)), None)
                } else {
                    (Some(State::Card(card)), None)
                },
                Some(State::Square(card, src)) => if self.game.owns_square(s) {
                    (Some(State::Square(card, s)), None)
                } else if contains(&self.game.dests(card, src), s) {
                    proof {
                        let g = self.game;
                        lemma_dest_list(g, card as int, src, g.hand_moves(card as int).len() as int, s);
                    }
                    (Some(State::Square(card, src)), Some(Play::Card { card, src, dest: s }))
                } else {
                    (Some(State::Card(card)), None)
                },
            },
            None => (None, None),
        };
        self.state = state;
        play
    }

    /// Whether `square` is drawn highlighted: the selected piece and its destinations.
    pub fn is_active(&self, square: Square) -> (r: bool)
        requires
            self.wf(),
        ensures
            r == match self.spec_state() {
                Some(State::Square(c, src)) => square == src || self.spec_game().dests_of(
                    c as int,
                    src,
                ).contains(square),
                _ => false,
            },
    {
        match self.state {
            Some(State::Square(card, src)) => square == src || contains(
                &self.game.dests(card, src),
                square,
            ),
            _ => false,
        }
    }
}

fn contains(v: &Vec<Square>, s: Square) -> (r: bool)
    ensures
        r == v@.contains(s),
{
    let mut i: usize = 0;
    while i < v.len()
        invariant
            i <= v@.len(),
            forall|j: int| 0 <= j < i ==> v@[j] != s,
        decreases v@.len() - i,
    {
        if v[i] == s {
            assert(v@[i as int] == s);
            return true;
        }
        i += 1;
    }
    false
}

} // verus!
