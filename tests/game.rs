use onitama::game::{Game, Play, PlayError};
use onitama::piece::Piece;
use onitama::player::Player;
use onitama::side::Side;
use onitama::square::{File, Rank, Square};

fn sq(f: File, r: Rank) -> Square {
    Square(f, r)
}

/// Red: King on C1 and `pawn` (slot PawnA); Blue: King on `blue_king` and a pawn on A5.
fn duel(pawn: Option<Square>, red_king: Square, blue_king: Square) -> Game {
    let red = Side {
        pieces: [Some(red_king), pawn, None, None, None],
        cards: [1, 5],
    };
    let blue = Side {
        pieces: [Some(blue_king), Some(sq(File::A, Rank::Five)), None, None, None],
        cards: [2, 3],
    };
    // Boar (7) is stamped Red, so Red moves first.
    Game::setup(red, blue, 7).unwrap()
}

#[test]
fn initial_layout() {
    let g = Game::new([8, 9], [10, 11], 12);
    assert_eq!(*g.side(Player::Red).square(Piece::King), Some(sq(File::C, Rank::One)));
    assert_eq!(*g.side(Player::Blue).square(Piece::King), Some(sq(File::C, Rank::Five)));
    assert_eq!(g.distance(Player::Red), 4);
    assert_eq!(g.distance(Player::Blue), 4);
    // Rabbit (12) is stamped Blue.
    assert_eq!(g.player(), Some(Player::Blue));
    assert_eq!(g.winner(), None);
    assert_eq!(g.occupant(sq(File::A, Rank::One)), Some((Player::Red, Piece::PawnA)));
    assert_eq!(g.occupant(sq(File::E, Rank::Five)), Some((Player::Blue, Piece::PawnE)));
    assert_eq!(g.occupant(sq(File::C, Rank::Three)), None);
    assert_eq!(g.spare().name, "Rabbit");
}

#[test]
fn first_player_follows_spare_stamp() {
    // Boar (7) is stamped Red.
    let g = Game::new([1, 5], [2, 3], 7);
    assert_eq!(g.player(), Some(Player::Red));
}

#[test]
fn plays_from_start_in_order() {
    // Red holds Crab (1) and Elephant (5).
    let g = Game::new([1, 5], [2, 3], 7);
    let c = |card: usize, s: Square, d: Square| Play::Card { card, src: s, dest: d };
    let (a1, b1, c1, d1, e1) = (
        sq(File::A, Rank::One),
        sq(File::B, Rank::One),
        sq(File::C, Rank::One),
        sq(File::D, Rank::One),
        sq(File::E, Rank::One),
    );
    let (a2, b2, c2, d2, e2) = (
        sq(File::A, Rank::Two),
        sq(File::B, Rank::Two),
        sq(File::C, Rank::Two),
        sq(File::D, Rank::Two),
        sq(File::E, Rank::Two),
    );
    let expected = vec![
        c(0, c1, c2),
        c(1, c1, b2),
        c(1, c1, d2),
        c(0, a1, a2),
        c(1, a1, b2),
        c(0, b1, b2),
        c(1, b1, a2),
        c(1, b1, c2),
        c(0, d1, d2),
        c(1, d1, c2),
        c(1, d1, e2),
        c(0, e1, e2),
        c(1, e1, d2),
    ];
    assert_eq!(g.plays(), expected);
    assert!(!g.plays().is_empty());
}

#[test]
fn edge_clamp_in_dests() {
    let g = Game::new([1, 5], [2, 3], 7);
    // Crab from A1: Up(1) reaches A2; Right(2) lands on Red's King; Left(2) leaves the grid.
    assert_eq!(g.dests(0, sq(File::A, Rank::One)), vec![sq(File::A, Rank::Two)]);
    assert_eq!(g.dests(0, sq(File::E, Rank::One)), vec![sq(File::E, Rank::Two)]);
    // Elephant from A1: only the up-right step stays on the grid and off Red's pieces.
    assert_eq!(g.dests(1, sq(File::A, Rank::One)), vec![sq(File::B, Rank::Two)]);
}

#[test]
fn blue_moves_are_mirrored() {
    // Tiger (0) is stamped Blue; Blue holds Monkey (2) and Crane (3).
    let g = Game::new([1, 5], [2, 3], 0);
    assert_eq!(g.player(), Some(Player::Blue));
    assert_eq!(
        g.dests(0, sq(File::C, Rank::Five)),
        vec![sq(File::D, Rank::Four), sq(File::B, Rank::Four)]
    );
    // Crane: Up(1) becomes Down(1) for Blue.
    assert_eq!(g.dests(1, sq(File::A, Rank::Five)), vec![sq(File::A, Rank::Four)]);
}

#[test]
fn capture_keeps_slots() {
    let red = Side {
        pieces: [
            Some(sq(File::C, Rank::One)),
            Some(sq(File::B, Rank::Two)),
            None,
            None,
            None,
        ],
        cards: [1, 5],
    };
    let blue = Side {
        pieces: [
            Some(sq(File::C, Rank::Five)),
            Some(sq(File::B, Rank::Three)),
            Some(sq(File::A, Rank::Five)),
            Some(sq(File::D, Rank::Five)),
            Some(sq(File::E, Rank::Five)),
        ],
        cards: [2, 3],
    };
    let mut g = Game::setup(red, blue, 7).unwrap();
    let before = *g.side(Player::Blue);
    let winner = g.play(Play::Card {
        card: 0,
        src: sq(File::B, Rank::Two),
        dest: sq(File::B, Rank::Three),
    });
    assert_eq!(winner, None);
    let after = *g.side(Player::Blue);
    assert_eq!(after.pieces[1], None);
    assert_eq!(after.pieces[0], before.pieces[0]);
    assert_eq!(after.pieces[2], before.pieces[2]);
    assert_eq!(after.pieces[3], before.pieces[3]);
    assert_eq!(after.pieces[4], before.pieces[4]);
    assert_eq!(
        g.pieces(Player::Blue),
        vec![
            (Piece::King, sq(File::C, Rank::Five)),
            (Piece::PawnB, sq(File::A, Rank::Five)),
            (Piece::PawnD, sq(File::D, Rank::Five)),
            (Piece::PawnE, sq(File::E, Rank::Five)),
        ]
    );
    assert_eq!(*g.side(Player::Red).square(Piece::PawnA), Some(sq(File::B, Rank::Three)));
    assert_eq!(g.occupant(sq(File::B, Rank::Three)), Some((Player::Red, Piece::PawnA)));
    assert_eq!(g.occupant(sq(File::B, Rank::Two)), None);
    // Crab became the spare; Boar took its place in Red's hand.
    assert_eq!(g.side(Player::Red).cards, [7, 5]);
    assert_eq!(g.spare().name, "Crab");
    // Crab is stamped Blue.
    assert_eq!(g.player(), Some(Player::Blue));
}

#[test]
fn capturing_king_wins() {
    let mut g = duel(
        Some(sq(File::C, Rank::Four)),
        sq(File::C, Rank::One),
        sq(File::C, Rank::Five),
    );
    let play = Play::Card { card: 0, src: sq(File::C, Rank::Four), dest: sq(File::C, Rank::Five) };
    assert!(g.plays().contains(&play));
    assert_eq!(g.play(play), Some(Player::Red));
    assert_eq!(g.winner(), Some(Player::Red));
    assert_eq!(g.player(), None);
    assert_eq!(*g.side(Player::Blue).square(Piece::King), None);
    let done = g;
    assert_eq!(g.try_play(Play::Discard(0)), Err(PlayError::Finished));
    assert_eq!(g, done);
}

#[test]
fn try_play_accepts_legal_and_refuses_illegal() {
    let mut g = Game::new([1, 5], [2, 3], 7);
    // A discard is refused while a move exists.
    assert_eq!(g.try_play(Play::Discard(0)), Err(PlayError::Illegal));
    // Crab cannot move C1 two ranks up.
    let far = Play::Card { card: 0, src: sq(File::C, Rank::One), dest: sq(File::C, Rank::Three) };
    assert_eq!(g.try_play(far), Err(PlayError::Illegal));
    // Moving a Blue piece on Red's turn is refused.
    let theirs = Play::Card { card: 0, src: sq(File::C, Rank::Five), dest: sq(File::C, Rank::Four) };
    assert_eq!(g.try_play(theirs), Err(PlayError::Illegal));
    let ok = Play::Card { card: 0, src: sq(File::C, Rank::One), dest: sq(File::C, Rank::Two) };
    assert_eq!(g.try_play(ok), Ok(None));
    assert_eq!(g.occupant(sq(File::C, Rank::Two)), Some((Player::Red, Piece::King)));
}

#[test]
fn king_reaching_home_wins() {
    let mut g = duel(
        Some(sq(File::A, Rank::One)),
        sq(File::C, Rank::Four),
        sq(File::E, Rank::Five),
    );
    assert_eq!(g.distance(Player::Red), 1);
    let play = Play::Card { card: 0, src: sq(File::C, Rank::Four), dest: sq(File::C, Rank::Five) };
    assert_eq!(g.play(play), Some(Player::Red));
    assert_eq!(g.winner(), Some(Player::Red));
    assert_eq!(g.distance(Player::Red), 0);
}

#[test]
fn ordinary_move_does_not_win() {
    let mut g = duel(
        Some(sq(File::A, Rank::One)),
        sq(File::C, Rank::Two),
        sq(File::E, Rank::Five),
    );
    let play = Play::Card { card: 0, src: sq(File::C, Rank::Two), dest: sq(File::C, Rank::Three) };
    assert_eq!(g.play(play), None);
    assert_eq!(g.winner(), None);
}

#[test]
fn cards_are_conserved() {
    let mut g = Game::new([1, 5], [2, 3], 7);
    let pool = |g: &Game| {
        let mut v = g.side(Player::Red).cards.to_vec();
        v.push(spare_id(g));
        v.sort();
        v
    };
    let before = pool(&g);
    g.play(Play::Card { card: 1, src: sq(File::C, Rank::One), dest: sq(File::B, Rank::Two) });
    assert_eq!(pool(&g), before);
    assert_eq!(g.side(Player::Red).cards, [1, 7]);
    assert_eq!(g.side(Player::Blue).cards, [2, 3]);
}

fn spare_id(g: &Game) -> usize {
    let name = g.spare().name;
    (0..16).find(|&i| onitama::card::card(i).name == name).unwrap()
}

#[test]
fn forced_discard() {
    // Red fills file A and holds Tiger (0) and Horse (10): every move leaves
    // the grid or lands on a Red piece.
    let red = Side {
        pieces: [
            Some(sq(File::A, Rank::One)),
            Some(sq(File::A, Rank::Two)),
            Some(sq(File::A, Rank::Three)),
            Some(sq(File::A, Rank::Four)),
            Some(sq(File::A, Rank::Five)),
        ],
        cards: [0, 10],
    };
    let blue = Side {
        pieces: [Some(sq(File::E, Rank::Five)), None, None, None, None],
        cards: [2, 3],
    };
    let mut g = Game::setup(red, blue, 7).unwrap();
    assert_eq!(g.player(), Some(Player::Red));
    let plays = g.plays();
    assert_eq!(plays, vec![Play::Discard(0), Play::Discard(1)]);
    assert!(!plays.contains(&Play::Card {
        card: 0,
        src: sq(File::A, Rank::One),
        dest: sq(File::A, Rank::Three),
    }));
    assert!(g.dests(0, sq(File::A, Rank::One)).is_empty());
    let before = g;
    assert_eq!(
        g.try_play(Play::Card {
            card: 0,
            src: sq(File::A, Rank::One),
            dest: sq(File::A, Rank::Three),
        }),
        Err(PlayError::Illegal)
    );
    assert_eq!(g, before);
    g.discard(0);
    assert_eq!(g.side(Player::Red).cards, [7, 10]);
    assert_eq!(g.spare().name, "Tiger");
    // Tiger is stamped Blue.
    assert_eq!(g.player(), Some(Player::Blue));
    assert_eq!(g.winner(), None);
    assert_eq!(*g.side(Player::Red), Side { pieces: red.pieces, cards: [7, 10] });
}

#[test]
fn discard_through_play() {
    let red = Side {
        pieces: [
            Some(sq(File::A, Rank::One)),
            Some(sq(File::A, Rank::Two)),
            Some(sq(File::A, Rank::Three)),
            Some(sq(File::A, Rank::Four)),
            Some(sq(File::A, Rank::Five)),
        ],
        cards: [0, 10],
    };
    let blue = Side { pieces: [Some(sq(File::E, Rank::Five)), None, None, None, None], cards: [2, 3] };
    let mut g = Game::setup(red, blue, 7).unwrap();
    assert_eq!(g.play(Play::Discard(1)), None);
    assert_eq!(g.side(Player::Red).cards, [0, 7]);
    assert_eq!(g.spare().name, "Horse");
    // Horse is stamped Red.
    assert_eq!(g.player(), Some(Player::Red));
}

#[test]
fn setup_rejects_bad_input() {
    let red = Side::new(Player::Red, [1, 5]);
    let blue = Side::new(Player::Blue, [2, 3]);
    assert!(Game::setup(red, blue, 7).is_some());
    assert!(Game::setup(red, blue, 16).is_none());
    assert!(Game::setup(Side { cards: [1, 16], ..red }, blue, 7).is_none());
    let mut clash = blue;
    clash.pieces[2] = Some(sq(File::D, Rank::One));
    assert!(Game::setup(red, clash, 7).is_none());
    let mut twice = red;
    twice.pieces[1] = Some(sq(File::C, Rank::One));
    assert!(Game::setup(twice, blue, 7).is_none());
}

#[test]
fn setup_matches_new() {
    let red = Side::new(Player::Red, [1, 5]);
    let blue = Side::new(Player::Blue, [2, 3]);
    assert_eq!(Game::setup(red, blue, 7).unwrap(), Game::new([1, 5], [2, 3], 7));
}

fn assert_board_matches_slots(g: &Game) {
    let files = [File::A, File::B, File::C, File::D, File::E];
    let ranks = [Rank::One, Rank::Two, Rank::Three, Rank::Four, Rank::Five];
    let mut occupied = 0;
    for f in files {
        for r in ranks {
            if let Some((p, piece)) = g.occupant(sq(f, r)) {
                occupied += 1;
                assert_eq!(*g.side(p).square(piece), Some(sq(f, r)));
            }
        }
    }
    let mut slots = 0;
    for p in [Player::Red, Player::Blue] {
        for (piece, s) in g.pieces(p) {
            slots += 1;
            assert_eq!(g.occupant(s), Some((p, piece)));
        }
    }
    assert_eq!(occupied, slots);
}

#[test]
fn board_and_slots_agree_through_play() {
    // Red: Crab (1) and Elephant (5); Blue: Monkey (2) and Crane (3); spare Boar (7, Red).
    let mut g = Game::new([1, 5], [2, 3], 7);
    assert_board_matches_slots(&g);
    for _ in 0..12 {
        if g.winner().is_some() {
            break;
        }
        let plays = g.plays();
        assert!(!plays.is_empty());
        // Prefer a capture, else take the first action.
        let pick = plays
            .iter()
            .copied()
            .find(|p| matches!(p, Play::Card { dest, .. } if g.occupant(*dest).is_some()))
            .unwrap_or(plays[0]);
        g.play(pick);
        assert_board_matches_slots(&g);
    }
}
