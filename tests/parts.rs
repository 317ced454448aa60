use onitama::card::{card, stamp, CARD_COUNT};
use onitama::list::List;
use onitama::moves::{Horizontal, Move, Vertical};
use onitama::piece::Piece;
use onitama::player::Player;
use onitama::side::Side;
use onitama::square::{File, Rank, Square};

#[test]
fn square_apply_inside_grid() {
    let s = Square(File::A, Rank::One);
    assert_eq!(
        s.apply(Move(Vertical::Up(1), Horizontal::Right(1))),
        Some(Square(File::B, Rank::Two))
    );
    assert_eq!(
        Square(File::C, Rank::Three).apply(Move(Vertical::Down(2), Horizontal::Left(2))),
        Some(Square(File::A, Rank::One))
    );
    assert_eq!(
        Square(File::C, Rank::Three).apply(Move(Vertical::Up(0), Horizontal::Right(0))),
        Some(Square(File::C, Rank::Three))
    );
}

#[test]
fn square_apply_edge_clamp() {
    let a1 = Square(File::A, Rank::One);
    assert_eq!(a1.apply(Move(Vertical::Down(1), Horizontal::Right(0))), None);
    assert_eq!(a1.apply(Move(Vertical::Up(0), Horizontal::Left(1))), None);
    let e5 = Square(File::E, Rank::Five);
    assert_eq!(e5.apply(Move(Vertical::Up(1), Horizontal::Right(0))), None);
    assert_eq!(e5.apply(Move(Vertical::Up(0), Horizontal::Right(1))), None);
    assert_eq!(e5.apply(Move(Vertical::Up(0), Horizontal::Left(usize::MAX))), None);
    assert_eq!(a1.apply(Move(Vertical::Up(usize::MAX), Horizontal::Right(0))), None);
}

#[test]
fn axis_apply() {
    assert_eq!(File::B.apply(Horizontal::Right(3)), Some(File::E));
    assert_eq!(File::B.apply(Horizontal::Right(4)), None);
    assert_eq!(File::B.apply(Horizontal::Left(1)), Some(File::A));
    assert_eq!(File::B.apply(Horizontal::Left(2)), None);
    assert_eq!(Rank::Four.apply(Vertical::Up(1)), Some(Rank::Five));
    assert_eq!(Rank::Four.apply(Vertical::Down(3)), Some(Rank::One));
    assert_eq!(Rank::Four.apply(Vertical::Down(4)), None);
    assert_eq!(File::D.index(), 3);
    assert_eq!(Rank::from_index(2), Some(Rank::Three));
    assert_eq!(Rank::from_index(5), None);
}

#[test]
fn king_home_squares() {
    assert_eq!(Square::king(Player::Red), Square(File::C, Rank::One));
    assert_eq!(Square::king(Player::Blue), Square(File::C, Rank::Five));
    let s = Square(File::D, Rank::Two);
    assert_eq!(s.file(), File::D);
    assert_eq!(s.rank(), Rank::Two);
}

#[test]
fn flip_twice_is_identity() {
    let m = Move(Vertical::Up(2), Horizontal::Left(1));
    let mut f = m;
    f.flip();
    assert_eq!(f, Move(Vertical::Down(2), Horizontal::Right(1)));
    f.flip();
    assert_eq!(f, m);
    let mut b = m;
    b.flip_for(Player::Blue);
    b.flip_for(Player::Blue);
    assert_eq!(b, m);
    let mut r = m;
    r.flip_for(Player::Red);
    assert_eq!(r, m);
    assert_eq!(m.vertical(), Vertical::Up(2));
    assert_eq!(m.horizontal(), Horizontal::Left(1));
}

#[test]
fn player_basics() {
    assert_eq!(Player::Red.rank(), Rank::One);
    assert_eq!(Player::Blue.rank(), Rank::Five);
    let mut p = Player::Red;
    p.invert();
    assert_eq!(p, Player::Blue);
    assert_eq!(Player::Blue.opponent(), Player::Red);
    let m = Move(Vertical::Up(1), Horizontal::Right(2));
    assert_eq!(Player::Red.flipper(&m), m);
    assert_eq!(Player::Blue.flipper(&m), Move(Vertical::Down(1), Horizontal::Left(2)));
}

#[test]
fn piece_basics() {
    assert_eq!(Piece::King.index(), 0);
    assert_eq!(Piece::PawnD.index(), 3);
    assert_eq!(Piece::King.file(), File::C);
    assert_eq!(Piece::PawnA.file(), File::A);
    assert_eq!(Piece::PawnE.file(), File::E);
    assert_eq!(Piece::from_index(4), Piece::PawnE);
    assert_eq!(Piece::from_index(1), Piece::PawnA);
}

#[test]
fn catalog() {
    assert_eq!(CARD_COUNT, 16);
    let tiger = card(0);
    assert_eq!(tiger.name, "Tiger");
    assert_eq!(tiger.stamp, Player::Blue);
    assert_eq!(
        tiger.moves,
        vec![
            Move(Vertical::Up(2), Horizontal::Right(0)),
            Move(Vertical::Down(1), Horizontal::Right(0))
        ]
    );
    assert_eq!(card(15).name, "Cobra");
    assert_eq!(card(15).stamp, Player::Red);
    assert_eq!(card(2).moves.len(), 4);
    assert_eq!(stamp(7), Player::Red);
    assert_eq!(stamp(12), Player::Blue);
    let reds = (0..CARD_COUNT).filter(|&i| stamp(i) == Player::Red).count();
    assert_eq!(reds, 8);
}

#[test]
fn side_queries() {
    let mut side = Side::new(Player::Red, [1, 5]);
    assert_eq!(side.cards, [1, 5]);
    assert_eq!(*side.square(Piece::King), Some(Square(File::C, Rank::One)));
    assert_eq!(
        side.squares(),
        vec![
            Square(File::C, Rank::One),
            Square(File::A, Rank::One),
            Square(File::B, Rank::One),
            Square(File::D, Rank::One),
            Square(File::E, Rank::One),
        ]
    );
    *side.square_mut(Piece::PawnB) = None;
    assert_eq!(
        side.pieces(),
        vec![
            (Piece::King, Square(File::C, Rank::One)),
            (Piece::PawnA, Square(File::A, Rank::One)),
            (Piece::PawnD, Square(File::D, Rank::One)),
            (Piece::PawnE, Square(File::E, Rank::One)),
        ]
    );
    let [c0, c1] = side.cards();
    assert_eq!(c0.name, "Crab");
    assert_eq!(c1.name, "Elephant");
    let blue = Side::new(Player::Blue, [2, 3]);
    assert_eq!(*blue.square(Piece::PawnE), Some(Square(File::E, Rank::Five)));
}

#[test]
fn list_swap_remove() {
    let mut l: List<u32, 5> = List::new([10, 20, 30, 40, 0], 4);
    assert_eq!(l.len(), 4);
    assert_eq!(l.swap_remove(1), Some(40));
    assert_eq!(l.len(), 3);
    assert_eq!((l.get(0), l.get(1), l.get(2)), (10, 40, 30));
    assert_eq!(l.swap_remove(2), None);
    assert_eq!(l.len(), 2);
    assert_eq!((l.get(0), l.get(1)), (10, 40));
}
