use chess_gui::clock::{format_clock, ClockManager, ClockReading};
use chess_gui::promotion::{PromotionPiece, PromotionSelector};
use chess_gui::square::{PieceKind, Side, Square, SquareError, PIECE_KINDS};

#[test]
fn algebraic_round_trip() {
    for i in 0..64usize {
        let s = Square::from_index(i);
        assert_eq!(s.index(), i);
        let text = s.to_algebraic();
        assert_eq!(Square::from_algebraic(&text), Ok(s));
    }
    assert_eq!(Square { file: 1, rank: 1 }.to_algebraic(), "a1");
    assert_eq!(Square { file: 8, rank: 8 }.to_algebraic(), "h8");
    assert_eq!(Square { file: 5, rank: 4 }.to_algebraic(), "e4");
    assert_eq!(Square::from_algebraic("e2"), Ok(Square { file: 5, rank: 2 }));
}

#[test]
fn malformed_square_strings() {
    for bad in ["", "e", "e22", "i1", "a0", "a9", "E2", "2e", "é2"] {
        assert_eq!(Square::from_algebraic(bad), Err(SquareError::MalformedSquareString));
    }
}

#[test]
fn square_bounds() {
    assert_eq!(Square::new(0, 1), None);
    assert_eq!(Square::new(1, 9), None);
    assert_eq!(Square::new(8, 8), Some(Square { file: 8, rank: 8 }));
}

#[test]
fn piece_sides_and_table_slots() {
    assert_eq!(PieceKind::Knight(Side::Black).side(), Side::Black);
    assert_eq!(PieceKind::Pawn(Side::White).side(), Side::White);
    assert_eq!(PieceKind::King(Side::White).index(), 0);
    assert_eq!(PieceKind::Pawn(Side::Black).index(), 11);
    for i in 0..PIECE_KINDS {
        assert_eq!(PieceKind::from_index(i).index(), i);
    }
    assert_eq!(Side::White.opponent(), Side::Black);
}

#[test]
fn clock_readings() {
    assert_eq!(ClockReading::of(600_000), ClockReading { minutes: 10, seconds: 0, ticks: 0 });
    assert_eq!(ClockReading::of(61_500), ClockReading { minutes: 1, seconds: 1, ticks: 30 });
    assert_eq!(format_clock(600_000), "10:00:00");
    assert_eq!(format_clock(65_250), "1:05:15");
    assert_eq!(format_clock(9_050), "0:09:03");
    assert_eq!(format_clock(0), "0:00:00");
    assert_eq!(format_clock(999), "0:00:60");
}

#[test]
fn clock_ticks() {
    let mut c = ClockManager::new();
    c.tick(Side::White, 1_000);
    assert_eq!(c.remaining(Side::White), 599_000);
    assert_eq!(c.remaining(Side::Black), 600_000);
    c.tick(Side::Black, 700_000);
    assert_eq!(c.remaining(Side::Black), 0);
    assert!(c.is_expired());
    assert_eq!(c.timeout_winner(), Some(Side::White));
    c.tick(Side::White, 1_000);
    assert_eq!(c.remaining(Side::White), 599_000);
    c.reset();
    assert!(!c.is_expired());
    assert_eq!(c.remaining(Side::Black), 600_000);
}

#[test]
fn promotion_slots_and_preferences() {
    assert_eq!(PromotionPiece::from_slot(0), PromotionPiece::Queen);
    assert_eq!(PromotionPiece::from_slot(1), PromotionPiece::Knight);
    assert_eq!(PromotionPiece::from_slot(2), PromotionPiece::Rook);
    assert_eq!(PromotionPiece::from_slot(3), PromotionPiece::Bishop);
    assert_eq!(PromotionPiece::Rook.slot(), 2);
    let mut p = PromotionSelector::new();
    p.set(Side::Black, PromotionPiece::Rook);
    assert_eq!(p.preference(Side::Black), PieceKind::Rook(Side::Black));
    assert_eq!(p.preference(Side::White), PieceKind::Queen(Side::White));
    p.reset();
    assert_eq!(p.choice(Side::Black), PromotionPiece::Queen);
}
