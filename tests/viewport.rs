use chess_gui::square::Square;
use chess_gui::viewport::{Region, ViewportMapper};

#[test]
fn tile_centres_classify_as_their_squares() {
    for file in 1..=8u8 {
        for rank in 1..=8u8 {
            let s = Square::new(file, rank).unwrap();
            let (x, y) = ViewportMapper::tile_center(s);
            assert_eq!(ViewportMapper::classify(x, y), Region::Board(s));
        }
    }
}

#[test]
fn tile_edges() {
    assert_eq!(ViewportMapper::classify(0, 0), Region::Board(Square { file: 1, rank: 1 }));
    assert_eq!(ViewportMapper::classify(44, 44), Region::Board(Square { file: 1, rank: 1 }));
    assert_eq!(ViewportMapper::classify(45, 44), Region::Board(Square { file: 2, rank: 1 }));
    assert_eq!(ViewportMapper::classify(359, 359), Region::Board(Square { file: 8, rank: 8 }));
    assert_eq!(ViewportMapper::tile_center(Square { file: 5, rank: 2 }), (202, 67));
    assert_eq!(ViewportMapper::tile_origin(Square { file: 5, rank: 2 }), (180, 45));
}

#[test]
fn panel_regions() {
    assert_eq!(ViewportMapper::classify(360, 0), Region::ResetButton);
    assert_eq!(ViewportMapper::classify(449, 44), Region::ResetButton);
    assert_eq!(ViewportMapper::classify(450, 10), Region::Outside);
    assert_eq!(ViewportMapper::classify(360, 45), Region::Outside);
    assert_eq!(ViewportMapper::classify(360, 135), Region::PromotionSlot(0));
    assert_eq!(ViewportMapper::classify(405, 150), Region::PromotionSlot(1));
    assert_eq!(ViewportMapper::classify(450, 179), Region::PromotionSlot(2));
    assert_eq!(ViewportMapper::classify(539, 170), Region::PromotionSlot(3));
    assert_eq!(ViewportMapper::classify(540, 170), Region::Outside);
    assert_eq!(ViewportMapper::slot_origin(2), (450, 135));
}

#[test]
fn out_of_bounds_pixels() {
    assert_eq!(ViewportMapper::classify(-1, 10), Region::Outside);
    assert_eq!(ViewportMapper::classify(10, -1), Region::Outside);
    assert_eq!(ViewportMapper::classify(-44, -44), Region::Outside);
    assert_eq!(ViewportMapper::classify(10, 360), Region::Outside);
    assert_eq!(ViewportMapper::classify(900, 100), Region::Outside);
}
