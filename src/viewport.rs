//! Mapping pointer pixels to board squares and side-panel controls.
//!
//! The board's top-left corner sits at the window origin; tile `(0, 0)` is
//! square a1, files grow to the right and ranks grow downwards. The side
//! panel right of the board holds the reset button in its first tile row and
//! the four promotion slots in its fourth.
use vstd::prelude::*;
use crate::square::Square;

verus! {

/// Width and height of one tile, in pixels.
pub const TILE_SIZE: i64 = 45;

/// Number of tiles along each side of the board.
pub const BOARD_TILES: i64 = 8;

/// Tile column where the side panel begins.
pub const PANEL_COLUMN: i64 = 8;

/// Number of tile columns taken by the reset button.
pub const RESET_COLUMNS: i64 = 2;

/// Tile row of the reset button.
pub const RESET_ROW: i64 = 0;

/// Tile row of the promotion slots.
pub const PROMOTION_ROW: i64 = 3;

/// Number of promotion slots.
pub const PROMOTION_SLOTS: i64 = 4;

/// What a pixel of the window shows.
#[derive(Clone, Copy, Debug, PartialEq, Eq, Structural)]
pub enum Region {
    Board(Square),
    ResetButton,
    /// A promotion slot, numbered 0..4 from the left.
    PromotionSlot(u8),
    Outside,
}

/// The region under a pixel, by tile geometry alone.
pub open spec fn region_of(x: int, y: int) -> Region {
    if x < 0 || y < 0 {
        Region::Outside
    } else {
        let tx = x / TILE_SIZE as int;
        let ty = y / TILE_SIZE as int;
        if tx < BOARD_TILES && ty < BOARD_TILES {
            Region::Board(Square { file: (tx + 1) as u8, rank: (ty + 1) as u8 })
        } else if PANEL_COLUMN <= tx < PANEL_COLUMN + RESET_COLUMNS && ty == RESET_ROW {
            Region::ResetButton
        } else if PANEL_COLUMN <= tx < PANEL_COLUMN + PROMOTION_SLOTS && ty == PROMOTION_ROW {
            Region::PromotionSlot((tx - PANEL_COLUMN) as u8)
        } else {
            Region::Outside
        }
    }
}

/// Pixel at the top-left corner of a square's tile.
pub open spec fn tile_origin_of(sq: Square) -> (int, int) {
    ((sq.file - 1) * TILE_SIZE, (sq.rank - 1) * TILE_SIZE)
}

/// Pixel at the centre of a square's tile.
pub open spec fn tile_center_of(sq: Square) -> (int, int) {
    (tile_origin_of(sq).0 + TILE_SIZE / 2, tile_origin_of(sq).1 + TILE_SIZE / 2)
}

/// Pixel at the top-left corner of promotion slot `i`.
pub open spec fn slot_origin_of(i: int) -> (int, int) {
    ((PANEL_COLUMN + i) * TILE_SIZE, PROMOTION_ROW * TILE_SIZE)
}

/// Stateless conversion between pixels and board regions.
pub struct ViewportMapper;

impl ViewportMapper {
    /// The region under pixel (`x`, `y`); pixels off the board and off the
    /// panel's controls are `Outside`.
    pub fn classify(x: i64, y: i64) -> (r: Region)
        ensures
            r == region_of(x as int, y as int),
            r matches Region::Board(sq) ==> sq.wf(),
            r matches Region::PromotionSlot(i) ==> i < PROMOTION_SLOTS,
    {
        if x < 0 || y < 0 {
            return Region::Outside;
        }
        let tx = x / TILE_SIZE;
        let ty = y / TILE_SIZE;
        if tx < BOARD_TILES && ty < BOARD_TILES {
            Region::Board(Square { file: (tx + 1) as u8, rank: (ty + 1) as u8 })
        } else if PANEL_COLUMN <= tx && tx < PANEL_COLUMN + RESET_COLUMNS && ty == RESET_ROW {
            Region::ResetButton
        } else if PANEL_COLUMN <= tx && tx < PANEL_COLUMN + PROMOTION_SLOTS && ty
            == PROMOTION_ROW {
            Region::PromotionSlot((tx - PANEL_COLUMN) as u8)
        } else {
            Region::Outside
        }
    }

    /// Pixel at the top-left corner of a square's tile, where its piece is drawn.
    pub fn tile_origin(sq: Square) -> (r: (i64, i64))
        requires
            sq.wf(),
        ensures
            r.0 as int == tile_origin_of(sq).0,
            r.1 as int == tile_origin_of(sq).1,
    {
        ((sq.file as i64 - 1) * TILE_SIZE, (sq.rank as i64 - 1) * TILE_SIZE)
    }

    /// Pixel at the centre of a square's tile.
    pub fn tile_center(sq: Square) -> (r: (i64, i64))
        requires
            sq.wf(),
        ensures
            r.0 as int == tile_center_of(sq).0,
            r.1 as int == tile_center_of(sq).1,
    {
        let o = ViewportMapper::tile_origin(sq);
        (o.0 + TILE_SIZE / 2, o.1 + TILE_SIZE / 2)
    }

    /// Pixel at the top-left corner of promotion slot `i`.
    pub fn slot_origin(i: u8) -> (r: (i64, i64))
        requires
            i < PROMOTION_SLOTS,
        ensures
            r.0 as int == slot_origin_of(i as int).0,
            r.1 as int == slot_origin_of(i as int).1,
    {
        ((PANEL_COLUMN + i as i64) * TILE_SIZE, PROMOTION_ROW * TILE_SIZE)
    }
}

/// Every pixel of a square's tile, its centre among them, classifies as that
/// square.
pub proof fn lemma_classify_tile(sq: Square, dx: int, dy: int)
    requires
        sq.wf(),
        0 <= dx < TILE_SIZE,
        0 <= dy < TILE_SIZE,
    ensures
        region_of(tile_origin_of(sq).0 + dx, tile_origin_of(sq).1 + dy) == Region::Board(sq),
{
    let x = tile_origin_of(sq).0 + dx;
    let y = tile_origin_of(sq).1 + dy;
    assert(x / TILE_SIZE as int == sq.file - 1) by (nonlinear_arith)
        requires
            x == (sq.file - 1) * 45 + dx,
            0 <= dx < 45,
            1 <= sq.file <= 8,
    ;
    assert(y / TILE_SIZE as int == sq.rank - 1) by (nonlinear_arith)
        requires
            y == (sq.rank - 1) * 45 + dy,
            0 <= dy < 45,
            1 <= sq.rank <= 8,
    ;
}

/// The centre pixel of a square's tile classifies as that square.
pub proof fn lemma_classify_tile_center(sq: Square)
    requires
        sq.wf(),
    ensures
        region_of(tile_center_of(sq).0, tile_center_of(sq).1) == Region::Board(sq),
{
    lemma_classify_tile(sq, TILE_SIZE / 2, TILE_SIZE / 2);
}

/// Every pixel of promotion slot `i`'s tile classifies as that slot.
pub proof fn lemma_classify_slot(i: int, dx: int, dy: int)
    requires
        0 <= i < PROMOTION_SLOTS,
        0 <= dx < TILE_SIZE,
        0 <= dy < TILE_SIZE,
    ensures
        region_of(slot_origin_of(i).0 + dx, slot_origin_of(i).1 + dy) == Region::PromotionSlot(
            i as u8,
        ),
{
    let x = slot_origin_of(i).0 + dx;
    let y = slot_origin_of(i).1 + dy;
    assert(x / TILE_SIZE as int == PANEL_COLUMN + i) by (nonlinear_arith)
        requires
            x == (8 + i) * 45 + dx,
            0 <= dx < 45,
            0 <= i < 4,
    ;
    assert(y / TILE_SIZE as int == PROMOTION_ROW) by (nonlinear_arith)
        requires
            y == 3 * 45 + dy,
            0 <= dy < 45,
    ;
}

} // verus!
