//! Per-side choice of the piece a promoting pawn becomes.
use vstd::prelude::*;
use crate::square::{PieceKind, Side};

verus! {

/// A piece a pawn may promote to.
#[derive(Clone, Copy, Debug, PartialEq, Eq, Hash, Structural)]
pub enum PromotionPiece {
    Queen,
    Knight,
    Rook,
    Bishop,
}

/// The piece offered in promotion slot `i`: queen, knight, rook, bishop
/// from the left.
pub open spec fn piece_in_slot(i: int) -> PromotionPiece {
    if i == 0 {
        PromotionPiece::Queen
    } else if i == 1 {
        PromotionPiece::Knight
    } else if i == 2 {
        PromotionPiece::Rook
    } else {
        PromotionPiece::Bishop
    }
}

/// The slot in which `p` is offered.
pub open spec fn slot_of(p: PromotionPiece) -> int {
    match p {
        PromotionPiece::Queen => 0,
        PromotionPiece::Knight => 1,
        PromotionPiece::Rook => 2,
        PromotionPiece::Bishop => 3,
    }
}

/// `p` as a piece of `side`.
pub open spec fn kind_for(p: PromotionPiece, side: Side) -> PieceKind {
    match p {
        PromotionPiece::Queen => PieceKind::Queen(side),
        PromotionPiece::Knight => PieceKind::Knight(side),
        PromotionPiece::Rook => PieceKind::Rook(side),
        PromotionPiece::Bishop => PieceKind::Bishop(side),
    }
}

impl PromotionPiece {
    /// The piece offered in promotion slot `i`.
    pub fn from_slot(i: u8) -> (r: PromotionPiece)
        requires
            i < 4,
        ensures
            r == piece_in_slot(i as int),
            slot_of(r) == i as int,
    {
        if i == 0 {
            PromotionPiece::Queen
        } else if i == 1 {
            PromotionPiece::Knight
        } else if i == 2 {
            PromotionPiece::Rook
        } else {
            PromotionPiece::Bishop
        }
    }

    /// The slot in which this piece is offered.
    pub fn slot(self) -> (r: u8)
        ensures
            r as int == slot_of(self),
            r < 4,
    {
        match self {
            PromotionPiece::Queen => 0,
            PromotionPiece::Knight => 1,
            PromotionPiece::Rook => 2,
            PromotionPiece::Bishop => 3,
        }
    }

    /// This piece as a piece of `side`.
    pub fn kind(self, side: Side) -> (r: PieceKind)
        ensures
            r == kind_for(self, side),
            crate::square::side_of(r) == side,
    {
        match self {
            PromotionPiece::Queen => PieceKind::Queen(side),
            PromotionPiece::Knight => PieceKind::Knight(side),
            PromotionPiece::Rook => PieceKind::Rook(side),
            PromotionPiece::Bishop => PieceKind::Bishop(side),
        }
    }
}

/// The promotion preference of each side.
#[derive(Clone, Copy, Debug, PartialEq, Eq, Structural)]
pub struct PromotionSelector {
    pub white: PromotionPiece,
    pub black: PromotionPiece,
}

/// The preference of `side`.
pub open spec fn choice_of(p: PromotionSelector, side: Side) -> PromotionPiece {
    match side {
        Side::White => p.white,
        Side::Black => p.black,
    }
}

/// `p` with the preference of `side` set to `piece`.
pub open spec fn with_choice(
    p: PromotionSelector,
    side: Side,
    piece: PromotionPiece,
) -> PromotionSelector {
    match side {
        Side::White => PromotionSelector { white: piece, ..p },
        Side::Black => PromotionSelector { black: piece, ..p },
    }
}

/// The preference both sides start with.
pub open spec fn default_selector() -> PromotionSelector {
    PromotionSelector { white: PromotionPiece::Queen, black: PromotionPiece::Queen }
}

impl PromotionSelector {
    /// Both sides prefer a queen.
    pub fn new() -> (r: PromotionSelector)
        ensures
            r == default_selector(),
    {
        PromotionSelector { white: PromotionPiece::Queen, black: PromotionPiece::Queen }
    }

    /// The preference of `side`.
    pub fn choice(&self, side: Side) -> (r: PromotionPiece)
        ensures
            r == choice_of(*self, side),
    {
        match side {
            Side::White => self.white,
            Side::Black => self.black,
        }
    }

    /// The piece a pawn of `side` becomes when it promotes.
    pub fn preference(&self, side: Side) -> (r: PieceKind)
        ensures
            r == kind_for(choice_of(*self, side), side),
    {
        self.choice(side).kind(side)
    }

    /// Sets the preference of `side`; the other side's is kept.
    pub fn set(&mut self, side: Side, piece: PromotionPiece)
        ensures
            *final(self) == with_choice(*old(self), side, piece),
    {
        match side {
            Side::White => self.white = piece,
            Side::Black => self.black = piece,
        }
    }

    /// Both sides prefer a queen again.
    pub fn reset(&mut self)
        ensures
            *final(self) == default_selector(),
    {
        self.white = PromotionPiece::Queen;
        self.black = PromotionPiece::Queen;
    }
}

/// A preference never names a king or a pawn, and it belongs to the side
/// that holds it.
pub proof fn lemma_preference_is_promotable(p: PromotionSelector, side: Side)
    ensures
        !(kind_for(choice_of(p, side), side) is King),
        !(kind_for(choice_of(p, side), side) is Pawn),
        crate::square::side_of(kind_for(choice_of(p, side), side)) == side,
{
}

} // verus!
