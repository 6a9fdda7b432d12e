//! What the controller knows of the rules engine's game: plain values that
//! the host reads from the engine whenever the engine's game changes.
use vstd::prelude::*;
use crate::square::{PieceKind, Side, Square, side_of};

verus! {

/// Number of squares on the board.
pub const SQUARES: usize = 64;

/// The game status the rules engine reports.
#[derive(Clone, Copy, Debug, PartialEq, Eq, Structural)]
pub enum GameStatus {
    Ongoing,
    Check,
    Checkmate,
    Stalemate,
}

/// The rules engine's game as plain values.
///
/// `board` and `destinations` are tables of the 64 squares in the order of
/// [`Square::index`]: what stands on each square, and the squares the piece
/// there may legally move to (empty for an empty square or a piece with no
/// legal move).
#[derive(Debug)]
pub struct EngineView {
    pub board: Vec<Option<PieceKind>>,
    pub to_move: Side,
    pub status: GameStatus,
    pub destinations: Vec<Vec<Square>>,
}

impl EngineView {
    /// Both tables cover the 64 squares.
    pub open spec fn wf(&self) -> bool {
        self.board@.len() == SQUARES && self.destinations@.len() == SQUARES
    }

    /// What stands on `sq`.
    pub open spec fn piece_at(&self, sq: Square) -> Option<PieceKind> {
        self.board@[sq.spec_index()]
    }

    /// The legal destinations of the piece on `sq`.
    pub open spec fn destinations_of(&self, sq: Square) -> Seq<Square> {
        self.destinations@[sq.spec_index()]@
    }

    /// `sq` holds a piece of the side to move.
    pub open spec fn owns(&self, sq: Square) -> bool {
        self.piece_at(sq) matches Some(p) && side_of(p) == self.to_move
    }

    /// Moving the piece on `from` to `to` promotes a pawn: a white pawn
    /// reaching rank 8 or a black pawn reaching rank 1.
    pub open spec fn promotes(&self, from: Square, to: Square) -> bool {
        match self.piece_at(from) {
            Some(PieceKind::Pawn(Side::White)) => to.rank == 8,
            Some(PieceKind::Pawn(Side::Black)) => to.rank == 1,
            _ => false,
        }
    }

    /// A view with 64 empty squares and no legal moves.
    pub fn empty(to_move: Side, status: GameStatus) -> (r: EngineView)
        ensures
            r.wf(),
            r.to_move == to_move,
            r.status == status,
            forall|i: int| 0 <= i < SQUARES ==> r.board@[i] is None,
            forall|i: int| 0 <= i < SQUARES ==> r.destinations@[i]@.len() == 0,
    {
        let mut board: Vec<Option<PieceKind>> = Vec::new();
        let mut destinations: Vec<Vec<Square>> = Vec::new();
        let mut i: usize = 0;
        while i < SQUARES
            invariant
                i <= SQUARES,
                board@.len() == i,
                destinations@.len() == i,
                forall|j: int| 0 <= j < i ==> board@[j] is None,
                forall|j: int| 0 <= j < i ==> destinations@[j]@.len() == 0,
            decreases SQUARES - i,
        {
            board.push(None);
            destinations.push(Vec::new());
            i = i + 1;
        }
        EngineView { board, to_move, status, destinations }
    }

    /// What stands on `sq`.
    pub fn piece(&self, sq: Square) -> (r: Option<PieceKind>)
        requires
            self.wf(),
            sq.wf(),
        ensures
            r == self.piece_at(sq),
    {
        self.board[sq.index()]
    }

    /// Puts `piece` on `sq`.
    pub fn set_piece(&mut self, sq: Square, piece: Option<PieceKind>)
        requires
            old(self).wf(),
            sq.wf(),
        ensures
            final(self).wf(),
            final(self).board@ == old(self).board@.update(sq.spec_index(), piece),
            final(self).destinations@ == old(self).destinations@,
            final(self).to_move == old(self).to_move,
            final(self).status == old(self).status,
    {
        let i = sq.index();
        self.board.set(i, piece);
    }

    /// Sets the legal destinations of the piece on `sq`.
    pub fn set_destinations(&mut self, sq: Square, dests: Vec<Square>)
        requires
            old(self).wf(),
            sq.wf(),
        ensures
            final(self).wf(),
            final(self).destinations@ == old(self).destinations@.update(sq.spec_index(), dests),
            final(self).board@ == old(self).board@,
            final(self).to_move == old(self).to_move,
            final(self).status == old(self).status,
    {
        let i = sq.index();
        self.destinations.set(i, dests);
    }

    /// `sq` holds a piece of the side to move.
    pub fn is_owned(&self, sq: Square) -> (r: bool)
        requires
            self.wf(),
            sq.wf(),
        ensures
            r == self.owns(sq),
    {
        match self.piece(sq) {
            Some(p) => p.side() == self.to_move,
            None => false,
        }
    }

    /// Moving the piece on `from` to `to` promotes a pawn.
    pub fn is_promotion(&self, from: Square, to: Square) -> (r: bool)
        requires
            self.wf(),
            from.wf(),
        ensures
            r == self.promotes(from, to),
    {
        match self.piece(from) {
            Some(PieceKind::Pawn(Side::White)) => to.rank == 8,
            Some(PieceKind::Pawn(Side::Black)) => to.rank == 1,
            _ => false,
        }
    }

    /// A copy of the legal destinations of the piece on `sq`.
    pub fn destinations_for(&self, sq: Square) -> (r: Vec<Square>)
        requires
            self.wf(),
            sq.wf(),
        ensures
            r@ == self.destinations_of(sq),
    {
        copy_squares(&self.destinations[sq.index()])
    }
}

/// An element-by-element copy of `v`.
pub fn copy_squares(v: &Vec<Square>) -> (r: Vec<Square>)
    ensures
        r@ == v@,
{
    let mut r: Vec<Square> = Vec::new();
    let mut i: usize = 0;
    while i < v.len()
        invariant
            i <= v@.len(),
            r@ == v@.subrange(0, i as int),
        decreases v@.len() - i,
    {
        r.push(v[i]);
        i = i + 1;
        assert(r@ =~= v@.subrange(0, i as int));
    }
    assert(r@ =~= v@);
    r
}

/// An element-by-element copy of a board table.
pub fn copy_pieces(v: &Vec<Option<PieceKind>>) -> (r: Vec<Option<PieceKind>>)
    ensures
        r@ == v@,
{
    let mut r: Vec<Option<PieceKind>> = Vec::new();
    let mut i: usize = 0;
    while i < v.len()
        invariant
            i <= v@.len(),
            r@ == v@.subrange(0, i as int),
        decreases v@.len() - i,
    {
        r.push(v[i]);
        i = i + 1;
        assert(r@ =~= v@.subrange(0, i as int));
    }
    assert(r@ =~= v@);
    r
}

/// `t` is one of the squares of `v`.
pub fn contains_square(v: &Vec<Square>, t: Square) -> (r: bool)
    ensures
        r == v@.contains(t),
{
    let mut i: usize = 0;
    while i < v.len()
        invariant
            i <= v@.len(),
            forall|j: int| 0 <= j < i ==> v@[j] != t,
        decreases v@.len() - i,
    {
        if v[i] == t {
            assert(v@[i as int] == t);
            return true;
        }
        i = i + 1;
    }
    false
}

} // verus!
