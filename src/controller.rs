//! The board controller: pointer events in, selection, promotion and clock
//! state plus commands for the rules engine out.
//!
//! The controller never talks to the rules engine itself. A click that
//! completes a move yields a [`Command::Move`]; the host applies it to the
//! engine and reports back through [`BoardController::finish_move`] with
//! the engine's new [`EngineView`].
use vstd::prelude::*;
use crate::clock::{
    ClockManager,
    INITIAL_ALLOTMENT_MS,
    expired,
    format_clock,
    reading_of,
    reading_text,
    ticked,
    timeout_winner_of,
};
use crate::position::{EngineView, GameStatus, copy_pieces, copy_squares};
use crate::promotion::{
    PromotionPiece,
    PromotionSelector,
    choice_of,
    default_selector,
    kind_for,
    piece_in_slot,
    with_choice,
};
use crate::selection::SelectionState;
use crate::square::{PieceKind, Side, Square, other_side};
use crate::viewport::{Region, ViewportMapper, region_of};

verus! {

/// Which pointer button was released.
#[derive(Clone, Copy, Debug, PartialEq, Eq, Structural)]
pub enum Button {
    Primary,
    Secondary,
    Other,
}

/// A move for the rules engine. When `promotion` is set, the engine is to
/// be told that piece as the mover's promotion choice before the move.
#[derive(Clone, Copy, Debug, PartialEq, Eq, Structural)]
pub struct MoveRequest {
    pub from: Square,
    pub to: Square,
    pub promotion: Option<PieceKind>,
}

/// What the host has to do with the rules engine after a click.
#[derive(Clone, Copy, Debug, PartialEq, Eq, Structural)]
pub enum Command {
    Nothing,
    Move(MoveRequest),
    /// Start a fresh game and hand its view to [`BoardController::reset`].
    NewGame,
}

/// The rules engine refused a move.
#[derive(Clone, Copy, Debug, PartialEq, Eq, Structural)]
pub enum MoveError {
    InvalidMove,
}

/// How a board tile is drawn.
#[derive(Clone, Copy, Debug, PartialEq, Eq, Structural)]
pub enum TileShade {
    Selected,
    Destination,
    Light,
    Dark,
}

/// Everything a renderer needs for one frame.
#[derive(Debug)]
pub struct Snapshot {
    /// What stands on each square, in the order of [`Square::index`].
    pub board: Vec<Option<PieceKind>>,
    pub to_move: Side,
    pub status: GameStatus,
    pub selected: Option<Square>,
    pub highlighted: Vec<Square>,
    pub white_promotion: PieceKind,
    pub black_promotion: PieceKind,
    /// The promotion slot holding the preference of the side to move.
    pub promotion_slot: u8,
    pub white_clock: String,
    pub black_clock: String,
    /// The winner by checkmate: the side that is not to move.
    pub checkmate_winner: Option<Side>,
    /// The winner on time: the side whose clock did not run out.
    pub timeout_winner: Option<Side>,
}

/// The winner by checkmate, if the game is over by checkmate.
pub open spec fn checkmate_winner_of(status: GameStatus, to_move: Side) -> Option<Side> {
    if status == GameStatus::Checkmate {
        Some(other_side(to_move))
    } else {
        None
    }
}

/// Shade of the tile of `sq` for a selection.
pub open spec fn shade_of(selected: Option<Square>, highlighted: Seq<Square>, sq: Square) -> TileShade {
    if selected == Some(sq) {
        TileShade::Selected
    } else if highlighted.contains(sq) {
        TileShade::Destination
    } else if (sq.file + sq.rank) % 2 == 0 {
        TileShade::Light
    } else {
        TileShade::Dark
    }
}

/// Owns the selection, the promotion preferences and the clocks, and
/// mirrors the rules engine's game.
pub struct BoardController {
    position: EngineView,
    selection: SelectionState,
    promotion: PromotionSelector,
    clocks: ClockManager,
}

impl BoardController {
    /// The mirrored game.
    pub closed spec fn position(&self) -> EngineView {
        self.position
    }

    /// The selected square.
    pub closed spec fn selected(&self) -> Option<Square> {
        self.selection.selected
    }

    /// The squares offered as destinations of the selected piece.
    pub closed spec fn highlighted(&self) -> Seq<Square> {
        self.selection.highlighted@
    }

    /// The promotion preferences.
    pub closed spec fn promotion(&self) -> PromotionSelector {
        self.promotion
    }

    /// The clocks.
    pub closed spec fn clocks(&self) -> ClockManager {
        self.clocks
    }

    /// The mirrored game covers the board, nothing is highlighted without a
    /// selection, and the highlights are exactly the engine's destinations
    /// of the selected square.
    pub open spec fn wf(&self) -> bool {
        &&& self.position().wf()
        &&& self.selected() is None ==> self.highlighted().len() == 0
        &&& self.selected() matches Some(s) ==> s.wf() && self.highlighted()
            == self.position().destinations_of(s)
    }

    /// Nothing selected and nothing highlighted.
    pub open spec fn is_idle(&self) -> bool {
        self.selected() is None && self.highlighted().len() == 0
    }

    /// A click on `t` completes a move of the selected piece.
    pub open spec fn moves_to(&self, t: Square) -> bool {
        self.selected() is Some && self.highlighted().contains(t)
    }

    /// The request that moves the piece on `from` to `to`.
    pub open spec fn requested_move(&self, from: Square, to: Square) -> MoveRequest {
        let side = self.position().to_move;
        MoveRequest {
            from,
            to,
            promotion: if self.position().promotes(from, to) {
                Some(kind_for(choice_of(self.promotion(), side), side))
            } else {
                None
            },
        }
    }

    /// What submitting the move from `from` to `to` asks of the engine:
    /// nothing once a clock has run out.
    pub open spec fn submitted(&self, from: Square, to: Square) -> Option<MoveRequest> {
        if expired(self.clocks()) {
            None
        } else {
            Some(self.requested_move(from, to))
        }
    }

    /// The selected square after a click.
    pub open spec fn next_selected(&self, x: int, y: int, button: Button) -> Option<Square> {
        match button {
            Button::Secondary => None,
            Button::Other => self.selected(),
            Button::Primary => match region_of(x, y) {
                Region::Board(t) => if self.moves_to(t) {
                    if expired(self.clocks()) {
                        self.selected()
                    } else {
                        None
                    }
                } else if self.position().owns(t) {
                    Some(t)
                } else {
                    self.selected()
                },
                _ => self.selected(),
            },
        }
    }

    /// The highlighted squares after a click.
    pub open spec fn next_highlighted(&self, x: int, y: int, button: Button) -> Seq<Square> {
        match button {
            Button::Secondary => Seq::empty(),
            Button::Other => self.highlighted(),
            Button::Primary => match region_of(x, y) {
                Region::Board(t) => if self.moves_to(t) {
                    if expired(self.clocks()) {
                        self.highlighted()
                    } else {
                        Seq::empty()
                    }
                } else if self.position().owns(t) {
                    self.position().destinations_of(t)
                } else {
                    self.highlighted()
                },
                _ => self.highlighted(),
            },
        }
    }

    /// The promotion preferences after a click: a promotion slot sets the
    /// preference of the side to move.
    pub open spec fn next_promotion(&self, x: int, y: int, button: Button) -> PromotionSelector {
        match (button, region_of(x, y)) {
            (Button::Primary, Region::PromotionSlot(i)) => with_choice(
                self.promotion(),
                self.position().to_move,
                piece_in_slot(i as int),
            ),
            _ => self.promotion(),
        }
    }

    /// What the host is asked to do after a click.
    pub open spec fn click_command(&self, x: int, y: int, button: Button) -> Command {
        match (button, region_of(x, y)) {
            (Button::Primary, Region::Board(t)) => if self.moves_to(t) {
                match self.submitted(self.selected()->0, t) {
                    Some(m) => Command::Move(m),
                    None => Command::Nothing,
                }
            } else {
                Command::Nothing
            },
            (Button::Primary, Region::ResetButton) => Command::NewGame,
            _ => Command::Nothing,
        }
    }

    /// A controller for the game `view`, with nothing selected, queens
    /// preferred and full clocks.
    pub fn new(view: EngineView) -> (r: BoardController)
        requires
            view.wf(),
        ensures
            r.wf(),
            r.position() == view,
            r.is_idle(),
            r.promotion() == default_selector(),
            r.clocks().white_ms == INITIAL_ALLOTMENT_MS,
            r.clocks().black_ms == INITIAL_ALLOTMENT_MS,
    {
        BoardController {
            position: view,
            selection: SelectionState::new(),
            promotion: PromotionSelector::new(),
            clocks: ClockManager::new(),
        }
    }

    /// The side to move.
    pub fn to_move(&self) -> (r: Side)
        ensures
            r == self.position().to_move,
    {
        self.position.to_move
    }

    /// The selected square.
    pub fn selected_square(&self) -> (r: Option<Square>)
        ensures
            r == self.selected(),
    {
        self.selection.selected
    }

    /// A copy of the highlighted squares.
    pub fn highlighted_squares(&self) -> (r: Vec<Square>)
        ensures
            r@ == self.highlighted(),
    {
        self.selection.highlighted_squares()
    }

    /// The piece a pawn of `side` becomes when it promotes.
    pub fn promotion_preference(&self, side: Side) -> (r: PieceKind)
        ensures
            r == kind_for(choice_of(self.promotion(), side), side),
    {
        self.promotion.preference(side)
    }

    /// Remaining time of `side`, in milliseconds.
    pub fn remaining_ms(&self, side: Side) -> (r: u64)
        ensures
            r == crate::clock::remaining_of(self.clocks(), side),
    {
        self.clocks.remaining(side)
    }

    /// The move request for moving the piece on `from` to `to`, or `None`
    /// once a clock has run out. A promoting move carries the mover's
    /// promotion preference.
    pub fn submit_move(&self, from: Square, to: Square) -> (r: Option<MoveRequest>)
        requires
            self.wf(),
            from.wf(),
        ensures
            r == self.submitted(from, to),
    {
        if self.clocks.is_expired() {
            return None;
        }
        let side = self.position.to_move;
        let promotion = if self.position.is_promotion(from, to) {
            Some(self.promotion.preference(side))
        } else {
            None
        };
        Some(MoveRequest { from, to, promotion })
    }

    /// Handles a released pointer button at pixel (`x`, `y`).
    ///
    /// A primary click on a highlighted square asks for that move and drops
    /// the selection (nothing happens once a clock has run out); on a piece
    /// of the side to move it selects that piece and highlights its legal
    /// destinations; on any other square it does nothing. A primary click on
    /// a promotion slot sets the preference of the side to move, one on the
    /// reset button asks for a new game. A secondary click drops the
    /// selection.
    pub fn handle_click(&mut self, x: i64, y: i64, button: Button) -> (r: Command)
        requires
            old(self).wf(),
        ensures
            final(self).wf(),
            final(self).position() == old(self).position(),
            final(self).clocks() == old(self).clocks(),
            final(self).selected() == old(self).next_selected(x as int, y as int, button),
            final(self).highlighted() == old(self).next_highlighted(x as int, y as int, button),
            final(self).promotion() == old(self).next_promotion(x as int, y as int, button),
            r == old(self).click_command(x as int, y as int, button),
    {
        match button {
            Button::Secondary => {
                self.selection.clear();
                Command::Nothing
            },
            Button::Other => Command::Nothing,
            Button::Primary => match ViewportMapper::classify(x, y) {
                Region::Board(t) => self.click_square(t),
                Region::ResetButton => Command::NewGame,
                Region::PromotionSlot(i) => {
                    let side = self.position.to_move;
                    self.promotion.set(side, PromotionPiece::from_slot(i));
                    Command::Nothing
                },
                Region::Outside => Command::Nothing,
            },
        }
    }

    fn click_square(&mut self, t: Square) -> (r: Command)
        requires
            old(self).wf(),
            t.wf(),
        ensures
            final(self).wf(),
            final(self).position() == old(self).position(),
            final(self).clocks() == old(self).clocks(),
            final(self).promotion() == old(self).promotion(),
            final(self).selected() == (if old(self).moves_to(t) {
                if expired(old(self).clocks()) {
                    old(self).selected()
                } else {
                    None
                }
            } else if old(self).position().owns(t) {
                Some(t)
            } else {
                old(self).selected()
            }),
            final(self).highlighted() == (if old(self).moves_to(t) {
                if expired(old(self).clocks()) {
                    old(self).highlighted()
                } else {
                    Seq::empty()
                }
            } else if old(self).position().owns(t) {
                old(self).position().destinations_of(t)
            } else {
                old(self).highlighted()
            }),
            r == (if old(self).moves_to(t) {
                match old(self).submitted(old(self).selected()->0, t) {
                    Some(m) => Command::Move(m),
                    None => Command::Nothing,
                }
            } else {
                Command::Nothing
            }),
    {
        match self.selection.selected {
            Some(src) => {
                if self.selection.is_highlighted(t) {
                    return match self.submit_move(src, t) {
                        Some(m) => {
                            self.selection.clear();
                            Command::Move(m)
                        },
                        None => Command::Nothing,
                    };
                }
            },
            None => {},
        }
        if self.position.is_owned(t) {
            let dests = self.position.destinations_for(t);
            self.selection.select(t, dests);
        }
        Command::Nothing
    }

    /// Takes the engine's answer to a [`Command::Move`]: the new game when
    /// it applied the move, or its refusal. Either way the selection is
    /// dropped; a refusal leaves the mirrored game as it was.
    pub fn finish_move(&mut self, outcome: Result<EngineView, MoveError>) -> (r: Result<
        (),
        MoveError,
    >)
        requires
            old(self).wf(),
            outcome matches Ok(v) ==> v.wf(),
        ensures
            final(self).wf(),
            final(self).is_idle(),
            final(self).promotion() == old(self).promotion(),
            final(self).clocks() == old(self).clocks(),
            outcome matches Ok(v) ==> final(self).position() == v && r is Ok,
            outcome matches Err(e) ==> final(self).position() == old(self).position() && r
                == Err::<(), MoveError>(e),
    {
        self.selection.clear();
        match outcome {
            Ok(v) => {
                self.position = v;
                Ok(())
            },
            Err(e) => Err(e),
        }
    }

    /// Advances the clock of the side to move by `dt_ms` milliseconds.
    pub fn tick(&mut self, dt_ms: u64)
        requires
            old(self).wf(),
        ensures
            final(self).wf(),
            final(self).clocks() == ticked(old(self).clocks(), old(self).position().to_move, dt_ms as int),
            final(self).position() == old(self).position(),
            final(self).selected() == old(self).selected(),
            final(self).highlighted() == old(self).highlighted(),
            final(self).promotion() == old(self).promotion(),
    {
        let side = self.position.to_move;
        self.clocks.tick(side, dt_ms);
    }

    /// Starts over with the fresh game `fresh`: nothing selected, queens
    /// preferred, full clocks.
    pub fn reset(&mut self, fresh: EngineView)
        requires
            old(self).wf(),
            fresh.wf(),
        ensures
            final(self).wf(),
            final(self).position() == fresh,
            final(self).is_idle(),
            final(self).promotion() == default_selector(),
            final(self).clocks().white_ms == INITIAL_ALLOTMENT_MS,
            final(self).clocks().black_ms == INITIAL_ALLOTMENT_MS,
    {
        self.position = fresh;
        self.selection.clear();
        self.promotion.reset();
        self.clocks.reset();
    }

    /// How the tile of `sq` is drawn.
    pub fn shade(&self, sq: Square) -> (r: TileShade)
        requires
            self.wf(),
        ensures
            r == shade_of(self.selected(), self.highlighted(), sq),
    {
        if self.selection.selected == Some(sq) {
            TileShade::Selected
        } else if self.selection.is_highlighted(sq) {
            TileShade::Destination
        } else if (sq.file as u16 + sq.rank as u16) % 2 == 0 {
            TileShade::Light
        } else {
            TileShade::Dark
        }
    }

    /// What the renderer draws this frame.
    pub fn snapshot(&self) -> (r: Snapshot)
        requires
            self.wf(),
        ensures
            r.board@ == self.position().board@,
            r.to_move == self.position().to_move,
            r.status == self.position().status,
            r.selected == self.selected(),
            r.highlighted@ == self.highlighted(),
            r.white_promotion == kind_for(choice_of(self.promotion(), Side::White), Side::White),
            r.black_promotion == kind_for(choice_of(self.promotion(), Side::Black), Side::Black),
            r.promotion_slot as int == crate::promotion::slot_of(
                choice_of(self.promotion(), self.position().to_move),
            ),
            r.white_clock@ == reading_text(reading_of(self.clocks().white_ms as int)),
            r.black_clock@ == reading_text(reading_of(self.clocks().black_ms as int)),
            r.checkmate_winner == checkmate_winner_of(
                self.position().status,
                self.position().to_move,
            ),
            r.timeout_winner == timeout_winner_of(self.clocks()),
    {
        let to_move = self.position.to_move;
        let status = self.position.status;
        let checkmate_winner = if status == GameStatus::Checkmate {
            Some(to_move.opponent())
        } else {
            None
        };
        Snapshot {
            board: copy_pieces(&self.position.board),
            to_move,
            status,
            selected: self.selection.selected,
            highlighted: copy_squares(&self.selection.highlighted),
            white_promotion: self.promotion.preference(Side::White),
            black_promotion: self.promotion.preference(Side::Black),
            promotion_slot: self.promotion.choice(to_move).slot(),
            white_clock: format_clock(self.clocks.white_ms),
            black_clock: format_clock(self.clocks.black_ms),
            checkmate_winner,
            timeout_winner: self.clocks.timeout_winner(),
        }
    }
}

/// Selecting a piece of the side to move selects exactly that square and
/// highlights exactly the engine's legal destinations for it (none if the
/// engine reports none). A click that completes a move of the current
/// selection is a move instead, so the clicked square is not one of its
/// highlights.
pub proof fn lemma_select_sets_destinations(c: BoardController, x: int, y: int, t: Square)
    requires
        c.wf(),
        region_of(x, y) == Region::Board(t),
        c.position().owns(t),
        !c.moves_to(t),
    ensures
        c.next_selected(x, y, Button::Primary) == Some(t),
        c.next_highlighted(x, y, Button::Primary) == c.position().destinations_of(t),
        c.click_command(x, y, Button::Primary) == Command::Nothing,
{
}

/// With a piece selected, a primary click on a square that is not
/// highlighted leaves the selection and the highlights as they were, unless
/// the square holds a piece of the side to move, which is then selected.
pub proof fn lemma_click_off_highlights(c: BoardController, x: int, y: int, t: Square)
    requires
        c.wf(),
        c.selected() is Some,
        region_of(x, y) == Region::Board(t),
        !c.highlighted().contains(t),
    ensures
        c.click_command(x, y, Button::Primary) == Command::Nothing,
        !c.position().owns(t) ==> c.next_selected(x, y, Button::Primary) == c.selected()
            && c.next_highlighted(x, y, Button::Primary) == c.highlighted(),
        c.position().owns(t) ==> c.next_selected(x, y, Button::Primary) == Some(t)
            && c.next_highlighted(x, y, Button::Primary) == c.position().destinations_of(t),
{
}

/// While the clocks run, a primary click on a highlighted square asks the
/// engine for exactly one move, from the selected square to the clicked
/// one, and leaves nothing selected or highlighted.
pub proof fn lemma_click_highlight_moves(c: BoardController, x: int, y: int, t: Square)
    requires
        c.wf(),
        c.selected() is Some,
        region_of(x, y) == Region::Board(t),
        c.highlighted().contains(t),
        !expired(c.clocks()),
    ensures
        c.click_command(x, y, Button::Primary) == Command::Move(
            c.requested_move(c.selected()->0, t),
        ),
        c.next_selected(x, y, Button::Primary) is None,
        c.next_highlighted(x, y, Button::Primary) == Seq::<Square>::empty(),
{
}

/// A secondary click anywhere drops the selection and its highlights and
/// asks nothing of the engine.
pub proof fn lemma_secondary_click_clears(c: BoardController, x: int, y: int)
    ensures
        c.next_selected(x, y, Button::Secondary) is None,
        c.next_highlighted(x, y, Button::Secondary) == Seq::<Square>::empty(),
        c.click_command(x, y, Button::Secondary) == Command::Nothing,
{
}

/// Once a clock has run out, ticks change no clock, no move is submitted,
/// and no click asks the engine for a move.
pub proof fn lemma_expired_clock_freezes_play(
    c: BoardController,
    dt: int,
    from: Square,
    to: Square,
    x: int,
    y: int,
    button: Button,
)
    requires
        dt >= 0,
        expired(c.clocks()),
    ensures
        ticked(c.clocks(), c.position().to_move, dt) == c.clocks(),
        c.submitted(from, to) is None,
        !(c.click_command(x, y, button) is Move),
{
}

/// A promotion slot click sets the preference of the side to move to the
/// slot's piece, keeps the other side's, and leaves the selection alone.
pub proof fn lemma_promotion_click(c: BoardController, x: int, y: int, i: u8)
    requires
        region_of(x, y) == Region::PromotionSlot(i),
    ensures
        choice_of(c.next_promotion(x, y, Button::Primary), c.position().to_move) == piece_in_slot(
            i as int,
        ),
        choice_of(c.next_promotion(x, y, Button::Primary), other_side(c.position().to_move))
            == choice_of(c.promotion(), other_side(c.position().to_move)),
        c.next_selected(x, y, Button::Primary) == c.selected(),
        c.next_highlighted(x, y, Button::Primary) == c.highlighted(),
        c.click_command(x, y, Button::Primary) == Command::Nothing,
{
}

} // verus!
