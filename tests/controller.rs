use chess_gui::controller::{BoardController, Button, Command, MoveError, MoveRequest, TileShade};
use chess_gui::position::{EngineView, GameStatus};
use chess_gui::square::{PieceKind, Side, Square};
use chess_gui::viewport::ViewportMapper;

fn sq(name: &str) -> Square {
    Square::from_algebraic(name).unwrap()
}

/// The standard starting position, with legal moves listed only for the
/// e2 pawn and the g1 knight.
fn start_view() -> EngineView {
    let mut v = EngineView::empty(Side::White, GameStatus::Ongoing);
    let back = [
        PieceKind::Rook as fn(Side) -> PieceKind,
        PieceKind::Knight,
        PieceKind::Bishop,
        PieceKind::Queen,
        PieceKind::King,
        PieceKind::Bishop,
        PieceKind::Knight,
        PieceKind::Rook,
    ];
    for file in 1..=8u8 {
        let make = back[(file - 1) as usize];
        v.set_piece(Square::new(file, 1).unwrap(), Some(make(Side::White)));
        v.set_piece(Square::new(file, 2).unwrap(), Some(PieceKind::Pawn(Side::White)));
        v.set_piece(Square::new(file, 7).unwrap(), Some(PieceKind::Pawn(Side::Black)));
        v.set_piece(Square::new(file, 8).unwrap(), Some(make(Side::Black)));
    }
    v.set_destinations(sq("e2"), vec![sq("e3"), sq("e4")]);
    v.set_destinations(sq("g1"), vec![sq("f3"), sq("h3")]);
    v
}

fn click(c: &mut BoardController, s: Square, button: Button) -> Command {
    let (x, y) = ViewportMapper::tile_center(s);
    c.handle_click(x, y, button)
}

#[test]
fn scenario_a_pawn_selected_and_moved() {
    let mut c = BoardController::new(start_view());
    assert_eq!(click(&mut c, sq("e2"), Button::Primary), Command::Nothing);
    assert_eq!(c.selected_square(), Some(sq("e2")));
    let hl = c.highlighted_squares();
    assert!(hl.contains(&sq("e3")));
    assert!(hl.contains(&sq("e4")));

    let cmd = click(&mut c, sq("e4"), Button::Primary);
    assert_eq!(
        cmd,
        Command::Move(MoveRequest { from: sq("e2"), to: sq("e4"), promotion: None })
    );
    assert_eq!(c.selected_square(), None);
    assert!(c.highlighted_squares().is_empty());

    // The engine applies the move and flips the side to move.
    let mut after = start_view();
    after.set_piece(sq("e2"), None);
    after.set_piece(sq("e4"), Some(PieceKind::Pawn(Side::White)));
    after.to_move = Side::Black;
    assert_eq!(c.finish_move(Ok(after)), Ok(()));
    assert_eq!(c.to_move(), Side::Black);
    let snap = c.snapshot();
    assert_eq!(snap.board[sq("e4").index()], Some(PieceKind::Pawn(Side::White)));
    assert_eq!(snap.board[sq("e2").index()], None);
    assert_eq!(snap.to_move, Side::Black);
}

#[test]
fn scenario_b_opponent_piece_is_not_selected() {
    let mut c = BoardController::new(start_view());
    assert_eq!(click(&mut c, sq("e7"), Button::Primary), Command::Nothing);
    assert_eq!(c.selected_square(), None);
    assert!(c.highlighted_squares().is_empty());
}

#[test]
fn scenario_c_timeout_blocks_moves() {
    let mut c = BoardController::new(start_view());
    click(&mut c, sq("e2"), Button::Primary);
    c.tick(599_999);
    assert_eq!(c.remaining_ms(Side::White), 1);
    c.tick(5_000);
    assert_eq!(c.remaining_ms(Side::White), 0);
    assert_eq!(c.remaining_ms(Side::Black), 600_000);
    assert_eq!(click(&mut c, sq("e4"), Button::Primary), Command::Nothing);
    assert_eq!(c.submit_move(sq("e2"), sq("e4")), None);
    let snap = c.snapshot();
    assert_eq!(snap.timeout_winner, Some(Side::Black));
    assert_eq!(snap.white_clock, "0:00:00");
    // A frozen clock stays frozen.
    c.tick(1_000);
    assert_eq!(c.remaining_ms(Side::White), 0);
    assert_eq!(c.remaining_ms(Side::Black), 600_000);
}

#[test]
fn scenario_d_knight_promotion() {
    let mut v = EngineView::empty(Side::White, GameStatus::Ongoing);
    v.set_piece(sq("a7"), Some(PieceKind::Pawn(Side::White)));
    v.set_piece(sq("e1"), Some(PieceKind::King(Side::White)));
    v.set_piece(sq("e8"), Some(PieceKind::King(Side::Black)));
    v.set_destinations(sq("a7"), vec![sq("a8")]);
    let mut c = BoardController::new(v);

    click(&mut c, sq("a7"), Button::Primary);
    let (x, y) = ViewportMapper::slot_origin(1);
    assert_eq!(c.handle_click(x + 5, y + 5, Button::Primary), Command::Nothing);
    assert_eq!(c.promotion_preference(Side::White), PieceKind::Knight(Side::White));
    assert_eq!(c.promotion_preference(Side::Black), PieceKind::Queen(Side::Black));
    assert_eq!(c.selected_square(), Some(sq("a7")));
    assert_eq!(c.highlighted_squares(), vec![sq("a8")]);

    let cmd = click(&mut c, sq("a8"), Button::Primary);
    assert_eq!(
        cmd,
        Command::Move(MoveRequest {
            from: sq("a7"),
            to: sq("a8"),
            promotion: Some(PieceKind::Knight(Side::White)),
        })
    );
}

#[test]
fn default_promotion_is_queen() {
    let mut v = EngineView::empty(Side::Black, GameStatus::Ongoing);
    v.set_piece(sq("h2"), Some(PieceKind::Pawn(Side::Black)));
    v.set_destinations(sq("h2"), vec![sq("h1")]);
    let mut c = BoardController::new(v);
    click(&mut c, sq("h2"), Button::Primary);
    assert_eq!(
        click(&mut c, sq("h1"), Button::Primary),
        Command::Move(MoveRequest {
            from: sq("h2"),
            to: sq("h1"),
            promotion: Some(PieceKind::Queen(Side::Black)),
        })
    );
}

#[test]
fn switching_selection_to_another_own_piece() {
    let mut c = BoardController::new(start_view());
    click(&mut c, sq("e2"), Button::Primary);
    click(&mut c, sq("g1"), Button::Primary);
    assert_eq!(c.selected_square(), Some(sq("g1")));
    assert_eq!(c.highlighted_squares(), vec![sq("f3"), sq("h3")]);
}

#[test]
fn own_piece_without_moves_highlights_nothing() {
    let mut c = BoardController::new(start_view());
    click(&mut c, sq("a1"), Button::Primary);
    assert_eq!(c.selected_square(), Some(sq("a1")));
    assert!(c.highlighted_squares().is_empty());
}

#[test]
fn click_on_empty_square_keeps_selection() {
    let mut c = BoardController::new(start_view());
    click(&mut c, sq("e2"), Button::Primary);
    assert_eq!(click(&mut c, sq("d5"), Button::Primary), Command::Nothing);
    assert_eq!(c.selected_square(), Some(sq("e2")));
    assert_eq!(c.highlighted_squares(), vec![sq("e3"), sq("e4")]);
}

#[test]
fn secondary_click_clears_selection() {
    let mut c = BoardController::new(start_view());
    click(&mut c, sq("e2"), Button::Primary);
    assert_eq!(c.handle_click(700, 300, Button::Secondary), Command::Nothing);
    assert_eq!(c.selected_square(), None);
    assert!(c.highlighted_squares().is_empty());
    // Also from the idle state.
    click(&mut c, sq("e4"), Button::Secondary);
    assert_eq!(c.selected_square(), None);
}

#[test]
fn other_button_changes_nothing() {
    let mut c = BoardController::new(start_view());
    click(&mut c, sq("e2"), Button::Primary);
    assert_eq!(click(&mut c, sq("e4"), Button::Other), Command::Nothing);
    assert_eq!(c.selected_square(), Some(sq("e2")));
}

#[test]
fn rejected_move_returns_to_idle() {
    let mut c = BoardController::new(start_view());
    click(&mut c, sq("e2"), Button::Primary);
    click(&mut c, sq("e4"), Button::Primary);
    assert_eq!(c.finish_move(Err(MoveError::InvalidMove)), Err(MoveError::InvalidMove));
    assert_eq!(c.selected_square(), None);
    assert_eq!(c.to_move(), Side::White);
    assert_eq!(c.snapshot().board[sq("e2").index()], Some(PieceKind::Pawn(Side::White)));
}

#[test]
fn reset_button_asks_for_new_game_and_reset_restores_defaults() {
    let mut c = BoardController::new(start_view());
    click(&mut c, sq("e2"), Button::Primary);
    let (x, y) = ViewportMapper::slot_origin(2);
    c.handle_click(x, y, Button::Primary);
    c.tick(30_000);
    assert_eq!(c.handle_click(8 * 45 + 3, 3, Button::Primary), Command::NewGame);
    assert_eq!(c.handle_click(10 * 45 - 1, 44, Button::Primary), Command::NewGame);
    c.reset(start_view());
    assert_eq!(c.selected_square(), None);
    assert!(c.highlighted_squares().is_empty());
    assert_eq!(c.remaining_ms(Side::White), 600_000);
    assert_eq!(c.remaining_ms(Side::Black), 600_000);
    assert_eq!(c.promotion_preference(Side::White), PieceKind::Queen(Side::White));
    assert_eq!(c.promotion_preference(Side::Black), PieceKind::Queen(Side::Black));
}

#[test]
fn tick_only_runs_the_clock_of_the_side_to_move() {
    let mut v = start_view();
    v.to_move = Side::Black;
    let mut c = BoardController::new(v);
    c.tick(1_500);
    assert_eq!(c.remaining_ms(Side::Black), 598_500);
    assert_eq!(c.remaining_ms(Side::White), 600_000);
    assert_eq!(c.snapshot().timeout_winner, None);
}

#[test]
fn checkmate_is_won_by_the_side_not_to_move() {
    let mut v = start_view();
    v.status = GameStatus::Checkmate;
    v.to_move = Side::Black;
    let c = BoardController::new(v);
    assert_eq!(c.snapshot().checkmate_winner, Some(Side::White));
    let c = BoardController::new(start_view());
    assert_eq!(c.snapshot().checkmate_winner, None);
}

#[test]
fn snapshot_reports_state() {
    let mut c = BoardController::new(start_view());
    click(&mut c, sq("e2"), Button::Primary);
    let (x, y) = ViewportMapper::slot_origin(3);
    c.handle_click(x, y, Button::Primary);
    c.tick(61_250);
    let s = c.snapshot();
    assert_eq!(s.selected, Some(sq("e2")));
    assert_eq!(s.highlighted, vec![sq("e3"), sq("e4")]);
    assert_eq!(s.white_promotion, PieceKind::Bishop(Side::White));
    assert_eq!(s.black_promotion, PieceKind::Queen(Side::Black));
    assert_eq!(s.promotion_slot, 3);
    assert_eq!(s.white_clock, "8:58:45");
    assert_eq!(s.black_clock, "10:00:00");
    assert_eq!(s.board.len(), 64);
    assert_eq!(s.status, GameStatus::Ongoing);
}

#[test]
fn tile_shades() {
    let mut c = BoardController::new(start_view());
    click(&mut c, sq("e2"), Button::Primary);
    assert_eq!(c.shade(sq("e2")), TileShade::Selected);
    assert_eq!(c.shade(sq("e4")), TileShade::Destination);
    assert_eq!(c.shade(sq("a1")), TileShade::Light);
    assert_eq!(c.shade(sq("b1")), TileShade::Dark);
}
