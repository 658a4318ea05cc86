use fetris::app_state::{leave_debug, AppState};
use fetris::data::{GameConfig, GameEvent, GameMode, Kind, PieceKind, BOARD_ROWS};
use fetris::debug::{debug_line_clear, debug_tick, enter_debug, DebugSceneState};
use fetris::game::Game;
use fetris::menu::{Menu, MenuScreen};

fn debug_game() -> (Game, DebugSceneState) {
    let mut game = Game::new(GameMode::TwentyG, Kind::Srs, Some(0));
    let scene = enter_debug(&mut game);
    (game, scene)
}

#[test]
fn entering_debug_spawns_t_piece() {
    let (game, scene) = debug_game();
    assert_eq!(game.active.kind, PieceKind::T);
    assert_eq!(game.next, PieceKind::T);
    assert_eq!(scene, DebugSceneState::default());
}

#[test]
fn digit4_emits_fetris_line_clear() {
    let (mut game, mut scene) = debug_game();
    game.events.clear();
    debug_line_clear(&mut game, &mut scene, 4);
    assert_eq!(game.events, vec![GameEvent::LineClear { count: 4 }]);
    let bottom = BOARD_ROWS - 1;
    assert!(game.board[bottom][0].is_some());
}

#[test]
fn backspace_returns_to_menu() {
    let mut menu = Menu::new(GameConfig::default());
    assert_eq!(leave_debug(&mut menu), AppState::Menu);
    assert_eq!(menu.screen(), MenuScreen::Main);
}

#[test]
fn debug_cleanup_empties_marked_rows_after_three_ticks() {
    let (mut game, mut scene) = debug_game();
    debug_line_clear(&mut game, &mut scene, 2);
    assert_eq!(game.pending, vec![BOARD_ROWS - 2, BOARD_ROWS - 1]);
    debug_tick(&mut game, &mut scene);
    debug_tick(&mut game, &mut scene);
    assert!(game.board[BOARD_ROWS - 1][0].is_some());
    debug_tick(&mut game, &mut scene);
    assert!(game.pending.is_empty());
    assert!(game.board[BOARD_ROWS - 1].iter().all(|c| c.is_none()));
    assert!(game.board[BOARD_ROWS - 2].iter().all(|c| c.is_none()));
}

#[test]
fn debug_line_clear_waits_for_cleanup() {
    let (mut game, mut scene) = debug_game();
    debug_line_clear(&mut game, &mut scene, 1);
    let events_before = game.events.clone();
    debug_line_clear(&mut game, &mut scene, 3);
    assert_eq!(game.events, events_before);
    assert_eq!(game.pending, vec![BOARD_ROWS - 1]);
}
