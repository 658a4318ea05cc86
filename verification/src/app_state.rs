//! The screens of the application and the rules for moving between them.

use vstd::prelude::*;
use crate::debug::DebugStateOverlay;
use crate::hud::{format_time, spec_format_time};
use crate::menu::{Menu, MenuResult, MenuScreen, MenuView};

verus! {

/// Where the application is.
#[derive(Debug, Clone, Copy, PartialEq, Eq, Hash, Structural)]
pub enum AppState {
    Menu,
    Ready,
    Playing,
    GameOver,
    Debug,
}

impl Default for AppState {
    fn default() -> (s: AppState)
        ensures
            s == AppState::Menu,
    {
        AppState::Menu
    }
}

/// Escape: on a menu sub-screen it returns to the main screen; on the main
/// screen, and anywhere outside the menu, it quits. Returns whether to quit.
pub fn on_escape(state: AppState, menu: &mut Menu) -> (quit: bool)
    ensures
        quit == (state != AppState::Menu || old(menu)@.screen == MenuScreen::Main),
        (state == AppState::Menu && old(menu)@.screen != MenuScreen::Main) ==> final(menu)@ == (MenuView {
            screen: MenuScreen::Main,
            ..old(menu)@
        }),
        !(state == AppState::Menu && old(menu)@.screen != MenuScreen::Main) ==> final(menu)@
            == old(menu)@,
{
    if state == AppState::Menu {
        if menu.screen() == MenuScreen::Main {
            true
        } else {
            menu.back_to_main();
            false
        }
    } else {
        true
    }
}

/// The keys every screen answers: M toggles the sound, Escape acts as
/// `on_escape`. Returns whether to quit.
pub fn handle_global_input(
    mute_pressed: bool,
    escape_pressed: bool,
    state: AppState,
    menu: &mut Menu,
    muted: &mut bool,
) -> (quit: bool)
    ensures
        *final(muted) == (if mute_pressed {
            !*old(muted)
        } else {
            *old(muted)
        }),
        quit == (escape_pressed && (state != AppState::Menu || old(menu)@.screen == MenuScreen::Main)),
        (escape_pressed && state == AppState::Menu && old(menu)@.screen != MenuScreen::Main)
            ==> final(menu)@ == (MenuView { screen: MenuScreen::Main, ..old(menu)@ }),
        !(escape_pressed && state == AppState::Menu && old(menu)@.screen != MenuScreen::Main)
            ==> final(menu)@ == old(menu)@,
{
    if mute_pressed {
        *muted = !*muted;
    }
    if escape_pressed {
        on_escape(state, menu)
    } else {
        false
    }
}

/// The state the menu's answer leads to: starting a game goes through the
/// ready screen, the debug entry opens the debug scene.
pub fn after_menu(result: MenuResult) -> (next: Option<AppState>)
    ensures
        next == match result {
            MenuResult::Stay => None::<AppState>,
            MenuResult::StartGame { .. } => Some(AppState::Ready),
            MenuResult::EnterDebug => Some(AppState::Debug),
        },
{
    match result {
        MenuResult::Stay => None,
        MenuResult::StartGame { .. } => Some(AppState::Ready),
        MenuResult::EnterDebug => Some(AppState::Debug),
    }
}

/// A game that ended while playing moves to the game-over screen.
pub fn game_over_check(state: AppState, game_ended: bool) -> (next: Option<AppState>)
    ensures
        next == (if game_ended && state == AppState::Playing {
            Some(AppState::GameOver)
        } else {
            None::<AppState>
        }),
{
    if game_ended && state == AppState::Playing {
        Some(AppState::GameOver)
    } else {
        None
    }
}

/// Space on the game-over screen returns to the menu.
pub fn return_to_menu_on_space(state: AppState, space: bool) -> (next: Option<AppState>)
    ensures
        next == (if space && state == AppState::GameOver {
            Some(AppState::Menu)
        } else {
            None::<AppState>
        }),
{
    if space && state == AppState::GameOver {
        Some(AppState::Menu)
    } else {
        None
    }
}

/// Leaving the debug scene (backspace) goes back to the menu's main screen.
pub fn leave_debug(menu: &mut Menu) -> (next: AppState)
    ensures
        next == AppState::Menu,
        final(menu)@ == (MenuView { screen: MenuScreen::Main, ..old(menu)@ }),
{
    menu.back_to_main();
    AppState::Menu
}

/// The lines of text shown over the board: "READY" before a game, "GAME
/// OVER" after a lost one, "LEVEL 999" and the time after a won one; in
/// the debug scene, whichever of these its overlay selects.
pub open spec fn spec_state_text(
    state: AppState,
    game_won: bool,
    overlay: DebugStateOverlay,
    ticks: nat,
) -> Seq<Seq<char>> {
    let ready = seq!['R', 'E', 'A', 'D', 'Y'];
    let over = seq!['G', 'A', 'M', 'E', ' ', 'O', 'V', 'E', 'R'];
    let won = seq![seq!['L', 'E', 'V', 'E', 'L', ' ', '9', '9', '9'], spec_format_time(ticks)];
    if state == AppState::Debug {
        match overlay {
            DebugStateOverlay::Off => Seq::empty(),
            DebugStateOverlay::Ready => seq![ready],
            DebugStateOverlay::GameOver => seq![over],
            DebugStateOverlay::Won => won,
        }
    } else if state == AppState::Ready {
        seq![ready]
    } else if state == AppState::GameOver && game_won {
        won
    } else if state == AppState::GameOver {
        seq![over]
    } else {
        Seq::empty()
    }
}

/// The lines of text shown over the board.
pub fn state_text(state: AppState, game_won: bool, overlay: DebugStateOverlay, ticks: u64) -> (lines: Vec<String>)
    ensures
        lines@.map_values(|s: String| s@) == spec_state_text(state, game_won, overlay, ticks as nat),
{
    proof {
        reveal_strlit("READY");
        reveal_strlit("GAME OVER");
        reveal_strlit("LEVEL 999");
    }
    let mut lines: Vec<String> = Vec::new();
    let which: u8 = if state == AppState::Debug {
        match overlay {
            DebugStateOverlay::Off => 0,
            DebugStateOverlay::Ready => 1,
            DebugStateOverlay::GameOver => 2,
            DebugStateOverlay::Won => 3,
        }
    } else if state == AppState::Ready {
        1
    } else if state == AppState::GameOver && game_won {
        3
    } else if state == AppState::GameOver {
        2
    } else {
        0
    };
    if which == 1 {
        let r = String::from_str("READY");
        assert(r@ =~= seq!['R', 'E', 'A', 'D', 'Y']);
        lines.push(r);
    } else if which == 2 {
        let o = String::from_str("GAME OVER");
        assert(o@ =~= seq!['G', 'A', 'M', 'E', ' ', 'O', 'V', 'E', 'R']);
        lines.push(o);
    } else if which == 3 {
        let l = String::from_str("LEVEL 999");
        assert(l@ =~= seq!['L', 'E', 'V', 'E', 'L', ' ', '9', '9', '9']);
        lines.push(l);
        lines.push(format_time(ticks));
    }
    assert(lines@.map_values(|s: String| s@) =~= spec_state_text(state, game_won, overlay, ticks as nat));
    lines
}

} // verus!
