//! The title menu: a main screen with game mode, rotation system, hi
//! scores, controls, (once unlocked) the debug scene, and start; the hi
//! score tables with one tab per mode and rotation system; the controls
//! screen.

use vstd::prelude::*;
use crate::data::{GameConfig, GameMode, HiScoreEntry, Kind};
use crate::hiscores::{slot_index, spec_slot_index};

verus! {

/// Which menu screen is shown.
#[derive(Debug, Clone, Copy, PartialEq, Eq, Structural)]
pub enum MenuScreen {
    Main,
    HiScores,
    Controls,
}

/// The menu keys that went down this frame.
#[derive(Debug, Clone, Copy, PartialEq, Eq, Structural)]
pub struct MenuInput {
    pub up: bool,
    pub down: bool,
    pub left: bool,
    pub right: bool,
    pub confirm: bool,
    pub back: bool,
    pub unlock_debug: bool,
}

impl Default for MenuInput {
    fn default() -> (i: MenuInput)
        ensures
            i == (MenuInput {
                up: false,
                down: false,
                left: false,
                right: false,
                confirm: false,
                back: false,
                unlock_debug: false,
            }),
    {
        MenuInput {
            up: false,
            down: false,
            left: false,
            right: false,
            confirm: false,
            back: false,
            unlock_debug: false,
        }
    }
}

/// What a menu frame asks of the application.
#[derive(Debug, Clone, Copy, PartialEq, Eq, Structural)]
pub enum MenuResult {
    Stay,
    StartGame { mode: GameMode, rotation: Kind },
    EnterDebug,
}

/// The menu's state as plain values.
pub struct MenuView {
    pub screen: MenuScreen,
    pub cursor: int,
    pub game_mode: GameMode,
    pub rotation: Kind,
    pub hi_scores_tab: int,
    pub debug_unlocked: bool,
    pub hi_scores_data: Seq<Seq<HiScoreEntry>>,
}

/// The menu.
pub struct Menu {
    screen: MenuScreen,
    cursor: usize,
    game_mode: GameMode,
    rotation: Kind,
    hi_scores_tab: usize,
    debug_unlocked: bool,
    hi_scores_data: [Vec<HiScoreEntry>; 4],
}

impl View for Menu {
    type V = MenuView;

    closed spec fn view(&self) -> MenuView {
        MenuView {
            screen: self.screen,
            cursor: self.cursor as int,
            game_mode: self.game_mode,
            rotation: self.rotation,
            hi_scores_tab: self.hi_scores_tab as int,
            debug_unlocked: self.debug_unlocked,
            hi_scores_data: Seq::new(4, |i: int| self.hi_scores_data@[i]@),
        }
    }
}

/// The last cursor position of the main screen: start, after the debug
/// entry once it is unlocked.
pub open spec fn cursor_max(debug_unlocked: bool) -> int {
    if debug_unlocked {
        5
    } else {
        4
    }
}

/// The cursor and the hi score tab stay within their screens.
pub open spec fn menu_wf(m: MenuView) -> bool {
    &&& 0 <= m.cursor <= cursor_max(m.debug_unlocked)
    &&& 0 <= m.hi_scores_tab <= 3
    &&& m.hi_scores_data.len() == 4
}

/// The other game mode.
pub open spec fn toggled_mode(mode: GameMode) -> GameMode {
    match mode {
        GameMode::Master => GameMode::TwentyG,
        GameMode::TwentyG => GameMode::Master,
    }
}

/// The other rotation system.
pub open spec fn toggled_rotation(kind: Kind) -> Kind {
    match kind {
        Kind::Ars => Kind::Srs,
        Kind::Srs => Kind::Ars,
    }
}

/// One frame of the main screen: the debug entry unlocks, the cursor moves
/// (up first, clamped to the items), then the item under the cursor reacts:
/// left or right toggles the mode or the rotation system; confirm opens the
/// hi scores at the tab of the current settings (with the stored tables),
/// opens the controls, enters the debug scene, or starts the game.
pub open spec fn main_step(
    m: MenuView,
    input: MenuInput,
    tables: Seq<Seq<HiScoreEntry>>,
) -> (MenuView, MenuResult) {
    let unlocked = m.debug_unlocked || input.unlock_debug;
    let c1 = if input.up && m.cursor > 0 {
        m.cursor - 1
    } else {
        m.cursor
    };
    let c2 = if input.down {
        if c1 + 1 < cursor_max(unlocked) {
            c1 + 1
        } else {
            cursor_max(unlocked)
        }
    } else {
        c1
    };
    let m1 = MenuView { debug_unlocked: unlocked, cursor: c2, ..m };
    let sideways = input.left || input.right;
    if c2 == 0 && sideways {
        (MenuView { game_mode: toggled_mode(m.game_mode), ..m1 }, MenuResult::Stay)
    } else if c2 == 1 && sideways {
        (MenuView { rotation: toggled_rotation(m.rotation), ..m1 }, MenuResult::Stay)
    } else if c2 == 2 && input.confirm {
        (
            MenuView {
                hi_scores_tab: spec_slot_index(m.game_mode, m.rotation),
                hi_scores_data: tables,
                screen: MenuScreen::HiScores,
                ..m1
            },
            MenuResult::Stay,
        )
    } else if c2 == 3 && input.confirm {
        (MenuView { screen: MenuScreen::Controls, ..m1 }, MenuResult::Stay)
    } else if c2 == 4 && input.confirm && unlocked {
        (m1, MenuResult::EnterDebug)
    } else if (c2 == 4 && input.confirm && !unlocked) || (c2 == 5 && input.confirm) {
        (m1, MenuResult::StartGame { mode: m.game_mode, rotation: m.rotation })
    } else {
        (m1, MenuResult::Stay)
    }
}

/// One frame of the menu.
pub open spec fn menu_step(
    m: MenuView,
    input: MenuInput,
    tables: Seq<Seq<HiScoreEntry>>,
) -> (MenuView, MenuResult) {
    match m.screen {
        MenuScreen::Main => main_step(m, input, tables),
        MenuScreen::HiScores => if input.back {
            (MenuView { screen: MenuScreen::Main, ..m }, MenuResult::Stay)
        } else {
            let t1 = if input.left && m.hi_scores_tab > 0 {
                m.hi_scores_tab - 1
            } else {
                m.hi_scores_tab
            };
            let t2 = if input.right {
                if t1 + 1 < 3 {
                    t1 + 1
                } else {
                    3
                }
            } else {
                t1
            };
            (MenuView { hi_scores_tab: t2, ..m }, MenuResult::Stay)
        },
        MenuScreen::Controls => if input.back {
            (MenuView { screen: MenuScreen::Main, ..m }, MenuResult::Stay)
        } else {
            (m, MenuResult::Stay)
        },
    }
}

impl Menu {
    /// The menu on its main screen, cursor on the game mode, with the
    /// settings of `config`, the debug entry locked and no tables loaded.
    pub fn new(config: GameConfig) -> (m: Menu)
        ensures
            m@.screen == MenuScreen::Main,
            m@.cursor == 0,
            m@.game_mode == config.game_mode,
            m@.rotation == config.rotation,
            m@.hi_scores_tab == 0,
            !m@.debug_unlocked,
            m@.hi_scores_data =~= Seq::new(4, |i: int| Seq::<HiScoreEntry>::empty()),
            menu_wf(m@),
    {
        let m = Menu {
            screen: MenuScreen::Main,
            cursor: 0,
            game_mode: config.game_mode,
            rotation: config.rotation,
            hi_scores_tab: 0,
            debug_unlocked: false,
            hi_scores_data: [Vec::new(), Vec::new(), Vec::new(), Vec::new()],
        };
        assert(m@.hi_scores_data =~= Seq::new(4, |i: int| Seq::<HiScoreEntry>::empty()));
        m
    }

    /// The screen shown.
    pub fn screen(&self) -> (s: MenuScreen)
        ensures
            s == self@.screen,
    {
        self.screen
    }

    /// The main-screen item under the cursor.
    pub fn cursor(&self) -> (c: usize)
        ensures
            c == self@.cursor,
    {
        self.cursor
    }

    /// The selected game mode.
    pub fn game_mode(&self) -> (g: GameMode)
        ensures
            g == self@.game_mode,
    {
        self.game_mode
    }

    /// The selected rotation system.
    pub fn rotation(&self) -> (k: Kind)
        ensures
            k == self@.rotation,
    {
        self.rotation
    }

    /// The hi score tab shown.
    pub fn hi_scores_tab(&self) -> (t: usize)
        ensures
            t == self@.hi_scores_tab,
    {
        self.hi_scores_tab
    }

    /// Whether the debug entry has been unlocked.
    pub fn debug_unlocked(&self) -> (u: bool)
        ensures
            u == self@.debug_unlocked,
    {
        self.debug_unlocked
    }

    /// The hi score tables loaded when the hi scores were opened.
    pub fn hi_scores_data(&self) -> (d: &[Vec<HiScoreEntry>; 4])
        ensures
            forall|i: int| 0 <= i < 4 ==> (#[trigger] d@[i])@ == self@.hi_scores_data[i],
    {
        &self.hi_scores_data
    }

    /// Returns to the main screen.
    pub fn back_to_main(&mut self)
        ensures
            final(self)@ == (MenuView { screen: MenuScreen::Main, ..old(self)@ }),
    {
        self.screen = MenuScreen::Main;
    }

    /// One frame of the menu on `input`; `tables` are the four stored hi
    /// score tables (in slot order), copied in when the hi scores open.
    pub fn tick(&mut self, input: &MenuInput, tables: &[Vec<HiScoreEntry>; 4]) -> (r: MenuResult)
        requires
            menu_wf(old(self)@),
        ensures
            (final(self)@, r) == menu_step(old(self)@, *input, Seq::new(4, |i: int| tables@[i]@)),
            menu_wf(final(self)@),
    {
        let ghost t = Seq::new(4, |i: int| tables@[i]@);
        let ghost m0 = self@;
        match self.screen {
            MenuScreen::Main => self.tick_main(input, tables),
            MenuScreen::HiScores => {
                if input.back {
                    self.screen = MenuScreen::Main;
                } else {
                    if input.left && self.hi_scores_tab > 0 {
                        self.hi_scores_tab = self.hi_scores_tab - 1;
                    }
                    if input.right {
                        self.hi_scores_tab = if self.hi_scores_tab + 1 < 3 {
                            self.hi_scores_tab + 1
                        } else {
                            3
                        };
                    }
                }
                assert(self@.hi_scores_data =~= m0.hi_scores_data);
                MenuResult::Stay
            },
            MenuScreen::Controls => {
                if input.back {
                    self.screen = MenuScreen::Main;
                }
                assert(self@.hi_scores_data =~= m0.hi_scores_data);
                MenuResult::Stay
            },
        }
    }

    fn tick_main(&mut self, input: &MenuInput, tables: &[Vec<HiScoreEntry>; 4]) -> (r: MenuResult)
        requires
            menu_wf(old(self)@),
            old(self)@.screen == MenuScreen::Main,
        ensures
            (final(self)@, r) == main_step(old(self)@, *input, Seq::new(4, |i: int| tables@[i]@)),
            menu_wf(final(self)@),
    {
        let ghost m0 = self@;
        if input.unlock_debug {
            self.debug_unlocked = true;
        }
        if input.up && self.cursor > 0 {
            self.cursor = self.cursor - 1;
        }
        let max: usize = if self.debug_unlocked {
            5
        } else {
            4
        };
        if input.down {
            self.cursor = if self.cursor + 1 < max {
                self.cursor + 1
            } else {
                max
            };
        }
        let sideways = input.left || input.right;
        let mut result = MenuResult::Stay;
        if self.cursor == 0 && sideways {
            self.game_mode = match self.game_mode {
                GameMode::Master => GameMode::TwentyG,
                GameMode::TwentyG => GameMode::Master,
            };
        } else if self.cursor == 1 && sideways {
            self.rotation = match self.rotation {
                Kind::Ars => Kind::Srs,
                Kind::Srs => Kind::Ars,
            };
        } else if self.cursor == 2 && input.confirm {
            self.hi_scores_tab = slot_index(self.game_mode, self.rotation);
            self.hi_scores_data = [
                copy_entries(&tables[0]),
                copy_entries(&tables[1]),
                copy_entries(&tables[2]),
                copy_entries(&tables[3]),
            ];
            self.screen = MenuScreen::HiScores;
            assert(self@.hi_scores_data =~= Seq::new(4, |i: int| tables@[i]@));
        } else if self.cursor == 3 && input.confirm {
            self.screen = MenuScreen::Controls;
        } else if self.cursor == 4 && input.confirm {
            if self.debug_unlocked {
                result = MenuResult::EnterDebug;
            } else {
                result = MenuResult::StartGame { mode: self.game_mode, rotation: self.rotation };
            }
        } else if self.cursor == 5 && input.confirm {
            result = MenuResult::StartGame { mode: self.game_mode, rotation: self.rotation };
        }
        proof {
            if !(self.cursor == 2 && input.confirm) {
                assert(self@.hi_scores_data =~= m0.hi_scores_data);
            }
        }
        result
    }
}

/// A copy of a hi score table.
pub fn copy_entries(v: &Vec<HiScoreEntry>) -> (c: Vec<HiScoreEntry>)
    ensures
        c@ == v@,
{
    let mut c: Vec<HiScoreEntry> = Vec::new();
    let mut i: usize = 0;
    while i < v.len()
        invariant
            i <= v@.len(),
            c@ == v@.take(i as int),
        decreases v@.len() - i,
    {
        c.push(v[i]);
        assert(c@ =~= v@.take(i + 1));
        i = i + 1;
    }
    assert(c@ =~= v@);
    c
}


/// Toggling the game mode or the rotation system twice gives back the
/// setting.
pub proof fn law_toggles_undo(mode: GameMode, kind: Kind)
    ensures
        toggled_mode(toggled_mode(mode)) == mode,
        toggled_rotation(toggled_rotation(kind)) == kind,
{
}

/// Leaving a sub-screen with back returns to the main screen with the
/// cursor where it was.
pub proof fn law_back_keeps_cursor(m: MenuView, input: MenuInput, tables: Seq<Seq<HiScoreEntry>>)
    requires
        m.screen != MenuScreen::Main,
        input.back,
    ensures
        menu_step(m, input, tables).0.screen == MenuScreen::Main,
        menu_step(m, input, tables).0.cursor == m.cursor,
        menu_step(m, input, tables).1 == MenuResult::Stay,
{
}

} // verus!
