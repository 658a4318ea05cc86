//! The debug scene: a test bench that shows the HUD at preset scores and
//! plays line-clear effects on demand, using the same game state as play.

use vstd::prelude::*;
use crate::board::{board_model, row_full};
use crate::data::{GameEvent, GameMode, Kind, Piece, PieceKind, PiecePhase, BOARD_COLS, BOARD_ROWS};
use crate::game::{Game, GameProgress};
use crate::judge::{Judge, JudgeView};
use crate::data::Grade;

verus! {

/// Which end-of-game text the debug scene shows.
#[derive(Debug, Clone, Copy, PartialEq, Eq, Structural)]
pub enum DebugStateOverlay {
    Off,
    Ready,
    GameOver,
    Won,
}

/// The debug scene's own state.
#[derive(Debug, Clone, Copy, PartialEq, Eq, Structural)]
pub struct DebugSceneState {
    pub hud_preset: usize,
    pub state_overlay: DebugStateOverlay,
    pub state_overlay_ticks_left: u32,
    pub line_clear_cleanup_ticks_left: u32,
}

impl Default for DebugSceneState {
    fn default() -> (d: DebugSceneState)
        ensures
            d == (DebugSceneState {
                hud_preset: 0,
                state_overlay: DebugStateOverlay::Off,
                state_overlay_ticks_left: 0,
                line_clear_cleanup_ticks_left: 0,
            }),
    {
        DebugSceneState {
            hud_preset: 0,
            state_overlay: DebugStateOverlay::Off,
            state_overlay_ticks_left: 0,
            line_clear_cleanup_ticks_left: 0,
        }
    }
}

/// The six HUD presets as (score, level): the lowest score of grades 9, 6,
/// 2, S1, S5 and S9, each with a matching level.
pub open spec fn spec_hud_preset(idx: int) -> (u32, u32) {
    let i = idx % 6;
    if i == 0 {
        (0, 0)
    } else if i == 1 {
        (1700, 250)
    } else if i == 2 {
        (8500, 500)
    } else if i == 3 {
        (16000, 700)
    } else if i == 4 {
        (52000, 850)
    } else {
        (120000, 999)
    }
}

/// The preset at `idx`, counting round the six.
pub fn hud_preset(idx: usize) -> (p: (u32, u32))
    ensures
        p == spec_hud_preset(idx as int),
{
    match idx % 6 {
        0 => (0, 0),
        1 => (1700, 250),
        2 => (8500, 500),
        3 => (16000, 700),
        4 => (52000, 850),
        _ => (120000, 999),
    }
}

/// Shows preset `idx`: a fresh judge holding the preset score, the preset
/// level with a tenth of it in lines and a second per level elapsed, and a
/// game that has not ended.
pub fn apply_hud_preset(judge: &mut Judge, progress: &mut GameProgress, idx: usize)
    ensures
        ({
            let (score, level) = spec_hud_preset(idx as int);
            &&& final(judge)@ == (JudgeView {
                combo: 1,
                score: score as int,
                best_grade: Grade::Nine,
                grade_ticks: 0,
            })
            &&& final(progress).level == level
            &&& final(progress).lines == level / 10
            &&& final(progress).ticks_elapsed == level as u64 * 60
            &&& !final(progress).game_over
            &&& !final(progress).game_won
            &&& final(progress).score_submitted == old(progress).score_submitted
        }),
{
    let (score, level) = hud_preset(idx);
    *judge = Judge::new();
    judge.set_score_for_debug(score);
    progress.level = level;
    progress.lines = level / 10;
    progress.ticks_elapsed = (level as u64) * 60;
    progress.game_over = false;
    progress.game_won = false;
}

/// Sets the game up as the debug scene: ARS in Master mode, a T piece as
/// both the active piece (column 4, row 8) and the next one, falling, the
/// first HUD preset, and a fresh scene.
pub fn enter_debug(game: &mut Game) -> (scene: DebugSceneState)
    ensures
        scene == DebugSceneState::default_spec(),
        final(game).rotation_kind == Kind::Ars,
        final(game).mode == GameMode::Master,
        final(game).next == PieceKind::T,
        final(game).phase == PiecePhase::Falling,
        final(game).active == (Piece { kind: PieceKind::T, rotation: 0, col: 4, row: 8 }),
        final(game).board == old(game).board,
        final(game).progress.level == 0,
        final(game).progress.lines == 0,
        final(game).progress.ticks_elapsed == 0,
        !final(game).progress.game_over,
        !final(game).progress.game_won,
        final(game).judge@ == (JudgeView { combo: 1, score: 0, best_grade: Grade::Nine, grade_ticks: 0 }),
{
    game.rotation_kind = Kind::Ars;
    game.mode = GameMode::Master;
    game.next = PieceKind::T;
    game.phase = PiecePhase::Falling;
    game.active = Piece { kind: PieceKind::T, rotation: 0, col: 4, row: 8 };
    apply_hud_preset(&mut game.judge, &mut game.progress, 0);
    DebugSceneState::default()
}

impl DebugSceneState {
    /// A fresh scene.
    pub open spec fn default_spec() -> DebugSceneState {
        DebugSceneState {
            hud_preset: 0,
            state_overlay: DebugStateOverlay::Off,
            state_overlay_ticks_left: 0,
            line_clear_cleanup_ticks_left: 0,
        }
    }
}

/// A line clear of `count` rows (1 to 4) on demand, unless the last one is
/// still being cleaned up: the bottom `count` rows fill with T cells and
/// are marked for clearing, the line-clear event is raised, and cleanup
/// starts three ticks later.
pub fn debug_line_clear(game: &mut Game, scene: &mut DebugSceneState, count: u32)
    requires
        1 <= count <= 4,
    ensures
        old(scene).line_clear_cleanup_ticks_left > 0 ==> *final(game) == *old(game) && *final(scene)
            == *old(scene),
        old(scene).line_clear_cleanup_ticks_left == 0 ==> {
            &&& final(scene).line_clear_cleanup_ticks_left == 3
            &&& final(game)@.pending =~= Seq::new(
                count as nat,
                |i: int| (BOARD_ROWS - count + i) as usize,
            )
            &&& final(game)@.events == old(game)@.events.push(GameEvent::LineClear { count })
            &&& forall|r: int| BOARD_ROWS - count <= r < BOARD_ROWS ==> row_full(final(game)@.board, r)
            &&& forall|r: int, c: int|
                0 <= r < BOARD_ROWS - count && 0 <= c < BOARD_COLS ==> final(game)@.board[r][c]
                    == old(game)@.board[r][c]
        },
{
    if scene.line_clear_cleanup_ticks_left > 0 {
        return;
    }
    let n = count as usize;
    let first = BOARD_ROWS - n;
    let ghost g0 = game.board;
    let ghost b0 = board_model(g0);
    let mut rows: Vec<usize> = Vec::new();
    let mut r = first;
    while r < BOARD_ROWS
        invariant
            first == BOARD_ROWS - n,
            b0 == board_model(g0),
            game.events@ == old(game).events@,
            1 <= n <= 4,
            first <= r <= BOARD_ROWS,
            rows@ =~= Seq::new((r - first) as nat, |i: int| (first + i) as usize),
            forall|rr: int| first <= rr < r ==> row_full(board_model(game.board), rr),
            forall|rr: int, c: int|
                0 <= rr < first && 0 <= c < BOARD_COLS ==> board_model(game.board)[rr][c] == b0[rr][c],
        decreases BOARD_ROWS - r,
    {
        let line: [Option<PieceKind>; BOARD_COLS] = [Some(PieceKind::T); BOARD_COLS];
        let ghost before = game.board;
        game.board[r] = line;
        proof {
            assert forall|rr: int| 0 <= rr < BOARD_ROWS && rr != r implies board_model(game.board)[rr]
                == board_model(before)[rr] by {
                assert(game.board@[rr] == before@[rr]);
            }
            assert forall|rr: int| first <= rr < r implies row_full(board_model(game.board), rr) by {
                assert(board_model(game.board)[rr] == board_model(before)[rr]);
                assert(row_full(board_model(before), rr));
                assert forall|c: int| 0 <= c < BOARD_COLS implies (#[trigger] crate::board::cell(
                    board_model(game.board),
                    rr,
                    c,
                )) is Some by {
                    assert(crate::board::cell(board_model(before), rr, c) is Some);
                }
            }
        }
        assert(row_full(board_model(game.board), r as int)) by {
            assert forall|c: int| 0 <= c < BOARD_COLS implies (#[trigger] crate::board::cell(
                board_model(game.board),
                r as int,
                c,
            )) is Some by {
                assert(line@[c] == Some(PieceKind::T));
            }
        }
        rows.push(r);
        r = r + 1;
    }
    game.pending = rows;
    assert(game@.pending =~= Seq::new(count as nat, |i: int| (BOARD_ROWS - count + i) as usize));
    game.events.push(GameEvent::LineClear { count });
    scene.line_clear_cleanup_ticks_left = 3;
}

/// One tick of the debug scene: the cleanup countdown runs, and when it
/// reaches zero the marked rows are emptied and unmarked.
pub fn debug_tick(game: &mut Game, scene: &mut DebugSceneState)
    ensures
        old(scene).line_clear_cleanup_ticks_left == 0 ==> *final(scene) == *old(scene),
        old(scene).line_clear_cleanup_ticks_left > 0 ==> final(scene).line_clear_cleanup_ticks_left
            == old(scene).line_clear_cleanup_ticks_left - 1,
        final(scene).line_clear_cleanup_ticks_left == 0 && old(scene).line_clear_cleanup_ticks_left
            == 1 ==> {
            &&& final(game)@.pending.len() == 0
            &&& forall|r: int, c: int|
                0 <= r < BOARD_ROWS && 0 <= c < BOARD_COLS ==> final(game)@.board[r][c] == (if old(
                    game,
                )@.pending.contains(r as usize) {
                    None
                } else {
                    old(game)@.board[r][c]
                })
        },
        !(final(scene).line_clear_cleanup_ticks_left == 0 && old(scene).line_clear_cleanup_ticks_left
            == 1) ==> *final(game) == *old(game),
{
    if scene.line_clear_cleanup_ticks_left > 0 {
        scene.line_clear_cleanup_ticks_left = scene.line_clear_cleanup_ticks_left - 1;
        if scene.line_clear_cleanup_ticks_left == 0 {
            let ghost g0 = game.board;
            let ghost b0 = board_model(g0);
            let ghost p = game.pending@;
            let mut r: usize = 0;
            while r < BOARD_ROWS
                invariant
                    r <= BOARD_ROWS,
                    b0 == board_model(g0),
                    game.pending@ == p,
                    forall|rr: int, c: int|
                        0 <= rr < BOARD_ROWS && 0 <= c < BOARD_COLS ==> board_model(game.board)[rr][c]
                            == (if rr < r && p.contains(rr as usize) {
                            None
                        } else {
                            b0[rr][c]
                        }),
                decreases BOARD_ROWS - r,
            {
                let ghost before = game.board;
                if crate::board::vec_contains(&game.pending, r) {
                    let empty: [Option<PieceKind>; BOARD_COLS] = [None; BOARD_COLS];
                    game.board[r] = empty;
                    proof {
                        assert forall|rr: int| 0 <= rr < BOARD_ROWS && rr != r implies board_model(
                            game.board,
                        )[rr] == board_model(before)[rr] by {
                            assert(game.board@[rr] == before@[rr]);
                        }
                        assert forall|c: int| 0 <= c < BOARD_COLS implies board_model(game.board)[r as int][c]
                            is None by {
                            assert(empty@[c] is None);
                        }
                    }
                }
                proof {
                    assert forall|rr: int, c: int|
                        0 <= rr < BOARD_ROWS && 0 <= c < BOARD_COLS implies board_model(game.board)[rr][c]
                            == (if rr < r + 1 && p.contains(rr as usize) {
                            None
                        } else {
                            b0[rr][c]
                        }) by {
                        if rr != r {
                            assert(board_model(game.board)[rr] == board_model(before)[rr]);
                        }
                    }
                }
                r = r + 1;
            }
            game.pending.clear();
        }
    }
}

} // verus!
