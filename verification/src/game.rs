//! The game state machine. One call of `Game::tick` is one fixed-rate frame:
//! the tick counter, then the active-piece phase (rotation, sonic drop, soft
//! drop, DAS, gravity, lock delay), the line-clear delay, the spawn delay
//! (ARE, with initial rotation), and finally the judge.

use vstd::prelude::*;
use crate::board::{
    board_model, cell_free, compact_pending, compacted, coord_ok, empty_row, fits_at, full_rows,
    full_rows_below, is_row_empty, is_row_full, lemma_full_rows_below, model_shaped, offsets_in_box,
    row_empty, row_full,
    shift_ok, vec_contains, law_clearing_leaves_no_full_row,
};
use crate::constants::{
    gravity_g, spec_gravity_g, ARE_DAS_FROZEN_FRAMES, DAS_CHARGE, DAS_REPEAT, LINE_CLEAR_DELAY,
    LOCK_DELAY, SPAWN_DELAY_NORMAL, TWENTY_G,
};
use crate::data::{
    empty_board, grade_rank, spec_grade_of_score, BoardGrid, GameEvent, GameKey, GameMode, Grade, HorizDir,
    InputSnapshot, JudgeEvent,
    Kind, Piece, PieceKind, PiecePhase, RotationDirection, BOARD_COLS, BOARD_ROWS,
};
use crate::judge::{event_in_range, law_judge_never_loses_ground, spec_on_event, Judge, JudgeView};
use crate::hud::{next_level_barrier, spec_next_level_barrier};
use crate::randomizer::{after_pick, legal_draws, legal_pick, spec_pick, Randomizer, RandomizerView};
use crate::rotation_system::{
    cells_of, fits_with, lemma_tables_in_box, rotate_with, spec_kick_index, srs_kick, srs_kick_from,
    srs_table, system_cells, system_try_rotate, turned, PieceState,
};

verus! {

// ---------------------------------------------------------------------------
// State
// ---------------------------------------------------------------------------

/// Level, lines, elapsed ticks and how the game ended.
#[derive(Debug, Clone, Copy, PartialEq, Eq, Structural)]
pub struct GameProgress {
    pub level: u32,
    pub lines: u32,
    pub ticks_elapsed: u64,
    pub game_over: bool,
    pub game_won: bool,
    pub score_submitted: bool,
}

impl Default for GameProgress {
    fn default() -> (p: GameProgress)
        ensures
            p == (GameProgress {
                level: 0,
                lines: 0,
                ticks_elapsed: 0,
                game_over: false,
                game_won: false,
                score_submitted: false,
            }),
    {
        GameProgress {
            level: 0,
            lines: 0,
            ticks_elapsed: 0,
            game_over: false,
            game_won: false,
            score_submitted: false,
        }
    }
}

/// Delayed auto shift: the direction being held and for how many ticks.
#[derive(Debug, Clone, Copy, PartialEq, Eq, Structural)]
pub struct DasState {
    pub direction: Option<HorizDir>,
    pub counter: u32,
}

impl Default for DasState {
    fn default() -> (d: DasState)
        ensures
            d == (DasState { direction: None, counter: 0 }),
    {
        DasState { direction: None, counter: 0 }
    }
}

/// Per-piece counters, reset on spawn.
#[derive(Debug, Clone, Copy, PartialEq, Eq, Structural)]
pub struct DropTracking {
    pub gravity_accumulator: u32,
    pub soft_drop_frames: u32,
    pub sonic_drop_rows: u32,
}

impl Default for DropTracking {
    fn default() -> (d: DropTracking)
        ensures
            d == (DropTracking { gravity_accumulator: 0, soft_drop_frames: 0, sonic_drop_rows: 0 }),
    {
        DropTracking { gravity_accumulator: 0, soft_drop_frames: 0, sonic_drop_rows: 0 }
    }
}

/// A running game.
pub struct Game {
    pub board: BoardGrid,
    pub active: Piece,
    pub next: PieceKind,
    pub phase: PiecePhase,
    pub progress: GameProgress,
    pub das: DasState,
    pub rotation_buffer: Option<RotationDirection>,
    pub pending: Vec<usize>,
    pub drop_tracking: DropTracking,
    pub mode: GameMode,
    pub rotation_kind: Kind,
    pub judge: Judge,
    pub randomizer: Randomizer,
    /// Phase at the start of the current tick; `None` once the game ended.
    pub tick_start: Option<PiecePhase>,
    /// Presentation events of the last tick.
    pub events: Vec<GameEvent>,
    /// Judge events of the last tick, already applied to the judge.
    pub judge_events: Vec<JudgeEvent>,
}

/// The game as a mathematical value.
pub struct GameView {
    pub board: Seq<Seq<Option<PieceKind>>>,
    pub active: Piece,
    pub next: PieceKind,
    pub phase: PiecePhase,
    pub level: int,
    pub lines: int,
    pub ticks: int,
    pub game_over: bool,
    pub game_won: bool,
    pub score_submitted: bool,
    pub das_dir: Option<HorizDir>,
    pub das_counter: int,
    pub buffer: Option<RotationDirection>,
    pub pending: Seq<usize>,
    pub gravity_acc: int,
    pub soft_frames: int,
    pub sonic_rows: int,
    pub mode: GameMode,
    pub rotation_kind: Kind,
    pub judge: JudgeView,
    pub rand: RandomizerView,
    pub tick_start: Option<PiecePhase>,
    pub events: Seq<GameEvent>,
    pub judge_events: Seq<JudgeEvent>,
}

impl View for Game {
    type V = GameView;

    open spec fn view(&self) -> GameView {
        GameView {
            board: board_model(self.board),
            active: self.active,
            next: self.next,
            phase: self.phase,
            level: self.progress.level as int,
            lines: self.progress.lines as int,
            ticks: self.progress.ticks_elapsed as int,
            game_over: self.progress.game_over,
            game_won: self.progress.game_won,
            score_submitted: self.progress.score_submitted,
            das_dir: self.das.direction,
            das_counter: self.das.counter as int,
            buffer: self.rotation_buffer,
            pending: self.pending@,
            gravity_acc: self.drop_tracking.gravity_accumulator as int,
            soft_frames: self.drop_tracking.soft_drop_frames as int,
            sonic_rows: self.drop_tracking.sonic_drop_rows as int,
            mode: self.mode,
            rotation_kind: self.rotation_kind,
            judge: self.judge@,
            rand: self.randomizer@,
            tick_start: self.tick_start,
            events: self.events@,
            judge_events: self.judge_events@,
        }
    }
}

// ---------------------------------------------------------------------------
// Rules
// ---------------------------------------------------------------------------

/// The game has ended (topped out or won).
pub open spec fn ended(s: GameView) -> bool {
    s.game_over || s.game_won
}

/// The phases in which the piece is on the board under player control.
pub open spec fn in_play(p: PiecePhase) -> bool {
    p is Falling || p is Locking
}

/// Shape of the active piece in rotation `rot`.
pub open spec fn shape_at(s: GameView, rot: int) -> Seq<(i32, i32)> {
    system_cells(s.rotation_kind, s.active.kind, rot % 4)
}

/// Shape of the active piece in its current rotation.
pub open spec fn active_shape(s: GameView) -> Seq<(i32, i32)> {
    shape_at(s, s.active.rotation as int)
}

/// The active piece, in its rotation, fits with its box corner at (`col`,
/// `row`).
pub open spec fn fits_here(s: GameView, col: int, row: int) -> bool {
    fits_at(s.board, active_shape(s), col, row)
}

/// Row at which a shape dropped straight down from `row` comes to rest: it
/// moves down while the row below fits.
pub open spec fn landing_row(
    b: Seq<Seq<Option<PieceKind>>>,
    shape: Seq<(i32, i32)>,
    col: int,
    row: int,
) -> int
    decreases BOARD_ROWS - row,
{
    if row < BOARD_ROWS && fits_at(b, shape, col, row + 1) {
        landing_row(b, shape, col, row + 1)
    } else {
        row
    }
}

/// Row reached by moving a shape down from `row` at most `n` times, each
/// move only if the row below fits.
pub open spec fn drop_by(
    b: Seq<Seq<Option<PieceKind>>>,
    shape: Seq<(i32, i32)>,
    col: int,
    row: int,
    n: int,
) -> int
    decreases n,
{
    if n <= 0 || !fits_at(b, shape, col, row + 1) {
        row
    } else {
        drop_by(b, shape, col, row + 1, n - 1)
    }
}

/// The active piece moved to (`col`, `row`).
pub open spec fn moved_to(s: GameView, col: int, row: int) -> GameView {
    GameView { active: Piece { col: col as i32, row: row as i32, ..s.active }, ..s }
}

/// Moves the active piece by (`dcol`, `drow`) if it fits there.
pub open spec fn try_move(s: GameView, dcol: int, drow: int) -> GameView {
    if fits_here(s, s.active.col + dcol, s.active.row + drow) {
        moved_to(s, s.active.col + dcol, s.active.row + drow)
    } else {
        s
    }
}

/// Turns the active piece by the rules of the game's rotation system.
pub open spec fn rotated(s: GameView, dir: RotationDirection) -> GameView {
    let st = PieceState {
        kind: s.active.kind,
        rotation: s.active.rotation,
        col: s.active.col,
        row: s.active.row,
    };
    match system_try_rotate(s.rotation_kind, st, dir, s.board) {
        Some(n) => GameView {
            active: Piece { col: n.col, row: n.row, rotation: n.rotation, ..s.active },
            ..s
        },
        None => s,
    }
}

/// The rotation key held this tick, clockwise first; `None` if neither.
pub open spec fn held_rotation(input: InputSnapshot) -> Option<RotationDirection> {
    if input.held.has(GameKey::RotateCw) {
        Some(RotationDirection::Clockwise)
    } else if input.held.has(GameKey::RotateCcw) {
        Some(RotationDirection::Counterclockwise)
    } else {
        None
    }
}

/// The horizontal key held this tick, left first; `None` if neither.
pub open spec fn held_direction(input: InputSnapshot) -> Option<HorizDir> {
    if input.held.has(GameKey::Left) {
        Some(HorizDir::Left)
    } else if input.held.has(GameKey::Right) {
        Some(HorizDir::Right)
    } else {
        None
    }
}

/// Column step of a direction.
pub open spec fn dcol_of(dir: HorizDir) -> int {
    if dir == HorizDir::Left {
        -1
    } else {
        1
    }
}

/// A newly pressed rotation key turns the piece (clockwise first).
pub open spec fn rotate_step(s: GameView, input: InputSnapshot) -> GameView {
    if input.just_pressed.has(GameKey::RotateCw) {
        rotated(s, RotationDirection::Clockwise)
    } else if input.just_pressed.has(GameKey::RotateCcw) {
        rotated(s, RotationDirection::Counterclockwise)
    } else {
        s
    }
}

/// Sonic drop: the piece falls to its landing row, the rows count for the
/// score, and a falling piece starts its lock delay.
pub open spec fn sonic_step(s: GameView) -> GameView {
    let r = landing_row(s.board, active_shape(s), s.active.col as int, s.active.row as int);
    let s1 = GameView {
        sonic_rows: s.sonic_rows + (r - s.active.row),
        ..moved_to(s, s.active.col as int, r)
    };
    if s1.phase is Falling {
        GameView {
            phase: PiecePhase::Locking { ticks_left: LOCK_DELAY },
            events: s1.events.push(GameEvent::PieceBeganLocking),
            ..s1
        }
    } else {
        s1
    }
}

/// Delayed auto shift while the piece is in play: a newly held direction
/// moves at once and restarts the count; holding on counts up and, once
/// charged, shifts every `DAS_REPEAT` ticks.
pub open spec fn das_step(s: GameView, input: InputSnapshot) -> GameView {
    match held_direction(input) {
        None => GameView { das_dir: None, das_counter: 0, ..s },
        Some(dir) => if s.das_dir != Some(dir) {
            try_move(GameView { das_dir: Some(dir), das_counter: 0, ..s }, dcol_of(dir), 0)
        } else {
            let c = s.das_counter + 1;
            let t = GameView { das_counter: c, ..s };
            if c >= DAS_CHARGE && (c - DAS_CHARGE) % (DAS_REPEAT as int) == 0 {
                try_move(t, dcol_of(dir), 0)
            } else {
                t
            }
        },
    }
}

/// DAS during the spawn delay: the count charges but nothing moves.
pub open spec fn das_charge(s: GameView, input: InputSnapshot) -> GameView {
    match held_direction(input) {
        None => GameView { das_dir: None, das_counter: 0, ..s },
        Some(dir) => if s.das_dir != Some(dir) {
            GameView { das_dir: Some(dir), das_counter: 0, ..s }
        } else {
            GameView { das_counter: s.das_counter + 1, ..s }
        },
    }
}

/// Gravity: the accumulator gains the gravity of the level; each whole 256
/// moves the piece one row down while it fits.
pub open spec fn gravity_step(s: GameView) -> GameView {
    let acc = s.gravity_acc + spec_gravity_g(s.mode, s.level);
    let r = drop_by(s.board, active_shape(s), s.active.col as int, s.active.row as int, acc / 256);
    GameView { gravity_acc: acc % 256, ..moved_to(s, s.active.col as int, r) }
}

/// Whether a board cell (`c`, `r`) is covered by a shape placed at (`col`,
/// `row`).
pub open spec fn covers(shape: Seq<(i32, i32)>, col: int, row: int, c: int, r: int) -> bool {
    exists|i: int| 0 <= i < shape.len() && col + (#[trigger] shape[i]).0 == c && row + shape[i].1 == r
}

/// The board with every on-board cell of the shape locked with `kind`.
pub open spec fn locked_board(
    b: Seq<Seq<Option<PieceKind>>>,
    shape: Seq<(i32, i32)>,
    col: int,
    row: int,
    kind: PieceKind,
) -> Seq<Seq<Option<PieceKind>>> {
    Seq::new(
        BOARD_ROWS as nat,
        |r: int|
            Seq::new(
                BOARD_COLS as nat,
                |c: int|
                    if covers(shape, col, row, c, r) {
                        Some(kind)
                    } else {
                        b[r][c]
                    },
            ),
    )
}

/// Every row of the board is either being cleared or empty.
pub open spec fn playfield_cleared(b: Seq<Seq<Option<PieceKind>>>, cleared: Seq<usize>) -> bool {
    forall|r: int| 0 <= r < BOARD_ROWS ==> cleared.contains(r as usize) || row_empty(b, r)
}

/// The buffered rotation after a tick that keeps it unless a rotation key
/// is held.
pub open spec fn buffer_if_held(s: GameView, input: InputSnapshot) -> Option<RotationDirection> {
    match held_rotation(input) {
        Some(d) => Some(d),
        None => s.buffer,
    }
}

/// Locking: the piece's cells join the board, full rows are queued for
/// clearing (raising lines and level, the level capped at 999 which wins
/// the game), a held rotation key is buffered, the line-clear delay or the
/// spawn delay starts, and the judge is told.
pub open spec fn lock_step(s: GameView, input: InputSnapshot) -> GameView {
    let b1 = locked_board(
        s.board,
        active_shape(s),
        s.active.col as int,
        s.active.row as int,
        s.active.kind,
    );
    let cleared = full_rows(b1);
    let count = cleared.len() as int;
    let buffer = buffer_if_held(s, input);
    if count > 0 {
        let level = if s.level + count < 999 {
            s.level + count
        } else {
            999
        };
        let events1 = if level == 999 {
            s.events.push(GameEvent::GameEnded)
        } else {
            s.events
        };
        GameView {
            board: b1,
            pending: cleared,
            lines: s.lines + count,
            level,
            game_won: s.game_won || level == 999,
            events: events1.push(GameEvent::LineClear { count: count as u32 }),
            buffer,
            phase: PiecePhase::LineClearDelay { ticks_left: LINE_CLEAR_DELAY },
            judge_events: s.judge_events.push(
                JudgeEvent::ClearedLines {
                    level: level as u32,
                    cleared_playfield: playfield_cleared(b1, cleared),
                    num_lines: count as u32,
                    frames_soft_drop_held: s.soft_frames as u32,
                    sonic_drop_rows: s.sonic_rows as u32,
                    ticks_elapsed: s.ticks as u64,
                },
            ),
            ..s
        }
    } else {
        GameView {
            board: b1,
            buffer,
            phase: PiecePhase::Spawning { ticks_left: SPAWN_DELAY_NORMAL },
            judge_events: s.judge_events.push(JudgeEvent::LockedWithoutClear),
            ..s
        }
    }
}

/// Lock delay bookkeeping after gravity: a piece that lands starts its lock
/// delay; a piece that left the floor falls again; one that dropped and
/// landed again restarts the delay; otherwise the delay counts down and
/// the piece locks when it has run out.
pub open spec fn settle_step(s: GameView, moved_down: bool, input: InputSnapshot) -> GameView {
    let on_floor = !fits_here(s, s.active.col as int, s.active.row + 1);
    match s.phase {
        PiecePhase::Falling => if on_floor {
            GameView {
                phase: PiecePhase::Locking { ticks_left: LOCK_DELAY },
                events: s.events.push(GameEvent::PieceBeganLocking),
                ..s
            }
        } else {
            s
        },
        PiecePhase::Locking { ticks_left } => if !on_floor {
            GameView { phase: PiecePhase::Falling, ..s }
        } else if moved_down {
            GameView { phase: PiecePhase::Locking { ticks_left: LOCK_DELAY }, ..s }
        } else if ticks_left == 0 {
            lock_step(s, input)
        } else {
            GameView { phase: PiecePhase::Locking { ticks_left: (ticks_left - 1) as u32 }, ..s }
        },
        _ => s,
    }
}

/// A soft-drop tick while falling: the piece moves one row down if it fits
/// and the gravity accumulator restarts.
pub open spec fn soft_drop_move(s: GameView) -> GameView {
    GameView { gravity_acc: 0, ..try_move(s, 0, 1) }
}

/// The active-piece phase: rotation; then a sonic drop ends the tick; a
/// soft drop locks a locking piece at once; otherwise soft drop, DAS,
/// gravity and the lock delay.
pub open spec fn active_step(s: GameView, input: InputSnapshot) -> GameView {
    let s1 = rotate_step(s, input);
    if input.just_pressed.has(GameKey::SonicDrop) {
        sonic_step(s1)
    } else if input.held.has(GameKey::SoftDrop) && s1.phase is Locking {
        lock_step(GameView { soft_frames: s1.soft_frames + 1, ..s1 }, input)
    } else {
        let s2 = if input.held.has(GameKey::SoftDrop) {
            soft_drop_move(GameView { soft_frames: s1.soft_frames + 1, ..s1 })
        } else {
            s1
        };
        fall_step(s2, input)
    }
}

/// Sonic drop of the one-phase tick: the piece falls to its landing row,
/// the rows count for the score, and the lock delay starts afresh whether
/// the piece was falling or already locking.
pub open spec fn sonic_lock_step(s: GameView) -> GameView {
    let r = landing_row(s.board, active_shape(s), s.active.col as int, s.active.row as int);
    GameView {
        sonic_rows: s.sonic_rows + (r - s.active.row),
        phase: PiecePhase::Locking { ticks_left: LOCK_DELAY },
        ..moved_to(s, s.active.col as int, r)
    }
}

/// The active-piece phase of the one-phase tick: as `active_step`, except
/// that a sonic drop always restarts the lock delay.
pub open spec fn tick_active_step(s: GameView, input: InputSnapshot) -> GameView {
    let s1 = rotate_step(s, input);
    if input.just_pressed.has(GameKey::SonicDrop) {
        sonic_lock_step(s1)
    } else if input.held.has(GameKey::SoftDrop) && s1.phase is Locking {
        lock_step(GameView { soft_frames: s1.soft_frames + 1, ..s1 }, input)
    } else {
        let s2 = if input.held.has(GameKey::SoftDrop) {
            soft_drop_move(GameView { soft_frames: s1.soft_frames + 1, ..s1 })
        } else {
            s1
        };
        fall_step(s2, input)
    }
}

/// The active-piece phase, with a sonic drop that restarts the lock delay
/// (`restart`) or keeps a running one.
pub open spec fn active_step_with(s: GameView, input: InputSnapshot, restart: bool) -> GameView {
    if restart {
        tick_active_step(s, input)
    } else {
        active_step(s, input)
    }
}

/// DAS, gravity and the lock delay, in that order.
pub open spec fn fall_step(s: GameView, input: InputSnapshot) -> GameView {
    let s3 = das_step(s, input);
    let s4 = gravity_step(s3);
    settle_step(s4, s4.active.row > s3.active.row, input)
}

/// The line-clear delay: a held rotation key is buffered; the countdown
/// runs and, when it has run out, the cleared rows are removed and the
/// spawn delay starts.
pub open spec fn line_clear_step(s: GameView, input: InputSnapshot) -> GameView {
    let s1 = GameView { buffer: buffer_if_held(s, input), ..s };
    match s.phase {
        PiecePhase::LineClearDelay { ticks_left } => if ticks_left == 0 {
            GameView {
                board: if s.pending.len() > 0 {
                    compacted(s.board, s.pending)
                } else {
                    s.board
                },
                pending: Seq::empty(),
                phase: PiecePhase::Spawning { ticks_left: SPAWN_DELAY_NORMAL },
                ..s1
            }
        } else {
            GameView {
                phase: PiecePhase::LineClearDelay { ticks_left: (ticks_left - 1) as u32 },
                ..s1
            }
        },
        _ => s1,
    }
}

/// The level rises by one on each spawn except at the section stops (a
/// level ending in 99) and at 998.
pub open spec fn spec_can_piece_increment(level: int) -> bool {
    level % 100 != 99 && level != 998
}

/// The spawn of a new piece: the level rises unless at a section stop, the
/// next piece becomes active at (3, 0) in rotation 0 and `drawn` becomes
/// the next piece, the per-piece counters reset, a held rotation key turns
/// the new piece (initial rotation), a piece that does not fit ends the
/// game, and gravity applies at once.
pub open spec fn spawn_piece(s: GameView, held: Option<RotationDirection>, drawn: PieceKind) -> GameView {
    let level = if spec_can_piece_increment(s.level) {
        s.level + 1
    } else {
        s.level
    };
    let s1 = GameView {
        level,
        active: Piece { kind: s.next, rotation: 0, col: 3, row: 0 },
        next: drawn,
        rand: after_pick(s.rand, drawn),
        gravity_acc: 0,
        soft_frames: 0,
        sonic_rows: 0,
        phase: PiecePhase::Falling,
        buffer: None,
        ..s
    };
    let s2 = match held {
        Some(dir) => rotated(s1, dir),
        None => s1,
    };
    let s3 = if !fits_here(s2, s2.active.col as int, s2.active.row as int) {
        GameView { game_over: true, events: s2.events.push(GameEvent::GameEnded), ..s2 }
    } else {
        s2
    };
    gravity_step(s3)
}

/// The spawn delay: the rotation buffer follows the held rotation key; the
/// countdown runs, charging DAS except during its first frames, and when it
/// has run out the next piece spawns.
pub open spec fn spawn_step(s: GameView, input: InputSnapshot, drawn: PieceKind) -> GameView {
    let held = held_rotation(input);
    match s.phase {
        PiecePhase::Spawning { ticks_left } => if ticks_left == 0 {
            spawn_piece(s, held, drawn)
        } else {
            let s1 = GameView {
                phase: PiecePhase::Spawning { ticks_left: (ticks_left - 1) as u32 },
                buffer: held,
                ..s
            };
            if ticks_left <= SPAWN_DELAY_NORMAL - ARE_DAS_FROZEN_FRAMES {
                das_charge(s1, input)
            } else {
                s1
            }
        },
        _ => GameView { buffer: held, ..s },
    }
}

/// The tick up to the spawn delay, for a game that has not ended: the
/// counter, the active-piece phase, then the line-clear delay.
pub open spec fn pre_spawn(s: GameView, input: InputSnapshot) -> GameView {
    let s1 = GameView {
        tick_start: Some(s.phase),
        ticks: s.ticks + 1,
        events: Seq::empty(),
        judge_events: Seq::empty(),
        ..s
    };
    let s2 = if in_play(s1.phase) {
        active_step(s1, input)
    } else {
        s1
    };
    if !ended(s2) && s2.phase is LineClearDelay {
        line_clear_step(s2, input)
    } else {
        s2
    }
}

/// Whether this tick deals a new piece.
pub open spec fn frame_spawn_due(s: GameView, input: InputSnapshot) -> bool {
    let s3 = pre_spawn(s, input);
    !ended(s) && !ended(s3) && s3.phase == (PiecePhase::Spawning { ticks_left: 0 })
}

/// The tick before the judge runs: nothing but clearing the tick's events
/// once the game has ended; otherwise every phase in turn.
pub open spec fn frame_phases(s: GameView, input: InputSnapshot, drawn: PieceKind) -> GameView {
    if ended(s) {
        GameView { tick_start: None, events: Seq::empty(), judge_events: Seq::empty(), ..s }
    } else {
        let s3 = pre_spawn(s, input);
        if !ended(s3) && s3.phase is Spawning {
            spawn_step(s3, input, drawn)
        } else {
            s3
        }
    }
}

/// The judge after the events `evs`, in order.
pub open spec fn judge_after(j: JudgeView, evs: Seq<JudgeEvent>) -> JudgeView
    decreases evs.len(),
{
    if evs.len() == 0 {
        j
    } else {
        judge_after(spec_on_event(j, evs[0]), evs.drop_first())
    }
}

/// Every event of `evs` keeps the judge's arithmetic within `u32`.
pub open spec fn judge_events_in_range(j: JudgeView, evs: Seq<JudgeEvent>) -> bool
    decreases evs.len(),
{
    if evs.len() == 0 {
        true
    } else {
        event_in_range(j, evs[0]) && judge_events_in_range(spec_on_event(j, evs[0]), evs.drop_first())
    }
}

/// One tick: every phase, then the judge scores the tick's lock.
pub open spec fn spec_frame(s: GameView, input: InputSnapshot, drawn: PieceKind) -> GameView {
    let m = frame_phases(s, input, drawn);
    GameView { judge: judge_after(s.judge, m.judge_events), ..m }
}

/// The start of a tick of a running game: the counter advances, the phase
/// is recorded, and the events of the tick before are forgotten.
pub open spec fn tick_begin(s: GameView) -> GameView {
    GameView {
        tick_start: Some(s.phase),
        ticks: s.ticks + 1,
        events: Seq::empty(),
        judge_events: Seq::empty(),
        ..s
    }
}

/// The one-phase tick before the judge runs: nothing but clearing the
/// events once the game has ended; otherwise the counter advances and only
/// the phase the tick starts in runs: the line-clear delay, the spawn delay
/// (dealing `drawn` when it runs out), or the active-piece phase.
pub open spec fn tick_phases(s: GameView, input: InputSnapshot, drawn: PieceKind) -> GameView {
    if ended(s) {
        GameView { tick_start: None, events: Seq::empty(), judge_events: Seq::empty(), ..s }
    } else {
        let s1 = tick_begin(s);
        match s1.phase {
            PiecePhase::LineClearDelay { .. } => line_clear_step(s1, input),
            PiecePhase::Spawning { .. } => spawn_step(s1, input, drawn),
            _ => tick_active_step(s1, input),
        }
    }
}

/// One tick of the one-phase engine: the phase of the tick, then the judge
/// scores the tick's lock.
pub open spec fn spec_tick(s: GameView, input: InputSnapshot, drawn: PieceKind) -> GameView {
    let m = tick_phases(s, input, drawn);
    GameView { judge: judge_after(s.judge, m.judge_events), ..m }
}

/// Whether a one-phase tick deals a new piece.
pub open spec fn tick_spawn_due(s: GameView) -> bool {
    !ended(s) && s.phase == (PiecePhase::Spawning { ticks_left: 0 })
}

/// A one-phase tick from `s` on `input` keeps every counter within its
/// machine type, the judge's arithmetic included.
pub open spec fn tick_in_range(s: GameView, input: InputSnapshot) -> bool {
    let s1 = tick_begin(s);
    &&& s1.ticks <= u64::MAX
    &&& s.das_counter < u32::MAX
    &&& in_play(s.phase) ==> counters_fit(tick_active_step(s1, input))
    &&& in_play(s.phase) ==> judge_events_in_range(s.judge, tick_active_step(s1, input).judge_events)
}

/// Every cell of the active piece that lies on a board row lies on a board
/// column, so that locking writes only board cells.
pub open spec fn lock_cells_ok(s: GameView) -> bool {
    piece_on_columns(s.rotation_kind, s.active)
}

/// The active piece fits where it is: every cell on the board, on an empty
/// cell.
pub open spec fn piece_fits(s: GameView) -> bool {
    fits_here(s, s.active.col as int, s.active.row as int)
}

/// Every cell of `p` under `sys` that lies on a board row lies on a board
/// column.
pub open spec fn piece_on_columns(sys: Kind, p: Piece) -> bool {
    let shape = system_cells(sys, p.kind, p.rotation as int % 4);
    forall|i: int|
        0 <= i < shape.len() && 0 <= p.row + (#[trigger] shape[i]).1 < BOARD_ROWS ==> 0 <= p.col
            + shape[i].0 < BOARD_COLS
}

/// The invariant of a game: rotation index in 0..4, coordinates clear of
/// the ends of `i32`, gravity accumulator below one row, level at most 999,
/// a piece in play (while the game runs) that fits where it is, and rows
/// waiting for clearing only during the line-clear delay.
pub open spec fn game_wf(s: GameView) -> bool {
    &&& model_shaped(s.board)
    &&& s.active.rotation < 4
    &&& coord_ok(s.active.col as int)
    &&& coord_ok(s.active.row as int)
    &&& 0 <= s.gravity_acc < 256
    &&& 0 <= s.level <= 999
    &&& (in_play(s.phase) && !ended(s) ==> piece_fits(s))
    &&& pending_ok(s)
}

/// Rows wait for clearing only during the line-clear delay, and then they
/// are exactly the full rows of the board.
pub open spec fn pending_ok(s: GameView) -> bool {
    if s.phase is LineClearDelay {
        s.pending == full_rows(s.board)
    } else {
        s.pending.len() == 0
    }
}

/// A tick from `s` on `input` keeps every counter within its machine type:
/// the phases up to the spawn delay, the DAS count that the spawn delay may
/// still raise by one, and the judge's arithmetic.
pub open spec fn frame_in_range(s: GameView, input: InputSnapshot) -> bool {
    let m = pre_spawn(s, input);
    &&& counters_fit(m)
    &&& m.das_counter < u32::MAX
    &&& judge_events_in_range(s.judge, m.judge_events)
}

// ---------------------------------------------------------------------------
// Lemmas
// ---------------------------------------------------------------------------

/// The active piece's shape has four cells inside the 4x4 box.
pub proof fn lemma_active_shape(s: GameView)
    ensures
        active_shape(s).len() == 4,
        offsets_in_box(active_shape(s)),
{
    lemma_tables_in_box(s.active.kind, s.active.rotation as int % 4);
}

/// A four-cell shape that fits has its box corner near the board.
pub proof fn lemma_fits_near_board(
    b: Seq<Seq<Option<PieceKind>>>,
    shape: Seq<(i32, i32)>,
    col: int,
    row: int,
)
    requires
        shape.len() == 4,
        offsets_in_box(shape),
        fits_at(b, shape, col, row),
    ensures
        -3 <= col < BOARD_COLS,
        -3 <= row < BOARD_ROWS,
        coord_ok(col),
        coord_ok(row),
{
    assert(shape[0] == shape[0]);
}

/// The landing row is the starting row or a row where the shape fits.
pub proof fn lemma_landing_row(
    b: Seq<Seq<Option<PieceKind>>>,
    shape: Seq<(i32, i32)>,
    col: int,
    row: int,
)
    ensures
        landing_row(b, shape, col, row) >= row,
        landing_row(b, shape, col, row) == row || fits_at(
            b,
            shape,
            col,
            landing_row(b, shape, col, row),
        ),
        !(landing_row(b, shape, col, row) < BOARD_ROWS && fits_at(
            b,
            shape,
            col,
            landing_row(b, shape, col, row) + 1,
        )),
    decreases BOARD_ROWS - row,
{
    if row < BOARD_ROWS && fits_at(b, shape, col, row + 1) {
        lemma_landing_row(b, shape, col, row + 1);
    }
}

/// `drop_by` ends at the starting row or at a row where the shape fits.
pub proof fn lemma_drop_by(
    b: Seq<Seq<Option<PieceKind>>>,
    shape: Seq<(i32, i32)>,
    col: int,
    row: int,
    n: int,
)
    ensures
        drop_by(b, shape, col, row, n) >= row,
        drop_by(b, shape, col, row, n) == row || fits_at(b, shape, col, drop_by(b, shape, col, row, n)),
    decreases n,
{
    if n > 0 && fits_at(b, shape, col, row + 1) {
        lemma_drop_by(b, shape, col, row + 1, n - 1);
    }
}

/// A successful turn keeps the kind, gives the turned rotation index and a
/// position at which the turned shape fits.
#[verifier::spinoff_prover]
#[verifier::rlimit(30)]
pub proof fn lemma_try_rotate_sound(
    sys: Kind,
    piece: PieceState,
    dir: RotationDirection,
    b: Seq<Seq<Option<PieceKind>>>,
)
    requires
        system_try_rotate(sys, piece, dir, b) is Some,
    ensures
        ({
            let n = system_try_rotate(sys, piece, dir, b)->0;
            &&& n.kind == piece.kind
            &&& n.rotation as int == turned(piece.rotation as int, dir)
            &&& fits_at(b, system_cells(sys, piece.kind, n.rotation as int), n.col as int, n.row as int)
        }),
{
    let new_rot = turned(piece.rotation as int, dir);
    match sys {
        Kind::Ars => {},
        Kind::Srs => {
            lemma_tables_in_box(piece.kind, new_rot);
            if piece.kind != PieceKind::O {
                lemma_srs_kick_sound(
                    piece,
                    b,
                    srs_table(piece.kind, new_rot),
                    new_rot,
                    piece.kind == PieceKind::I,
                    spec_kick_index(piece.rotation as int, dir == RotationDirection::Clockwise),
                    0,
                );
            }
        },
    }
}

proof fn lemma_srs_kick_sound(
    piece: PieceState,
    b: Seq<Seq<Option<PieceKind>>>,
    shape: Seq<(i32, i32)>,
    new_rot: int,
    is_i: bool,
    idx: int,
    t: int,
)
    requires
        0 <= new_rot < 4,
        shape.len() == 4,
        offsets_in_box(shape),
        srs_kick_from(piece, b, shape, new_rot, is_i, idx, t) is Some,
    ensures
        ({
            let n = srs_kick_from(piece, b, shape, new_rot, is_i, idx, t)->0;
            &&& n.kind == piece.kind
            &&& n.rotation as int == new_rot
            &&& fits_at(b, shape, n.col as int, n.row as int)
        }),
    decreases 5 - t,
{
    if 0 <= t < 5 {
        let k = srs_kick(is_i, idx, t);
        if !fits_at(b, shape, piece.col + k.0, piece.row + k.1) {
            lemma_srs_kick_sound(piece, b, shape, new_rot, is_i, idx, t + 1);
        } else {
            lemma_fits_near_board(b, shape, piece.col + k.0, piece.row + k.1);
        }
    }
}

// ---------------------------------------------------------------------------
// Execution
// ---------------------------------------------------------------------------

/// The active piece has a rotation index below 4 and coordinates clear of
/// the ends of `i32`.
pub open spec fn piece_ok(s: GameView) -> bool {
    s.active.rotation < 4 && coord_ok(s.active.col as int) && coord_ok(s.active.row as int)
}

impl Game {
    /// Whether the active piece, in its rotation, fits at (`col`, `row`).
    fn fits_at_pos(&self, col: i32, row: i32) -> (r: bool)
        requires
            shift_ok(col as int),
            shift_ok(row as int),
        ensures
            r == fits_here(self@, col as int, row as int),
    {
        fits_with(self.rotation_kind, &self.board, self.active.kind, col, row, self.active.rotation)
    }

    /// Moves the active piece by (`dcol`, `drow`) if it fits there; returns
    /// whether it moved.
    pub fn try_move(&mut self, dcol: i32, drow: i32) -> (moved: bool)
        requires
            piece_ok(old(self)@),
            i32::MIN <= old(self)@.active.col + dcol,
            shift_ok(old(self)@.active.col + dcol),
            i32::MIN <= old(self)@.active.row + drow,
            shift_ok(old(self)@.active.row + drow),
        ensures
            final(self)@ == try_move(old(self)@, dcol as int, drow as int),
            final(self).randomizer == old(self).randomizer,
            moved == fits_here(
                old(self)@,
                old(self)@.active.col + dcol,
                old(self)@.active.row + drow,
            ),
            piece_ok(final(self)@),
            piece_fits(old(self)@) ==> piece_fits(final(self)@),
    {
        let new_col = self.active.col + dcol;
        let new_row = self.active.row + drow;
        if self.fits_at_pos(new_col, new_row) {
            proof {
                lemma_active_shape(self@);
                lemma_fits_near_board(self@.board, active_shape(self@), new_col as int, new_row as int);
            }
            self.active.col = new_col;
            self.active.row = new_row;
            proof {
                assert(piece_fits(self@));
            }
            true
        } else {
            false
        }
    }

    /// Turns the active piece by the rules of the game's rotation system.
    fn rotate(&mut self, dir: RotationDirection)
        requires
            piece_ok(old(self)@),
        ensures
            final(self)@ == rotated(old(self)@, dir),
            final(self).randomizer == old(self).randomizer,
            piece_ok(final(self)@),
            piece_fits(old(self)@) ==> piece_fits(final(self)@),
    {
        let st = PieceState {
            kind: self.active.kind,
            rotation: self.active.rotation,
            col: self.active.col,
            row: self.active.row,
        };
        match rotate_with(self.rotation_kind, &st, dir, &self.board) {
            Some(n) => {
                proof {
                    lemma_try_rotate_sound(self.rotation_kind, st, dir, self@.board);
                    lemma_tables_in_box(st.kind, n.rotation as int);
                    lemma_fits_near_board(
                        self@.board,
                        system_cells(self.rotation_kind, st.kind, n.rotation as int),
                        n.col as int,
                        n.row as int,
                    );
                }
                self.active.col = n.col;
                self.active.row = n.row;
                self.active.rotation = n.rotation;
                proof {
                    assert(piece_fits(self@));
                }
            },
            None => {},
        }
    }

    /// Sonic drop: the piece falls to its landing row; the lock delay
    /// starts afresh (`restart`), or else a falling piece starts it.
    fn sonic_drop(&mut self, restart: bool)
        requires
            piece_ok(old(self)@),
            sonic_step(old(self)@).sonic_rows <= u32::MAX,
        ensures
            final(self)@ == (if restart {
                sonic_lock_step(old(self)@)
            } else {
                sonic_step(old(self)@)
            }),
            piece_ok(final(self)@),
            piece_fits(old(self)@) ==> piece_fits(final(self)@),
    {
        let ghost s0 = self@;
        let ghost shape = active_shape(s0);
        let ghost land = landing_row(s0.board, shape, s0.active.col as int, s0.active.row as int);
        proof {
            lemma_landing_row(s0.board, shape, s0.active.col as int, s0.active.row as int);
        }
        let row_before = self.active.row;
        loop
            invariant
                piece_ok(self@),
                piece_fits(s0) ==> piece_fits(self@),
                self@ == moved_to(s0, s0.active.col as int, self.active.row as int),
                shape == active_shape(s0),
                row_before == s0.active.row,
                row_before <= self.active.row <= land,
                land == landing_row(s0.board, shape, s0.active.col as int, s0.active.row as int),
                landing_row(s0.board, shape, s0.active.col as int, self.active.row as int) == land,
            ensures
                piece_ok(self@),
                piece_fits(s0) ==> piece_fits(self@),
                self@ == moved_to(s0, s0.active.col as int, self.active.row as int),
                self.active.row == land,
            decreases land - self.active.row,
        {
            let ghost r = self.active.row as int;
            if !self.try_move(0, 1) {
                proof {
                    lemma_landing_row(s0.board, shape, s0.active.col as int, r);
                }
                break;
            }
            proof {
                lemma_active_shape(s0);
                lemma_fits_near_board(s0.board, shape, s0.active.col as int, r + 1);
                lemma_landing_row(s0.board, shape, s0.active.col as int, r + 1);
            }
        }
        proof {
            lemma_landing_row(s0.board, shape, s0.active.col as int, self.active.row as int);
        }
        assert(self.active.row == land);
        self.drop_tracking.sonic_drop_rows = self.drop_tracking.sonic_drop_rows + (self.active.row
            - row_before) as u32;
        assert(self@ =~~= (GameView {
            sonic_rows: s0.sonic_rows + (land - s0.active.row),
            ..moved_to(s0, s0.active.col as int, land)
        }));
        if restart {
            self.phase = PiecePhase::Locking { ticks_left: LOCK_DELAY };
        } else if self.phase == PiecePhase::Falling {
            self.phase = PiecePhase::Locking { ticks_left: LOCK_DELAY };
            self.events.push(GameEvent::PieceBeganLocking);
        }
    }

    /// Gravity: the accumulator gains the level's gravity; each whole 256
    /// moves the piece one row down while it fits.
    fn apply_gravity(&mut self)
        requires
            piece_ok(old(self)@),
            0 <= old(self)@.gravity_acc < 256,
            0 <= old(self)@.level <= 999,
        ensures
            final(self)@ == gravity_step(old(self)@),
            final(self).randomizer == old(self).randomizer,
            piece_ok(final(self)@),
            0 <= final(self)@.gravity_acc < 256,
            piece_fits(old(self)@) ==> piece_fits(final(self)@),
    {
        let ghost s0 = self@;
        let ghost shape = active_shape(s0);
        let acc = self.drop_tracking.gravity_accumulator + gravity_g(self.mode, self.progress.level);
        let drops = acc / 256;
        self.drop_tracking.gravity_accumulator = acc % 256;
        let ghost s1 = self@;
        let ghost r0 = self.randomizer;
        let mut k: u32 = 0;
        loop
            invariant
                self.randomizer == r0,
                piece_ok(self@),
                piece_fits(s0) ==> piece_fits(self@),
                k <= drops,
                shape == active_shape(s0),
                self@ == moved_to(s1, s0.active.col as int, self.active.row as int),
                s1 == (GameView { gravity_acc: acc as int % 256, ..s0 }),
                drop_by(s0.board, shape, s0.active.col as int, self.active.row as int, drops - k)
                    == drop_by(s0.board, shape, s0.active.col as int, s0.active.row as int, drops as int),
            ensures
                self.randomizer == r0,
                piece_ok(self@),
                piece_fits(s0) ==> piece_fits(self@),
                self@ == moved_to(s1, s0.active.col as int, self.active.row as int),
                self.active.row as int == drop_by(
                    s0.board,
                    shape,
                    s0.active.col as int,
                    s0.active.row as int,
                    drops as int,
                ),
            decreases drops - k,
        {
            if k >= drops {
                break;
            }
            let ghost r = self.active.row as int;
            if !self.try_move(0, 1) {
                break;
            }
            k = k + 1;
        }
        assert(self.active.row as int == drop_by(
            s0.board,
            shape,
            s0.active.col as int,
            s0.active.row as int,
            drops as int,
        ));
        assert(acc as int == s0.gravity_acc + spec_gravity_g(s0.mode, s0.level));
        assert(self@ =~~= gravity_step(s0));
    }
}


/// A shape fitting at its position has every cell on the board, so locking
/// it writes only board cells.
pub proof fn lemma_fits_lock_ok(s: GameView)
    requires
        fits_here(s, s.active.col as int, s.active.row as int),
    ensures
        lock_cells_ok(s),
{
    let shape = active_shape(s);
    assert forall|i: int| 0 <= i < shape.len() && 0 <= s.active.row + (#[trigger] shape[i]).1
        < BOARD_ROWS implies 0 <= s.active.col + shape[i].0 < BOARD_COLS by {
        assert(cell_free(s.board, s.active.col + shape[i].0, s.active.row + shape[i].1));
    }
}

/// Whether one of the first `n` cells of a shape placed at (`col`, `row`)
/// covers the board cell (`c`, `r`).
spec fn covers_first(shape: Seq<(i32, i32)>, n: int, col: int, row: int, c: int, r: int) -> bool {
    exists|i: int| 0 <= i < n && col + (#[trigger] shape[i]).0 == c && row + shape[i].1 == r
}

/// Writes `kind` into every on-board cell of the shape `cells` placed at
/// (`col`, `row`); cells above or below the board are skipped.
fn lock_cells(board: &mut BoardGrid, cells: &[(i32, i32); 4], col: i32, row: i32, kind: PieceKind)
    requires
        coord_ok(col as int),
        coord_ok(row as int),
        offsets_in_box(cells@),
        forall|i: int|
            0 <= i < 4 ==> (0 <= row + (#[trigger] cells@[i]).1 < BOARD_ROWS ==> 0 <= col
                + cells@[i].0 < BOARD_COLS),
    ensures
        board_model(*final(board)) == locked_board(
            board_model(*old(board)),
            cells@,
            col as int,
            row as int,
            kind,
        ),
{
    let ghost m0 = board_model(*board);
    let mut k: usize = 0;
    while k < 4
        invariant
            k <= 4,
            cells@.len() == 4,
            coord_ok(col as int),
            coord_ok(row as int),
            offsets_in_box(cells@),
            forall|i: int|
                0 <= i < 4 ==> (0 <= row + (#[trigger] cells@[i]).1 < BOARD_ROWS ==> 0 <= col
                    + cells@[i].0 < BOARD_COLS),
            forall|r: int, c: int|
                0 <= r < BOARD_ROWS && 0 <= c < BOARD_COLS ==> (#[trigger] board_model(*board)[r][c])
                    == (if covers_first(cells@, k as int, col as int, row as int, c, r) {
                    Some(kind)
                } else {
                    m0[r][c]
                }),
        decreases 4 - k,
    {
        let ghost before = board_model(*board);
        let (dc, dr) = cells[k];
        assert(cells@[k as int] == (dc, dr));
        let c = col + dc;
        let r = row + dr;
        if 0 <= r && r < BOARD_ROWS as i32 {
            let ru = r as usize;
            let cu = c as usize;
            let mut line = board[ru];
            line[cu] = Some(kind);
            board[ru] = line;
        }
        assert forall|rr: int, cc: int|
            0 <= rr < BOARD_ROWS && 0 <= cc < BOARD_COLS implies (#[trigger] board_model(
            *board,
        )[rr][cc]) == (if covers_first(cells@, k + 1, col as int, row as int, cc, rr) {
            Some(kind)
        } else {
            m0[rr][cc]
        }) by {
            if rr == r && cc == c {
                assert(covers_first(cells@, k + 1, col as int, row as int, cc, rr));
            } else {
                assert(board_model(*board)[rr][cc] == before[rr][cc]);
                if covers_first(cells@, k + 1, col as int, row as int, cc, rr) {
                    let i = choose|i: int|
                        0 <= i < k + 1 && col + (#[trigger] cells@[i]).0 == cc && row + cells@[i].1
                            == rr;
                    assert(i != k);
                    assert(covers_first(cells@, k as int, col as int, row as int, cc, rr));
                }
                if covers_first(cells@, k as int, col as int, row as int, cc, rr) {
                    let i = choose|i: int|
                        0 <= i < k && col + (#[trigger] cells@[i]).0 == cc && row + cells@[i].1 == rr;
                    assert(covers_first(cells@, k + 1, col as int, row as int, cc, rr));
                }
            }
        }
        k = k + 1;
    }
    assert(board_model(*board) =~~= locked_board(m0, cells@, col as int, row as int, kind));
}

/// Whether every row of `board` is listed in `cleared` or empty.
fn is_playfield_cleared(board: &BoardGrid, cleared: &Vec<usize>) -> (r: bool)
    ensures
        r == playfield_cleared(board_model(*board), cleared@),
{
    let mut i: usize = 0;
    while i < BOARD_ROWS
        invariant
            i <= BOARD_ROWS,
            forall|rr: int| 0 <= rr < i ==> cleared@.contains(rr as usize) || row_empty(board_model(*board), rr),
        decreases BOARD_ROWS - i,
    {
        if !vec_contains(cleared, i) && !is_row_empty(board, i) {
            return false;
        }
        i = i + 1;
    }
    true
}

impl Game {
    /// Locks the active piece: its cells join the board, full rows are
    /// queued for clearing, a held rotation is buffered, the next phase
    /// starts and the judge event is recorded.
    fn lock_piece(&mut self, input: &InputSnapshot)
        requires
            piece_ok(old(self)@),
            lock_cells_ok(old(self)@),
            0 <= old(self)@.level <= 999,
            lock_step(old(self)@, *input).lines <= u32::MAX,
        ensures
            final(self)@ == lock_step(old(self)@, *input),
    {
        let ghost s0 = self@;
        let cells = cells_of(self.rotation_kind, self.active.kind, self.active.rotation);

        lock_cells(&mut self.board, &cells, self.active.col, self.active.row, self.active.kind);
        let ghost b1 = board_model(self.board);
        let mut cleared: Vec<usize> = Vec::new();
        let mut r: usize = 0;
        while r < BOARD_ROWS
            invariant
                r <= BOARD_ROWS,
                b1 == board_model(self.board),
                cleared@ == full_rows_below(b1, r as int),
            decreases BOARD_ROWS - r,
        {
            if is_row_full(&self.board, r) {
                cleared.push(r);
            }
            r = r + 1;
        }
        proof {
            lemma_full_rows_below(b1, BOARD_ROWS as int);
        }
        let count = cleared.len() as u32;
        if input.held.contains(&GameKey::RotateCw) {
            self.rotation_buffer = Some(RotationDirection::Clockwise);
        } else if input.held.contains(&GameKey::RotateCcw) {
            self.rotation_buffer = Some(RotationDirection::Counterclockwise);
        }
        if count > 0 {
            let cleared_playfield = is_playfield_cleared(&self.board, &cleared);
            self.pending = cleared;
            self.progress.lines = self.progress.lines + count;
            let lv = self.progress.level + count;
            self.progress.level = if lv < 999 {
                lv
            } else {
                999
            };
            if self.progress.level == 999 {
                self.progress.game_won = true;
                self.events.push(GameEvent::GameEnded);
            }
            self.events.push(GameEvent::LineClear { count });
            self.phase = PiecePhase::LineClearDelay { ticks_left: LINE_CLEAR_DELAY };
            self.judge_events.push(
                JudgeEvent::ClearedLines {
                    level: self.progress.level,
                    cleared_playfield,
                    num_lines: count,
                    frames_soft_drop_held: self.drop_tracking.soft_drop_frames,
                    sonic_drop_rows: self.drop_tracking.sonic_drop_rows,
                    ticks_elapsed: self.progress.ticks_elapsed,
                },
            );
        } else {
            self.phase = PiecePhase::Spawning { ticks_left: SPAWN_DELAY_NORMAL };
            self.judge_events.push(JudgeEvent::LockedWithoutClear);
        }
        assert(self@ =~~= lock_step(s0, *input));
    }
}


/// The counters of a game fit their machine types.
pub open spec fn counters_fit(m: GameView) -> bool {
    &&& m.ticks <= u64::MAX
    &&& m.lines <= u32::MAX
    &&& m.das_counter <= u32::MAX
    &&& m.soft_frames <= u32::MAX
    &&& m.sonic_rows <= u32::MAX
}

/// The horizontal key held this tick, left first.
fn held_dir_of(input: &InputSnapshot) -> (d: Option<HorizDir>)
    ensures
        d == held_direction(*input),
{
    if input.held.contains(&GameKey::Left) {
        Some(HorizDir::Left)
    } else if input.held.contains(&GameKey::Right) {
        Some(HorizDir::Right)
    } else {
        None
    }
}

/// The rotation key held this tick, clockwise first.
fn held_rot_of(input: &InputSnapshot) -> (d: Option<RotationDirection>)
    ensures
        d == held_rotation(*input),
{
    if input.held.contains(&GameKey::RotateCw) {
        Some(RotationDirection::Clockwise)
    } else if input.held.contains(&GameKey::RotateCcw) {
        Some(RotationDirection::Counterclockwise)
    } else {
        None
    }
}

impl Game {
    /// Delayed auto shift for a piece in play.
    fn das(&mut self, input: &InputSnapshot)
        requires
            piece_ok(old(self)@),
            das_step(old(self)@, *input).das_counter <= u32::MAX,
        ensures
            final(self)@ == das_step(old(self)@, *input),
            piece_ok(final(self)@),
            piece_fits(old(self)@) ==> piece_fits(final(self)@),
    {
        match held_dir_of(input) {
            None => {
                self.das.direction = None;
                self.das.counter = 0;
            },
            Some(dir) => {
                let same = match self.das.direction {
                    Some(d) => d == dir,
                    None => false,
                };
                let dcol: i32 = if dir == HorizDir::Left {
                    -1
                } else {
                    1
                };
                if !same {
                    self.das.direction = Some(dir);
                    self.das.counter = 0;
                    self.try_move(dcol, 0);
                } else {
                    self.das.counter = self.das.counter + 1;
                    if self.das.counter >= DAS_CHARGE && (self.das.counter - DAS_CHARGE) % DAS_REPEAT
                        == 0 {
                        self.try_move(dcol, 0);
                    }
                }
            },
        }
    }

    /// Lock-delay bookkeeping after gravity.
    fn settle(&mut self, moved_down: bool, input: &InputSnapshot)
        requires
            piece_ok(old(self)@),
            piece_fits(old(self)@),
            0 <= old(self)@.level <= 999,
            settle_step(old(self)@, moved_down, *input).lines <= u32::MAX,
        ensures
            final(self)@ == settle_step(old(self)@, moved_down, *input),
    {
        let on_floor = !self.fits_at_pos(self.active.col, self.active.row + 1);
        match self.phase {
            PiecePhase::Falling => {
                if on_floor {
                    self.phase = PiecePhase::Locking { ticks_left: LOCK_DELAY };
                    self.events.push(GameEvent::PieceBeganLocking);
                }
            },
            PiecePhase::Locking { ticks_left } => {
                if !on_floor {
                    self.phase = PiecePhase::Falling;
                } else if moved_down {
                    self.phase = PiecePhase::Locking { ticks_left: LOCK_DELAY };
                } else if ticks_left == 0 {
                    proof {
                        lemma_fits_lock_ok(self@);
                    }
                    self.lock_piece(input);
                } else {
                    self.phase = PiecePhase::Locking { ticks_left: ticks_left - 1 };
                }
            },
            _ => {},
        }
    }

    /// The active-piece phase of a tick; a sonic drop restarts the lock
    /// delay when `restart` holds.
    #[verifier::rlimit(40)]
    fn active_phase(&mut self, input: &InputSnapshot, restart: bool)
        requires
            piece_ok(old(self)@),
            piece_fits(old(self)@),
            0 <= old(self)@.gravity_acc < 256,
            0 <= old(self)@.level <= 999,
            counters_fit(active_step_with(old(self)@, *input, restart)),
        ensures
            final(self)@ == active_step_with(old(self)@, *input, restart),
            piece_ok(final(self)@),
            0 <= final(self)@.gravity_acc < 256,
            0 <= final(self)@.level <= 999,
            in_play(final(self)@.phase) ==> piece_fits(final(self)@),
    {
        if input.just_pressed.contains(&GameKey::RotateCw) {
            self.rotate(RotationDirection::Clockwise);
        } else if input.just_pressed.contains(&GameKey::RotateCcw) {
            self.rotate(RotationDirection::Counterclockwise);
        }
        if input.just_pressed.contains(&GameKey::SonicDrop) {
            self.sonic_drop(restart);
            return;
        }
        if input.held.contains(&GameKey::SoftDrop) {
            self.drop_tracking.soft_drop_frames = self.drop_tracking.soft_drop_frames + 1;
            if matches!(self.phase, PiecePhase::Locking { .. }) {
                proof {
                    lemma_fits_lock_ok(self@);
                }
                self.lock_piece(input);
                return;
            }
            self.try_move(0, 1);
            self.drop_tracking.gravity_accumulator = 0;
        }
        self.fall(input);
    }

    /// DAS, gravity and the lock delay.
    fn fall(&mut self, input: &InputSnapshot)
        requires
            piece_ok(old(self)@),
            piece_fits(old(self)@),
            0 <= old(self)@.gravity_acc < 256,
            0 <= old(self)@.level <= 999,
            counters_fit(fall_step(old(self)@, *input)),
        ensures
            final(self)@ == fall_step(old(self)@, *input),
            piece_ok(final(self)@),
            0 <= final(self)@.gravity_acc < 256,
            0 <= final(self)@.level <= 999,
            in_play(final(self)@.phase) ==> piece_fits(final(self)@),
    {
        self.das(input);
        let row_before = self.active.row;
        self.apply_gravity();
        let moved_down = self.active.row > row_before;
        self.settle(moved_down, input);
    }
}


/// The level rises on a spawn unless it ends in 99 (a section stop) or is
/// 998.
pub fn can_piece_increment(level: u32) -> (r: bool)
    ensures
        r == spec_can_piece_increment(level as int),
{
    level % 100 != 99 && level != 998
}

impl Game {
    /// DAS during the spawn delay: the count charges, nothing moves.
    fn das_charge(&mut self, input: &InputSnapshot)
        requires
            das_charge(old(self)@, *input).das_counter <= u32::MAX,
        ensures
            final(self)@ == das_charge(old(self)@, *input),
    {
        match held_dir_of(input) {
            None => {
                self.das.direction = None;
                self.das.counter = 0;
            },
            Some(dir) => {
                let same = match self.das.direction {
                    Some(d) => d == dir,
                    None => false,
                };
                if !same {
                    self.das.direction = Some(dir);
                    self.das.counter = 0;
                } else {
                    self.das.counter = self.das.counter + 1;
                }
            },
        }
    }

    /// The line-clear delay.
    fn line_clear_delay(&mut self, input: &InputSnapshot)
        ensures
            final(self)@ == line_clear_step(old(self)@, *input),
    {
        let ghost s0 = self@;
        if let Some(d) = held_rot_of(input) {
            self.rotation_buffer = Some(d);
        }
        match self.phase {
            PiecePhase::LineClearDelay { ticks_left } => {
                if ticks_left == 0 {
                    compact_pending(&mut self.board, &mut self.pending);
                    assert(self.pending@ =~= Seq::<usize>::empty());
                    self.phase = PiecePhase::Spawning { ticks_left: SPAWN_DELAY_NORMAL };
                } else {
                    self.phase = PiecePhase::LineClearDelay { ticks_left: ticks_left - 1 };
                }
            },
            _ => {},
        }
        assert(self@ =~~= line_clear_step(s0, *input));
    }

    /// Deals the next piece.
    #[verifier::rlimit(40)]
    fn spawn_piece(&mut self, held: Option<RotationDirection>)
        requires
            0 <= old(self)@.level <= 999,
        ensures
            final(self)@ == spawn_piece(old(self)@, held, final(self)@.next),
            legal_pick(old(self)@.rand, final(self)@.next),
            legal_draws(old(self)@.rand, final(self).randomizer.last_draws()),
            final(self)@.next == spec_pick(old(self)@.rand.history, final(self).randomizer.last_draws()),
            piece_ok(final(self)@),
            0 <= final(self)@.gravity_acc < 256,
            0 <= final(self)@.level <= 999,
            !ended(final(self)@) ==> piece_fits(final(self)@),
    {
        let ghost s0 = self@;
        if can_piece_increment(self.progress.level) {
            self.progress.level = self.progress.level + 1;
        }
        let drawn = self.randomizer.next();
        self.active = Piece { kind: self.next, rotation: 0, col: 3, row: 0 };
        self.next = drawn;
        self.drop_tracking = DropTracking {
            gravity_accumulator: 0,
            soft_drop_frames: 0,
            sonic_drop_rows: 0,
        };
        self.phase = PiecePhase::Falling;
        self.rotation_buffer = None;
        let ghost s1 = self@;
        match held {
            Some(dir) => self.rotate(dir),
            None => {},
        }
        let ghost s2 = self@;
        if !self.fits_at_pos(self.active.col, self.active.row) {
            self.progress.game_over = true;
            self.events.push(GameEvent::GameEnded);
        } else {
            proof {
                assert(piece_fits(self@));
            }
        }
        self.apply_gravity();
    }

    /// The spawn delay.
    fn spawn_phase(&mut self, input: &InputSnapshot)
        requires
            piece_ok(old(self)@),
            0 <= old(self)@.gravity_acc < 256,
            0 <= old(self)@.level <= 999,
            old(self)@.das_counter < u32::MAX,
            in_play(old(self)@.phase) && !ended(old(self)@) ==> piece_fits(old(self)@),
        ensures
            final(self)@ == spawn_step(old(self)@, *input, final(self)@.next),
            old(self)@.phase == (PiecePhase::Spawning { ticks_left: 0 }) ==> legal_pick(
                old(self)@.rand,
                final(self)@.next,
            ),
            old(self)@.phase == (PiecePhase::Spawning { ticks_left: 0 }) ==> legal_draws(
                old(self)@.rand,
                final(self).randomizer.last_draws(),
            ),
            old(self)@.phase == (PiecePhase::Spawning { ticks_left: 0 }) ==> final(self)@.next
                == spec_pick(old(self)@.rand.history, final(self).randomizer.last_draws()),
            piece_ok(final(self)@),
            0 <= final(self)@.gravity_acc < 256,
            0 <= final(self)@.level <= 999,
            in_play(final(self)@.phase) && !ended(final(self)@) ==> piece_fits(final(self)@),
    {
        let held = held_rot_of(input);
        match self.phase {
            PiecePhase::Spawning { ticks_left } => {
                if ticks_left == 0 {
                    self.spawn_piece(held);
                } else {
                    self.phase = PiecePhase::Spawning { ticks_left: ticks_left - 1 };
                    self.rotation_buffer = held;
                    if ticks_left <= SPAWN_DELAY_NORMAL - ARE_DAS_FROZEN_FRAMES {
                        self.das_charge(input);
                    }
                }
            },
            _ => {
                self.rotation_buffer = held;
            },
        }
    }

    /// Hands the tick's judge events to the judge, in order.
    fn apply_judge_events(&mut self)
        requires
            judge_events_in_range(old(self)@.judge, old(self)@.judge_events),
        ensures
            final(self)@ == (GameView {
                judge: judge_after(old(self)@.judge, old(self)@.judge_events),
                ..old(self)@
            }),
            final(self).randomizer == old(self).randomizer,
    {
        let ghost s0 = self@;
        let ghost evs = self.judge_events@;
        let ghost j0 = self.judge@;
        let ghost r0 = self.randomizer;
        assert(evs.skip(0) =~= evs);
        let mut i: usize = 0;
        while i < self.judge_events.len()
            invariant
                0 <= i <= evs.len(),
                self.judge_events@ == evs,
                evs == s0.judge_events,
                j0 == s0.judge,
                judge_after(self.judge@, evs.skip(i as int)) == judge_after(j0, evs),
                judge_events_in_range(self.judge@, evs.skip(i as int)),
                self@ == (GameView { judge: self.judge@, ..s0 }),
                self.randomizer == r0,
            decreases evs.len() - i,
        {
            let ev = self.judge_events[i];
            proof {
                assert(evs.skip(i as int)[0] == ev);
                assert(evs.skip(i as int).drop_first() =~= evs.skip(i + 1));
            }
            self.judge.on_event(&ev);
            i = i + 1;
        }
        assert(evs.skip(i as int) =~= Seq::<JudgeEvent>::empty());
    }

    /// One fixed-rate frame of the game as the system schedule runs it, the
    /// phases chained within the frame. A game that has ended only clears
    /// the frame's events. Otherwise the tick counter advances, then the
    /// active-piece phase, the line-clear delay and the spawn delay run in
    /// turn, each on the phase the previous one left, and the judge scores
    /// the frame's lock. When a piece is dealt, it is a legal pick of the
    /// randomizer; every frame keeps the game well-formed.
    pub fn frame(&mut self, input: &InputSnapshot)
        requires
            game_wf(old(self)@),
            frame_in_range(old(self)@, *input),
        ensures
            final(self)@ == spec_frame(old(self)@, *input, final(self)@.next),
            frame_spawn_due(old(self)@, *input) ==> legal_pick(old(self)@.rand, final(self)@.next),
            frame_spawn_due(old(self)@, *input) ==> legal_draws(
                old(self)@.rand,
                final(self).randomizer.last_draws(),
            ),
            frame_spawn_due(old(self)@, *input) ==> final(self)@.next == spec_pick(
                old(self)@.rand.history,
                final(self).randomizer.last_draws(),
            ),
            game_wf(final(self)@),
    {
        let ghost s0 = self@;
        if self.progress.game_over || self.progress.game_won {
            self.tick_start = None;
            self.events = Vec::new();
            self.judge_events = Vec::new();
            proof {
                assert(self@.events =~= Seq::<GameEvent>::empty());
                assert(self@.judge_events =~= Seq::<JudgeEvent>::empty());
                assert(self@ =~~= spec_frame(s0, *input, self@.next));
            }
            return;
        }
        self.run_phases(input);
        assert(self@ == frame_phases(s0, *input, self@.next));
        self.apply_judge_events();
    }

    /// One tick of the game, one phase per tick. A game that has ended
    /// only clears the tick's events. Otherwise the tick counter advances
    /// and only the phase the tick starts in runs: the line-clear delay, the
    /// spawn delay, or the active-piece phase (rotation, sonic drop, soft
    /// drop, DAS, gravity and the lock delay); then the judge scores the
    /// tick's lock. A lock that clears rows thus leaves the full line-clear
    /// delay for the next tick. When a piece is dealt, it is a legal pick of
    /// the randomizer; every tick keeps the game well-formed.
    #[verifier::rlimit(40)]
    pub fn tick(&mut self, input: &InputSnapshot)
        requires
            game_wf(old(self)@),
            tick_in_range(old(self)@, *input),
        ensures
            final(self)@ == spec_tick(old(self)@, *input, final(self)@.next),
            tick_spawn_due(old(self)@) ==> legal_pick(old(self)@.rand, final(self)@.next),
            tick_spawn_due(old(self)@) ==> legal_draws(
                old(self)@.rand,
                final(self).randomizer.last_draws(),
            ),
            tick_spawn_due(old(self)@) ==> final(self)@.next == spec_pick(
                old(self)@.rand.history,
                final(self).randomizer.last_draws(),
            ),
            game_wf(final(self)@),
    {
        let ghost s0 = self@;
        if self.progress.game_over || self.progress.game_won {
            self.tick_start = None;
            self.events = Vec::new();
            self.judge_events = Vec::new();
            proof {
                assert(self@.events =~= Seq::<GameEvent>::empty());
                assert(self@.judge_events =~= Seq::<JudgeEvent>::empty());
                assert(self@ =~~= spec_tick(s0, *input, self@.next));
            }
            return;
        }
        self.run_tick_phase(input);
        self.apply_judge_events();
    }

    /// The one-phase tick of a game that has not ended, before the judge.
    #[verifier::spinoff_prover]
    #[verifier::rlimit(40)]
    fn run_tick_phase(&mut self, input: &InputSnapshot)
        requires
            !ended(old(self)@),
            game_wf(old(self)@),
            tick_in_range(old(self)@, *input),
        ensures
            final(self)@ == tick_phases(old(self)@, *input, final(self)@.next),
            tick_spawn_due(old(self)@) ==> legal_pick(old(self)@.rand, final(self)@.next),
            tick_spawn_due(old(self)@) ==> legal_draws(
                old(self)@.rand,
                final(self).randomizer.last_draws(),
            ),
            tick_spawn_due(old(self)@) ==> final(self)@.next == spec_pick(
                old(self)@.rand.history,
                final(self).randomizer.last_draws(),
            ),
            game_wf(final(self)@),
            final(self)@.judge == old(self)@.judge,
            judge_events_in_range(old(self)@.judge, final(self)@.judge_events),
    {
        let ghost s0 = self@;
        self.tick_start = Some(self.phase);
        self.progress.ticks_elapsed = self.progress.ticks_elapsed + 1;
        self.events = Vec::new();
        self.judge_events = Vec::new();
        let ghost s1 = self@;
        assert(s1 =~~= tick_begin(s0));
        match self.phase {
            PiecePhase::LineClearDelay { .. } => {
                self.line_clear_delay(input);
            },
            PiecePhase::Spawning { .. } => {
                self.spawn_phase(input);
            },
            _ => {
                proof {
                    lemma_tick_active_step_pending(s1, *input);
                }
                self.active_phase(input, true);
            },
        }
        assert(s1.judge_events =~= Seq::<JudgeEvent>::empty());
    }

    /// The tick of a game that has not ended, before the judge.
    #[verifier::rlimit(40)]
    fn run_phases(&mut self, input: &InputSnapshot)
        requires
            !ended(old(self)@),
            game_wf(old(self)@),
            frame_in_range(old(self)@, *input),
        ensures
            final(self)@ == frame_phases(old(self)@, *input, final(self)@.next),
            frame_spawn_due(old(self)@, *input) ==> legal_pick(old(self)@.rand, final(self)@.next),
            frame_spawn_due(old(self)@, *input) ==> legal_draws(
                old(self)@.rand,
                final(self).randomizer.last_draws(),
            ),
            frame_spawn_due(old(self)@, *input) ==> final(self)@.next == spec_pick(
                old(self)@.rand.history,
                final(self).randomizer.last_draws(),
            ),
            game_wf(final(self)@),
            final(self)@.judge == old(self)@.judge,
            final(self)@.judge_events == pre_spawn(old(self)@, *input).judge_events,
    {
        let ghost s0 = self@;
        self.run_pre_spawn(input);
        let ghost s3 = self@;
        if !(self.progress.game_over || self.progress.game_won) && matches!(
            self.phase,
            PiecePhase::Spawning { .. }
        ) {
            self.spawn_phase(input);
        }
    }

    /// The tick counter, the active-piece phase and the line-clear delay.
    #[verifier::rlimit(40)]
    fn run_pre_spawn(&mut self, input: &InputSnapshot)
        requires
            !ended(old(self)@),
            game_wf(old(self)@),
            frame_in_range(old(self)@, *input),
        ensures
            final(self)@ == pre_spawn(old(self)@, *input),
            piece_ok(final(self)@),
            0 <= final(self)@.gravity_acc < 256,
            0 <= final(self)@.level <= 999,
            in_play(final(self)@.phase) && !ended(final(self)@) ==> piece_fits(final(self)@),
            pending_ok(final(self)@),
    {
        let ghost s0 = self@;
        proof {
            lemma_pre_spawn_pending(s0, *input);
        }
        self.tick_start = Some(self.phase);
        self.progress.ticks_elapsed = self.progress.ticks_elapsed + 1;
        self.events = Vec::new();
        self.judge_events = Vec::new();
        let ghost s1 = self@;
        assert(s1 =~~= (GameView {
            tick_start: Some(s0.phase),
            ticks: s0.ticks + 1,
            events: Seq::empty(),
            judge_events: Seq::empty(),
            ..s0
        }));
        let playing = match self.phase {
            PiecePhase::Falling => true,
            PiecePhase::Locking { .. } => true,
            _ => false,
        };
        if playing {
            self.active_phase(input, false);
        }
        if !(self.progress.game_over || self.progress.game_won) && matches!(
            self.phase,
            PiecePhase::LineClearDelay { .. }
        ) {
            self.line_clear_delay(input);
        }
    }
}


/// The randomizer state of a fresh randomizer: four Z in the history and
/// the first piece still to be dealt.
pub open spec fn fresh_randomizer() -> RandomizerView {
    RandomizerView {
        history: seq![PieceKind::Z, PieceKind::Z, PieceKind::Z, PieceKind::Z],
        is_first: true,
    }
}

/// A game as it starts: empty board, first piece dealt as both the active
/// and the next piece, the spawn delay already run out so that the first
/// tick spawns, every counter zero and a fresh judge.
pub open spec fn started(
    g: GameView,
    mode: GameMode,
    rotation: Kind,
    first: PieceKind,
) -> bool {
    &&& g.board == board_model(empty_board_spec())
    &&& g.active == Piece { kind: first, rotation: 0, col: 3, row: 0 }
    &&& g.next == first
    &&& g.phase == PiecePhase::Spawning { ticks_left: 0 }
    &&& g.level == 0 && g.lines == 0 && g.ticks == 0
    &&& !g.game_over && !g.game_won && !g.score_submitted
    &&& g.das_dir is None && g.das_counter == 0
    &&& g.buffer is None
    &&& g.pending.len() == 0
    &&& g.gravity_acc == 0 && g.soft_frames == 0 && g.sonic_rows == 0
    &&& g.mode == mode && g.rotation_kind == rotation
    &&& g.judge == (JudgeView { combo: 1, score: 0, best_grade: Grade::Nine, grade_ticks: 0 })
    &&& g.rand == after_pick(fresh_randomizer(), first)
    &&& g.tick_start is None
    &&& g.events.len() == 0 && g.judge_events.len() == 0
}

/// The board with every cell empty.
pub open spec fn empty_board_spec() -> BoardGrid {
    [[None; BOARD_COLS]; BOARD_ROWS]
}

impl Game {
    /// Starts a game in `mode` with the rotation system `rotation`. With a
    /// seed the piece sequence is reproducible; without one it is seeded at
    /// random. The first piece is dealt at once and spawns on the first
    /// tick.
    pub fn new(mode: GameMode, rotation: Kind, seed: Option<u64>) -> (g: Game)
        ensures
            legal_pick(fresh_randomizer(), g@.next),
            legal_draws(fresh_randomizer(), g.randomizer.last_draws()),
            g@.next == spec_pick(fresh_randomizer().history, g.randomizer.last_draws()),
            seed matches Some(s) ==> g.randomizer.seed() == s,
            started(g@, mode, rotation, g@.next),
            game_wf(g@),
    {
        let mut randomizer = match seed {
            Some(s) => Randomizer::with_seed(s),
            None => Randomizer::new(),
        };
        let first = randomizer.next();
        let g = Game {
            board: empty_board(),
            active: Piece::new(first),
            next: first,
            phase: PiecePhase::Spawning { ticks_left: 0 },
            progress: GameProgress {
                level: 0,
                lines: 0,
                ticks_elapsed: 0,
                game_over: false,
                game_won: false,
                score_submitted: false,
            },
            das: DasState { direction: None, counter: 0 },
            rotation_buffer: None,
            pending: Vec::new(),
            drop_tracking: DropTracking {
                gravity_accumulator: 0,
                soft_drop_frames: 0,
                sonic_drop_rows: 0,
            },
            mode,
            rotation_kind: rotation,
            judge: Judge::new(),
            randomizer,
            tick_start: None,
            events: Vec::new(),
            judge_events: Vec::new(),
        };
        assert(g@.board =~~= board_model(empty_board_spec()));
        g
    }

    /// Whether the active piece in rotation `rotation` fits with its box
    /// corner at (`col`, `row`).
    pub fn fits(&self, col: i32, row: i32, rotation: usize) -> (r: bool)
        requires
            shift_ok(col as int),
            shift_ok(row as int),
        ensures
            r == fits_at(self@.board, shape_at(self@, rotation as int), col as int, row as int),
    {
        fits_with(self.rotation_kind, &self.board, self.active.kind, col, row, rotation)
    }

    /// The judge's score.
    pub fn score(&self) -> (s: u32)
        ensures
            s == self@.judge.score,
    {
        self.judge.score()
    }

    /// The grade of the current score.
    pub fn grade(&self) -> (g: Grade)
        ensures
            g == spec_grade_of_score(self@.judge.score),
    {
        self.judge.grade()
    }

    /// The current level.
    pub fn level(&self) -> (l: u32)
        ensures
            l == self@.level,
    {
        self.progress.level
    }

    /// The level at which the current section ends.
    pub fn next_level_barrier(&self) -> (b: u32)
        requires
            self@.level <= 999,
        ensures
            b == spec_next_level_barrier(self@.level),
    {
        next_level_barrier(self.progress.level)
    }

    /// A frame of the ready screen before the first tick: the rotation key
    /// held is buffered (or the buffer cleared), and DAS charges.
    pub fn tick_ready(&mut self, input: &InputSnapshot)
        requires
            das_charge(old(self)@, *input).das_counter <= u32::MAX,
        ensures
            final(self)@ == (GameView { buffer: held_rotation(*input), ..das_charge(old(self)@, *input) }),
    {
        self.rotation_buffer = held_rot_of(input);
        self.das_charge(input);
    }

    /// Initial rotation: a buffered rotation turns the active piece, and the
    /// buffer empties.
    pub fn apply_irs(&mut self)
        requires
            piece_ok(old(self)@),
        ensures
            final(self)@ == (match old(self)@.buffer {
                Some(d) => rotated(GameView { buffer: None, ..old(self)@ }, d),
                None => old(self)@,
            }),
    {
        if let Some(dir) = self.rotation_buffer {
            self.rotation_buffer = None;
            self.rotate(dir);
        }
    }

    /// Hands out the line clears among the events of the last tick, in
    /// order, and forgets the tick's events.
    pub fn drain_events(&mut self) -> (events: Vec<GameEvent>)
        ensures
            events@ == old(self)@.events.filter(|e: GameEvent| e is LineClear),
            final(self)@ == (GameView { events: Seq::empty(), ..old(self)@ }),
    {
        let ghost evs = self.events@;
        let mut out: Vec<GameEvent> = Vec::new();
        let mut i: usize = 0;
        while i < self.events.len()
            invariant
                i <= evs.len(),
                self.events@ == evs,
                out@ == evs.take(i as int).filter(|e: GameEvent| e is LineClear),
            decreases evs.len() - i,
        {
            let e = self.events[i];
            proof {
                reveal(Seq::filter);
                assert(evs.take(i + 1).drop_last() =~= evs.take(i as int));
            }
            if matches!(e, GameEvent::LineClear { .. }) {
                out.push(e);
            }
            i = i + 1;
        }
        assert(evs.take(i as int) =~= evs);
        self.events = Vec::new();
        assert(self@ =~~= (GameView { events: Seq::empty(), ..old(self)@ }));
        out
    }

    /// Whether the game has ended (topped out or won).
    pub fn is_over(&self) -> (r: bool)
        ensures
            r == ended(self@),
    {
        self.progress.game_over || self.progress.game_won
    }
}


// ---------------------------------------------------------------------------
// Laws
// ---------------------------------------------------------------------------

/// A game that has ended stays as it is: a tick or a frame only forgets
/// the events of the one before.
#[verifier::spinoff_prover]
#[verifier::rlimit(30)]
pub proof fn law_ended_game_is_frozen(s: GameView, input: InputSnapshot, drawn: PieceKind)
    requires
        ended(s),
    ensures
        spec_frame(s, input, drawn) == (GameView {
            tick_start: None,
            events: Seq::empty(),
            judge_events: Seq::empty(),
            ..s
        }),
        spec_tick(s, input, drawn) == (GameView {
            tick_start: None,
            events: Seq::empty(),
            judge_events: Seq::empty(),
            ..s
        }),
{
}

/// The active-piece phase of the one-phase tick changes neither the tick
/// count nor lowers the level or the lines; the level stays within 999.
proof fn lemma_tick_active_step_keeps(s: GameView, input: InputSnapshot)
    ensures
        tick_active_step(s, input).ticks == s.ticks,
        0 <= s.level <= 999 ==> s.level <= tick_active_step(s, input).level <= 999,
        s.lines <= tick_active_step(s, input).lines,
{
    let s1 = rotate_step(s, input);
    assert(s1.ticks == s.ticks && s1.level == s.level && s1.lines == s.lines);
    if input.just_pressed.has(GameKey::SonicDrop) {
        assert(sonic_lock_step(s1).ticks == s.ticks && sonic_lock_step(s1).level == s.level);
    } else if input.held.has(GameKey::SoftDrop) && s1.phase is Locking {
        lemma_lock_step_keeps(GameView { soft_frames: s1.soft_frames + 1, ..s1 }, input);
    } else {
        let s2 = if input.held.has(GameKey::SoftDrop) {
            soft_drop_move(GameView { soft_frames: s1.soft_frames + 1, ..s1 })
        } else {
            s1
        };
        assert(s2.ticks == s.ticks && s2.level == s.level && s2.lines == s.lines);
        lemma_fall_step_keeps(s2, input);
    }
}

/// While the game runs, each one-phase tick adds one to the elapsed ticks.
#[verifier::spinoff_prover]
#[verifier::rlimit(30)]
pub proof fn law_tick_counts_one(s: GameView, input: InputSnapshot, drawn: PieceKind)
    requires
        !ended(s),
    ensures
        spec_tick(s, input, drawn).ticks == s.ticks + 1,
{
    lemma_tick_active_step_keeps(tick_begin(s), input);
}

/// A one-phase tick never lowers the level or the count of cleared lines,
/// and the level never passes 999.
#[verifier::spinoff_prover]
#[verifier::rlimit(30)]
pub proof fn law_tick_keeps_level_and_lines(s: GameView, input: InputSnapshot, drawn: PieceKind)
    requires
        0 <= s.level <= 999,
    ensures
        s.level <= spec_tick(s, input, drawn).level <= 999,
        s.lines <= spec_tick(s, input, drawn).lines,
{
    lemma_tick_active_step_keeps(tick_begin(s), input);
}

/// A one-phase tick never lowers the score or the best grade reached.
#[verifier::spinoff_prover]
#[verifier::rlimit(30)]
pub proof fn law_tick_never_lowers_score(s: GameView, input: InputSnapshot, drawn: PieceKind)
    requires
        s.judge.combo >= 1,
        tick_in_range(s, input),
    ensures
        spec_tick(s, input, drawn).judge.score >= s.judge.score,
        grade_rank(spec_tick(s, input, drawn).judge.best_grade) >= grade_rank(s.judge.best_grade),
{
    let m = tick_phases(s, input, drawn);
    if !ended(s) && !in_play(s.phase) {
        assert(m.judge_events =~= Seq::<JudgeEvent>::empty());
    }
    lemma_judge_after_never_loses_ground(s.judge, m.judge_events);
}

/// When the line-clear delay runs out in a one-phase tick, the rows that
/// were full are gone and no row of the board is full.
#[verifier::spinoff_prover]
#[verifier::rlimit(30)]
pub proof fn law_tick_line_clear_leaves_no_full_row(s: GameView, input: InputSnapshot, drawn: PieceKind)
    requires
        game_wf(s),
        !ended(s),
        s.phase == (PiecePhase::LineClearDelay { ticks_left: 0 }),
    ensures
        forall|r: int| 0 <= r < BOARD_ROWS ==> !row_full(spec_tick(s, input, drawn).board, r),
{
    law_clearing_leaves_no_full_row(s.board);
    lemma_full_rows_below(s.board, BOARD_ROWS as int);
    let t = spec_tick(s, input, drawn);
    if s.pending.len() > 0 {
        assert(t.board == compacted(s.board, full_rows(s.board)));
    } else {
        assert(t.board == s.board);
        assert forall|r: int| 0 <= r < BOARD_ROWS implies !row_full(t.board, r) by {
            if row_full(s.board, r) {
                assert(full_rows(s.board).contains(r as usize));
            }
        }
    }
}

/// A lock that clears rows ends the one-phase tick in the full line-clear
/// delay, the full rows waiting and still on the board; one that clears
/// none ends it in the full spawn delay.
pub proof fn law_tick_lock_starts_full_delay(s: GameView, input: InputSnapshot)
    requires
        !ended(s),
    ensures
        ({
            let l = lock_step(s, input);
            &&& full_rows(l.board).len() > 0 ==> l.phase == (PiecePhase::LineClearDelay {
                ticks_left: LINE_CLEAR_DELAY,
            }) && l.pending == full_rows(l.board)
            &&& full_rows(l.board).len() == 0 ==> l.phase == (PiecePhase::Spawning {
                ticks_left: SPAWN_DELAY_NORMAL,
            })
        }),
{
}

/// While the game runs, each tick adds one to the elapsed ticks.
#[verifier::spinoff_prover]
#[verifier::rlimit(30)]
pub proof fn law_frame_counts_one(s: GameView, input: InputSnapshot, drawn: PieceKind)
    requires
        !ended(s),
    ensures
        spec_frame(s, input, drawn).ticks == s.ticks + 1,
{
    let s1 = GameView {
        tick_start: Some(s.phase),
        ticks: s.ticks + 1,
        events: Seq::empty(),
        judge_events: Seq::empty(),
        ..s
    };
    if in_play(s1.phase) {
        lemma_active_step_keeps(s1, input);
    }
}

/// The active-piece phase changes neither the tick count nor lowers the
/// level or the lines; the level stays within 999.
proof fn lemma_active_step_keeps(s: GameView, input: InputSnapshot)
    ensures
        active_step(s, input).ticks == s.ticks,
        0 <= s.level <= 999 ==> s.level <= active_step(s, input).level <= 999,
        s.lines <= active_step(s, input).lines,
{
    let s1 = rotate_step(s, input);
    assert(s1.ticks == s.ticks && s1.level == s.level && s1.lines == s.lines);
    if input.just_pressed.has(GameKey::SonicDrop) {
        assert(sonic_step(s1).ticks == s.ticks && sonic_step(s1).level == s.level);
    } else if input.held.has(GameKey::SoftDrop) && s1.phase is Locking {
        lemma_lock_step_keeps(GameView { soft_frames: s1.soft_frames + 1, ..s1 }, input);
    } else {
        let s2 = if input.held.has(GameKey::SoftDrop) {
            soft_drop_move(GameView { soft_frames: s1.soft_frames + 1, ..s1 })
        } else {
            s1
        };
        assert(s2.ticks == s.ticks && s2.level == s.level && s2.lines == s.lines);
        lemma_fall_step_keeps(s2, input);
    }
}

/// DAS, gravity and the lock delay keep the tick count and do not lower the
/// level or the lines.
proof fn lemma_fall_step_keeps(s: GameView, input: InputSnapshot)
    ensures
        fall_step(s, input).ticks == s.ticks,
        0 <= s.level <= 999 ==> s.level <= fall_step(s, input).level <= 999,
        s.lines <= fall_step(s, input).lines,
{
    let s3 = das_step(s, input);
    assert(s3.ticks == s.ticks && s3.level == s.level && s3.lines == s.lines);
    let s4 = gravity_step(s3);
    assert(s4.ticks == s.ticks && s4.level == s.level && s4.lines == s.lines);
    lemma_lock_step_keeps(s4, input);
}

/// Locking keeps the tick count, does not lower the level or the lines,
/// and keeps the level within 999.
proof fn lemma_lock_step_keeps(s: GameView, input: InputSnapshot)
    ensures
        lock_step(s, input).ticks == s.ticks,
        0 <= s.level <= 999 ==> s.level <= lock_step(s, input).level <= 999,
        s.lines <= lock_step(s, input).lines,
{
}

/// The level never falls during a game and never passes 999, and the count
/// of cleared lines never falls.
#[verifier::spinoff_prover]
#[verifier::rlimit(30)]
pub proof fn law_level_and_lines_never_fall(s: GameView, input: InputSnapshot, drawn: PieceKind)
    requires
        0 <= s.level <= 999,
    ensures
        s.level <= spec_frame(s, input, drawn).level <= 999,
        s.lines <= spec_frame(s, input, drawn).lines,
{
    if !ended(s) {
        let s1 = GameView {
            tick_start: Some(s.phase),
            ticks: s.ticks + 1,
            events: Seq::empty(),
            judge_events: Seq::empty(),
            ..s
        };
        if in_play(s1.phase) {
            lemma_active_step_keeps(s1, input);
        }
    }
}


/// A sonic drop leaves a fitting piece resting on the stack or the floor:
/// it still fits, and one row lower it would not.
pub proof fn law_sonic_drop_lands(s: GameView)
    requires
        piece_fits(s),
    ensures
        piece_fits(sonic_step(s)),
        !fits_here(sonic_step(s), sonic_step(s).active.col as int, sonic_step(s).active.row + 1),
        sonic_step(s).active.row >= s.active.row,
{
    let shape = active_shape(s);
    lemma_active_shape(s);
    lemma_landing_row(s.board, shape, s.active.col as int, s.active.row as int);
    let land = landing_row(s.board, shape, s.active.col as int, s.active.row as int);
    assert(fits_at(s.board, shape, s.active.col as int, land));
    assert(shape[0] == shape[0]);
    assert(active_shape(sonic_step(s)) == shape);
}

/// With enough rows of drop allowed, dropping stops exactly at the landing
/// row.
proof fn lemma_drop_by_reaches_landing(
    b: Seq<Seq<Option<PieceKind>>>,
    shape: Seq<(i32, i32)>,
    col: int,
    row: int,
    n: int,
)
    requires
        shape.len() == 4,
        offsets_in_box(shape),
        fits_at(b, shape, col, row),
        n >= landing_row(b, shape, col, row) - row,
    ensures
        drop_by(b, shape, col, row, n) == landing_row(b, shape, col, row),
    decreases n,
{
    assert(shape[0] == shape[0]);
    if fits_at(b, shape, col, row + 1) {
        lemma_landing_row(b, shape, col, row + 1);
        lemma_drop_by_reaches_landing(b, shape, col, row + 1, n - 1);
    }
}

/// At twenty rows per tick or more (20G), gravity brings a fitting piece
/// straight to its landing row.
pub proof fn law_twenty_g_lands_at_once(s: GameView)
    requires
        piece_fits(s),
        0 <= s.gravity_acc < 256,
        spec_gravity_g(s.mode, s.level) >= TWENTY_G,
    ensures
        gravity_step(s).active.row == landing_row(
            s.board,
            active_shape(s),
            s.active.col as int,
            s.active.row as int,
        ),
{
    let shape = active_shape(s);
    lemma_active_shape(s);
    lemma_landing_row(s.board, shape, s.active.col as int, s.active.row as int);
    let land = landing_row(s.board, shape, s.active.col as int, s.active.row as int);
    assert(shape[0] == shape[0]);
    assert(land - s.active.row <= 19);
    let acc = s.gravity_acc + spec_gravity_g(s.mode, s.level);
    assert(acc / 256 >= 20);
    lemma_drop_by_reaches_landing(s.board, shape, s.active.col as int, s.active.row as int, acc / 256);
}


/// Judging a run of events never lowers the score or the best grade, and
/// keeps the combo at one or more.
proof fn lemma_judge_after_never_loses_ground(j: JudgeView, evs: Seq<JudgeEvent>)
    requires
        j.combo >= 1,
        judge_events_in_range(j, evs),
    ensures
        judge_after(j, evs).score >= j.score,
        grade_rank(judge_after(j, evs).best_grade) >= grade_rank(j.best_grade),
        judge_after(j, evs).combo >= 1,
    decreases evs.len(),
{
    if evs.len() > 0 {
        law_judge_never_loses_ground(j, evs[0]);
        lemma_judge_after_never_loses_ground(spec_on_event(j, evs[0]), evs.drop_first());
    }
}

/// A tick never lowers the score or the best grade reached.
#[verifier::spinoff_prover]
#[verifier::rlimit(30)]
pub proof fn law_frame_never_lowers_score(s: GameView, input: InputSnapshot, drawn: PieceKind)
    requires
        s.judge.combo >= 1,
        frame_in_range(s, input),
    ensures
        spec_frame(s, input, drawn).judge.score >= s.judge.score,
        grade_rank(spec_frame(s, input, drawn).judge.best_grade) >= grade_rank(s.judge.best_grade),
{
    let m = frame_phases(s, input, drawn);
    if !ended(s) {
        assert(m.judge_events == pre_spawn(s, input).judge_events);
    }
    lemma_judge_after_never_loses_ground(s.judge, m.judge_events);
}


/// Locking with no rows waiting leaves the waiting rows as they should be.
proof fn lemma_lock_step_pending(s: GameView, input: InputSnapshot)
    requires
        s.pending.len() == 0,
    ensures
        pending_ok(lock_step(s, input)),
{
}

/// DAS, gravity and the lock delay keep the waiting rows as they should be.
proof fn lemma_fall_step_pending(s: GameView, input: InputSnapshot)
    requires
        in_play(s.phase),
        s.pending.len() == 0,
    ensures
        pending_ok(fall_step(s, input)),
{
    let s3 = das_step(s, input);
    assert(s3.pending == s.pending && s3.phase == s.phase);
    let s4 = gravity_step(s3);
    assert(s4.pending == s.pending && s4.phase == s.phase);
    lemma_lock_step_pending(s4, input);
}

/// The active-piece phase keeps the waiting rows as they should be.
proof fn lemma_active_step_pending(s: GameView, input: InputSnapshot)
    requires
        in_play(s.phase),
        pending_ok(s),
    ensures
        pending_ok(active_step(s, input)),
{
    let s1 = rotate_step(s, input);
    assert(s1.pending == s.pending && s1.phase == s.phase);
    if input.just_pressed.has(GameKey::SonicDrop) {
        assert(sonic_step(s1).pending == s.pending);
    } else if input.held.has(GameKey::SoftDrop) && s1.phase is Locking {
        lemma_lock_step_pending(GameView { soft_frames: s1.soft_frames + 1, ..s1 }, input);
    } else {
        let s2 = if input.held.has(GameKey::SoftDrop) {
            soft_drop_move(GameView { soft_frames: s1.soft_frames + 1, ..s1 })
        } else {
            s1
        };
        assert(s2.pending == s.pending && s2.phase == s.phase);
        lemma_fall_step_pending(s2, input);
    }
}

/// The active-piece phase of the one-phase tick keeps the waiting rows as
/// they should be.
proof fn lemma_tick_active_step_pending(s: GameView, input: InputSnapshot)
    requires
        in_play(s.phase),
        pending_ok(s),
    ensures
        pending_ok(tick_active_step(s, input)),
{
    let s1 = rotate_step(s, input);
    assert(s1.pending == s.pending && s1.phase == s.phase);
    if input.just_pressed.has(GameKey::SonicDrop) {
        assert(sonic_lock_step(s1).pending == s.pending);
    } else if input.held.has(GameKey::SoftDrop) && s1.phase is Locking {
        lemma_lock_step_pending(GameView { soft_frames: s1.soft_frames + 1, ..s1 }, input);
    } else {
        let s2 = if input.held.has(GameKey::SoftDrop) {
            soft_drop_move(GameView { soft_frames: s1.soft_frames + 1, ..s1 })
        } else {
            s1
        };
        assert(s2.pending == s.pending && s2.phase == s.phase);
        lemma_fall_step_pending(s2, input);
    }
}

/// The tick up to the spawn delay keeps the waiting rows as they should be.
proof fn lemma_pre_spawn_pending(s: GameView, input: InputSnapshot)
    requires
        pending_ok(s),
    ensures
        pending_ok(pre_spawn(s, input)),
{
    let s1 = GameView {
        tick_start: Some(s.phase),
        ticks: s.ticks + 1,
        events: Seq::empty(),
        judge_events: Seq::empty(),
        ..s
    };
    if in_play(s1.phase) {
        lemma_active_step_pending(s1, input);
    }
}

/// When the line-clear delay of a running game ends, the rows that were
/// full are gone and no row of the board is full.
#[verifier::spinoff_prover]
#[verifier::rlimit(30)]
pub proof fn law_line_clear_leaves_no_full_row(s: GameView, input: InputSnapshot, drawn: PieceKind)
    requires
        game_wf(s),
        !ended(s),
        s.phase == (PiecePhase::LineClearDelay { ticks_left: 0 }),
    ensures
        forall|r: int| 0 <= r < BOARD_ROWS ==> !row_full(spec_frame(s, input, drawn).board, r),
{
    law_clearing_leaves_no_full_row(s.board);
    lemma_full_rows_below(s.board, BOARD_ROWS as int);
    let t = spec_frame(s, input, drawn);
    if s.pending.len() > 0 {
        assert(t.board == compacted(s.board, full_rows(s.board)));
    } else {
        assert(t.board == s.board);
        assert forall|r: int| 0 <= r < BOARD_ROWS implies !row_full(t.board, r) by {
            if row_full(s.board, r) {
                assert(full_rows(s.board).contains(r as usize));
            }
        }
    }
}

/// A turn keeps the board and keeps a fitting piece fitting.
proof fn lemma_rotated_fits(s: GameView, dir: RotationDirection)
    requires
        piece_ok(s),
        piece_fits(s),
    ensures
        rotated(s, dir).board == s.board,
        rotated(s, dir).phase == s.phase,
        rotated(s, dir).rotation_kind == s.rotation_kind,
        piece_ok(rotated(s, dir)),
        piece_fits(rotated(s, dir)),
{
    let st = PieceState {
        kind: s.active.kind,
        rotation: s.active.rotation,
        col: s.active.col,
        row: s.active.row,
    };
    if system_try_rotate(s.rotation_kind, st, dir, s.board) is Some {
        let n = system_try_rotate(s.rotation_kind, st, dir, s.board)->0;
        lemma_try_rotate_sound(s.rotation_kind, st, dir, s.board);
        lemma_tables_in_box(st.kind, n.rotation as int);
        lemma_fits_near_board(
            s.board,
            system_cells(s.rotation_kind, st.kind, n.rotation as int),
            n.col as int,
            n.row as int,
        );
    }
}

/// DAS and gravity keep the board and the phase, and keep a fitting piece
/// fitting.
proof fn lemma_das_gravity_fit(s: GameView, input: InputSnapshot)
    requires
        piece_fits(s),
    ensures
        das_step(s, input).board == s.board,
        das_step(s, input).phase == s.phase,
        piece_fits(das_step(s, input)),
        gravity_step(das_step(s, input)).board == s.board,
        gravity_step(das_step(s, input)).phase == s.phase,
        piece_fits(gravity_step(das_step(s, input))),
{
    let s3 = das_step(s, input);
    let shape = active_shape(s3);
    let acc = s3.gravity_acc + spec_gravity_g(s3.mode, s3.level);
    lemma_drop_by(s3.board, shape, s3.active.col as int, s3.active.row as int, acc / 256);
}

/// Lock-delay bookkeeping on a fitting piece: while the piece stays in play
/// the board is unchanged and the piece fits; otherwise it has locked where
/// it stood and the line-clear or spawn delay has begun.
proof fn lemma_settle_fit(s: GameView, moved_down: bool, input: InputSnapshot)
    requires
        piece_fits(s),
        in_play(s.phase),
    ensures
        ({
            let t = settle_step(s, moved_down, input);
            &&& t.active == s.active
            &&& in_play(t.phase) ==> t.board == s.board && piece_fits(t)
            &&& !in_play(t.phase) ==> (t.phase is Spawning || t.phase is LineClearDelay) && t.board
                == locked_board(s.board, active_shape(s), s.active.col as int, s.active.row as int, s.active.kind)
        }),
{
}

/// The active-piece phase never moves a piece into a wall or a filled
/// cell: a fitting piece that stays in play still fits on the unchanged
/// board; a piece that locks joins the board where it stood, and the
/// line-clear or spawn delay begins.
#[verifier::spinoff_prover]
#[verifier::rlimit(40)]
pub proof fn law_active_phase_keeps_fit(s: GameView, input: InputSnapshot, restart: bool)
    requires
        piece_ok(s),
        piece_fits(s),
        in_play(s.phase),
    ensures
        ({
            let t = active_step_with(s, input, restart);
            &&& in_play(t.phase) ==> t.board == s.board && piece_fits(t)
            &&& !in_play(t.phase) ==> (t.phase is Spawning || t.phase is LineClearDelay) && t.board
                == locked_board(s.board, active_shape(t), t.active.col as int, t.active.row as int, t.active.kind)
        }),
{
    let s1 = rotate_step(s, input);
    if input.just_pressed.has(GameKey::RotateCw) {
        lemma_rotated_fits(s, RotationDirection::Clockwise);
    } else if input.just_pressed.has(GameKey::RotateCcw) {
        lemma_rotated_fits(s, RotationDirection::Counterclockwise);
    }
    assert(s1.board == s.board && piece_fits(s1) && s1.phase == s.phase);
    if input.just_pressed.has(GameKey::SonicDrop) {
        let shape = active_shape(s1);
        lemma_landing_row(s1.board, shape, s1.active.col as int, s1.active.row as int);
        assert(piece_fits(sonic_step(s1)));
        assert(piece_fits(sonic_lock_step(s1)));
    } else if input.held.has(GameKey::SoftDrop) && s1.phase is Locking {
        let x = GameView { soft_frames: s1.soft_frames + 1, ..s1 };
        assert(active_shape(lock_step(x, input)) == active_shape(x));
    } else {
        let s2 = if input.held.has(GameKey::SoftDrop) {
            soft_drop_move(GameView { soft_frames: s1.soft_frames + 1, ..s1 })
        } else {
            s1
        };
        assert(s2.board == s.board && piece_fits(s2) && s2.phase == s.phase);
        lemma_das_gravity_fit(s2, input);
        let s3 = das_step(s2, input);
        let s4 = gravity_step(s3);
        lemma_settle_fit(s4, s4.active.row > s3.active.row, input);
    }
}

/// The lock delay of a piece in play, when neither a sonic drop nor a soft
/// drop on a locking piece ends the phase first: after rotation, soft drop,
/// DAS and gravity (`g`), a falling piece that lands starts locking with
/// the full delay; a piece off the floor falls; a locking piece that
/// dropped and landed again restarts the full delay; otherwise the delay
/// counts down and, once run out, the piece locks.
pub proof fn law_lock_delay_transitions(s: GameView, input: InputSnapshot, restart: bool)
    requires
        in_play(s.phase),
        !input.just_pressed.has(GameKey::SonicDrop),
        !(input.held.has(GameKey::SoftDrop) && s.phase is Locking),
    ensures
        ({
            let s1 = rotate_step(s, input);
            let s2 = if input.held.has(GameKey::SoftDrop) {
                soft_drop_move(GameView { soft_frames: s1.soft_frames + 1, ..s1 })
            } else {
                s1
            };
            let s3 = das_step(s2, input);
            let g = gravity_step(s3);
            let on_floor = !fits_here(g, g.active.col as int, g.active.row + 1);
            let moved = g.active.row > s3.active.row;
            let t = active_step_with(s, input, restart);
            &&& s.phase is Falling && on_floor ==> t.phase == (PiecePhase::Locking {
                ticks_left: LOCK_DELAY,
            }) && t.events == g.events.push(GameEvent::PieceBeganLocking)
            &&& s.phase is Falling && !on_floor ==> t.phase is Falling
            &&& s.phase is Locking && !on_floor ==> t.phase is Falling
            &&& s.phase is Locking && on_floor && moved ==> t.phase == (PiecePhase::Locking {
                ticks_left: LOCK_DELAY,
            })
            &&& s.phase == (PiecePhase::Locking { ticks_left: 0 }) && on_floor && !moved ==> t
                == lock_step(g, input)
            &&& match s.phase {
                PiecePhase::Locking { ticks_left } => ticks_left > 0 && on_floor && !moved
                    ==> t.phase == (PiecePhase::Locking { ticks_left: (ticks_left - 1) as u32 }),
                _ => true,
            }
        }),
{
    let s1 = rotate_step(s, input);
    assert(s1.phase == s.phase);
}

/// `n` one-phase ticks in a row on the same `input`, dealing `drawn`
/// whenever a piece spawns.
pub open spec fn ticks_on(s: GameView, input: InputSnapshot, n: nat, drawn: PieceKind) -> GameView
    decreases n,
{
    if n == 0 {
        s
    } else {
        ticks_on(spec_tick(s, input, drawn), input, (n - 1) as nat, drawn)
    }
}

/// No key is held and none goes down.
pub open spec fn no_keys(input: InputSnapshot) -> bool {
    forall|k: GameKey| !input.held.has(k) && !input.just_pressed.has(k)
}

/// The piece rests on the stack or the floor: it fits, and one row lower
/// it would not.
pub open spec fn resting(s: GameView) -> bool {
    piece_fits(s) && !fits_here(s, s.active.col as int, s.active.row + 1)
}

/// One idle tick of a resting piece in play: the board and the piece stay;
/// a falling piece starts its lock delay, a locking one counts it down,
/// and one whose delay has run out locks.
proof fn lemma_idle_tick_resting(s: GameView, input: InputSnapshot, drawn: PieceKind)
    requires
        !ended(s),
        in_play(s.phase),
        resting(s),
        no_keys(input),
    ensures
        ({
            let t = spec_tick(s, input, drawn);
            &&& s.phase is Falling ==> t.phase == (PiecePhase::Locking { ticks_left: LOCK_DELAY })
            &&& match s.phase {
                PiecePhase::Locking { ticks_left } => ticks_left > 0 ==> t.phase == (PiecePhase::Locking {
                    ticks_left: (ticks_left - 1) as u32,
                }),
                _ => true,
            }
            &&& s.phase == (PiecePhase::Locking { ticks_left: 0 }) ==> (t.phase is Spawning
                || t.phase is LineClearDelay)
            &&& in_play(t.phase) ==> t.board == s.board && t.active == s.active && !ended(t)
                && t.rotation_kind == s.rotation_kind
        }),
{
    assert(!input.just_pressed.has(GameKey::RotateCw));
    assert(!input.just_pressed.has(GameKey::RotateCcw));
    assert(!input.just_pressed.has(GameKey::SonicDrop));
    assert(!input.held.has(GameKey::SoftDrop));
    assert(!input.held.has(GameKey::Left));
    assert(!input.held.has(GameKey::Right));
    let s1 = tick_begin(s);
    let s3 = das_step(s1, input);
    let acc = s3.gravity_acc + spec_gravity_g(s3.mode, s3.level);
    assert(drop_by(s3.board, active_shape(s3), s3.active.col as int, s3.active.row as int, acc / 256)
        == s3.active.row);
    let g = gravity_step(s3);
    assert(g.active == s.active && g.board == s.board);
    assert(!fits_here(g, g.active.col as int, g.active.row + 1));
}

/// An idle piece resting on the stack or the floor starts its lock delay
/// on the first tick, counts it down one a tick, and locks on tick
/// `LOCK_DELAY + 2`, the board and the piece unchanged until then.
pub proof fn law_idle_resting_piece_locks(s: GameView, input: InputSnapshot, drawn: PieceKind, k: nat)
    requires
        !ended(s),
        s.phase is Falling,
        resting(s),
        no_keys(input),
        1 <= k <= LOCK_DELAY + 2,
    ensures
        k <= LOCK_DELAY + 1 ==> ticks_on(s, input, k, drawn).phase == (PiecePhase::Locking {
            ticks_left: (LOCK_DELAY + 1 - k) as u32,
        }) && ticks_on(s, input, k, drawn).board == s.board && ticks_on(s, input, k, drawn).active
            == s.active,
        k == LOCK_DELAY + 2 ==> (ticks_on(s, input, k, drawn).phase is Spawning || ticks_on(
            s,
            input,
            k,
            drawn,
        ).phase is LineClearDelay),
{
    lemma_idle_tick_resting(s, input, drawn);
    let t = spec_tick(s, input, drawn);
    assert(resting(t));
    lemma_idle_locking(t, input, drawn, (k - 1) as nat);
}

/// Idle ticks of a resting locking piece count its lock delay down and
/// lock it once the delay has run out.
proof fn lemma_idle_locking(s: GameView, input: InputSnapshot, drawn: PieceKind, k: nat)
    requires
        !ended(s),
        resting(s),
        no_keys(input),
        s.phase matches PiecePhase::Locking { ticks_left } && k <= ticks_left + 1,
    ensures
        ({
            let t = ticks_on(s, input, k, drawn);
            let n = s.phase->Locking_ticks_left;
            &&& k <= n ==> t.phase == (PiecePhase::Locking { ticks_left: (n - k) as u32 })
                && t.board == s.board && t.active == s.active
            &&& k == n + 1 ==> (t.phase is Spawning || t.phase is LineClearDelay)
        }),
    decreases k,
{
    if k > 0 {
        lemma_idle_tick_resting(s, input, drawn);
        let t = spec_tick(s, input, drawn);
        let n = s.phase->Locking_ticks_left;
        if n > 0 {
            assert(resting(t));
            lemma_idle_locking(t, input, drawn, (k - 1) as nat);
        } else {
            assert(ticks_on(t, input, 0, drawn) == t);
        }
    }
}

/// The counters leave room for one more tick or frame: the tick count,
/// lines, DAS, soft-drop and sonic-drop counts can take what one tick adds,
/// and so can the judge's arithmetic for a clear of up to a board's rows
/// with a combo raised by up to 38.
pub open spec fn counters_leave_room(s: GameView) -> bool {
    &&& 0 <= s.level
    &&& s.ticks + 1 <= u64::MAX
    &&& 0 <= s.lines
    &&& s.lines + 20 <= u32::MAX
    &&& 0 <= s.das_counter
    &&& s.das_counter + 2 <= u32::MAX
    &&& 0 <= s.soft_frames
    &&& 0 <= s.sonic_rows
    &&& s.sonic_rows + 23 <= u32::MAX
    &&& 0 <= s.judge.combo
    &&& 0 <= s.judge.score
    &&& 250 + s.soft_frames + 1 + 2 * s.sonic_rows <= u32::MAX
    &&& s.judge.combo + 38 <= u32::MAX
    &&& s.judge.score + (250 + s.soft_frames + 1 + 2 * s.sonic_rows) * 80 * (s.judge.combo + 38)
        <= u32::MAX
}

/// A judge event of one tick whose soft-drop count stood at `soft` and
/// sonic-drop count at `sonic`: a lock without a clear, or a clear at a
/// level of at most 999, of at most a board's rows, with at most one more
/// soft-drop frame and the sonic rows as they stood.
pub open spec fn tick_event_bounded(ev: JudgeEvent, soft: int, sonic: int) -> bool {
    match ev {
        JudgeEvent::LockedWithoutClear => true,
        JudgeEvent::ClearedLines { level, num_lines, frames_soft_drop_held, sonic_drop_rows, .. } => {
            &&& level <= 999
            &&& 1 <= num_lines <= BOARD_ROWS
            &&& frames_soft_drop_held <= soft + 1
            &&& sonic_drop_rows <= sonic
        },
    }
}

/// `after` is `before`, or `before` with one more event bounded as
/// `tick_event_bounded` says.
pub open spec fn adds_bounded_event(
    before: Seq<JudgeEvent>,
    after: Seq<JudgeEvent>,
    soft: int,
    sonic: int,
) -> bool {
    ||| after == before
    ||| after.len() == before.len() + 1 && after.drop_last() == before && tick_event_bounded(
        after.last(),
        soft,
        sonic,
    )
}

/// The counters a phase of one tick may move, and by how much: the lines
/// by a board's rows, the DAS count, the soft-drop frames by one, the
/// sonic-drop rows by 23, and at most one bounded judge event.
pub open spec fn within_tick_bounds(s: GameView, t: GameView) -> bool {
    &&& t.ticks == s.ticks
    &&& s.lines <= t.lines <= s.lines + BOARD_ROWS
    &&& 0 <= t.das_counter <= s.das_counter + 1
    &&& s.soft_frames <= t.soft_frames <= s.soft_frames + 1
    &&& s.sonic_rows <= t.sonic_rows <= s.sonic_rows + 23
    &&& adds_bounded_event(s.judge_events, t.judge_events, s.soft_frames, s.sonic_rows)
}

/// A sonic drop moves the piece down by at most 23 rows.
proof fn lemma_landing_within(s: GameView)
    ensures
        s.active.row <= landing_row(s.board, active_shape(s), s.active.col as int, s.active.row as int)
            <= s.active.row + 23,
{
    lemma_active_shape(s);
    let shape = active_shape(s);
    let col = s.active.col as int;
    let row = s.active.row as int;
    lemma_landing_row(s.board, shape, col, row);
    let l = landing_row(s.board, shape, col, row);
    if l != row {
        assert(row < BOARD_ROWS && fits_at(s.board, shape, col, row + 1));
        lemma_fits_near_board(s.board, shape, col, row + 1);
        lemma_fits_near_board(s.board, shape, col, l);
    }
}

/// Locking stays within the bounds of one tick.
proof fn lemma_lock_step_bounds(s: GameView, x: GameView, input: InputSnapshot)
    requires
        0 <= s.level,
        x.level == s.level,
        x.ticks == s.ticks,
        x.lines == s.lines,
        0 <= x.das_counter <= s.das_counter + 1,
        s.soft_frames <= x.soft_frames <= s.soft_frames + 1,
        x.sonic_rows == s.sonic_rows,
        x.judge_events == s.judge_events,
        0 <= s.soft_frames,
        s.soft_frames + 1 <= u32::MAX,
        0 <= s.sonic_rows <= u32::MAX,
    ensures
        within_tick_bounds(s, lock_step(x, input)),
{
    let b1 = locked_board(x.board, active_shape(x), x.active.col as int, x.active.row as int, x.active.kind);
    lemma_full_rows_below(b1, BOARD_ROWS as int);
    let l = lock_step(x, input);
    assert(full_rows(b1).len() <= BOARD_ROWS);
    assert(l.judge_events.drop_last() =~= x.judge_events);
    let count = full_rows(b1).len() as int;
    if count > 0 {
        let level = if x.level + count < 999 {
            x.level + count
        } else {
            999
        };
        assert(l.judge_events.last() == JudgeEvent::ClearedLines {
            level: level as u32,
            cleared_playfield: playfield_cleared(b1, full_rows(b1)),
            num_lines: count as u32,
            frames_soft_drop_held: x.soft_frames as u32,
            sonic_drop_rows: x.sonic_rows as u32,
            ticks_elapsed: x.ticks as u64,
        });
        assert(level as u32 <= 999);
        assert(count as u32 == count);
        assert(x.soft_frames as u32 == x.soft_frames);
        assert(x.sonic_rows as u32 == x.sonic_rows);
        assert(tick_event_bounded(l.judge_events.last(), s.soft_frames, s.sonic_rows));
    }
    assert(s.lines <= l.lines <= s.lines + BOARD_ROWS);
    assert(0 <= l.das_counter <= s.das_counter + 1);
    assert(adds_bounded_event(s.judge_events, l.judge_events, s.soft_frames, s.sonic_rows));
}

/// DAS, gravity and the lock delay stay within the bounds of one tick.
proof fn lemma_fall_step_bounds(s: GameView, x: GameView, input: InputSnapshot)
    requires
        0 <= s.level,
        x.level == s.level,
        x.ticks == s.ticks,
        x.lines == s.lines,
        x.das_counter == s.das_counter,
        0 <= s.das_counter,
        s.soft_frames <= x.soft_frames <= s.soft_frames + 1,
        x.sonic_rows == s.sonic_rows,
        x.judge_events == s.judge_events,
        0 <= s.soft_frames,
        s.soft_frames + 1 <= u32::MAX,
        0 <= s.sonic_rows <= u32::MAX,
    ensures
        within_tick_bounds(s, fall_step(x, input)),
{
    let s3 = das_step(x, input);
    let s4 = gravity_step(s3);
    assert(0 <= s4.das_counter <= s.das_counter + 1);
    let moved = s4.active.row > s3.active.row;
    lemma_lock_step_bounds(s, s4, input);
}

/// The active-piece phase stays within the bounds of one tick.
#[verifier::spinoff_prover]
#[verifier::rlimit(30)]
proof fn lemma_active_step_bounds(s: GameView, input: InputSnapshot, restart: bool)
    requires
        0 <= s.level,
        0 <= s.das_counter,
        0 <= s.soft_frames,
        s.soft_frames + 1 <= u32::MAX,
        0 <= s.sonic_rows <= u32::MAX,
    ensures
        within_tick_bounds(s, active_step_with(s, input, restart)),
{
    let s1 = rotate_step(s, input);
    assert(s1.ticks == s.ticks && s1.lines == s.lines && s1.das_counter == s.das_counter
        && s1.soft_frames == s.soft_frames && s1.sonic_rows == s.sonic_rows && s1.judge_events
        == s.judge_events);
    if input.just_pressed.has(GameKey::SonicDrop) {
        lemma_landing_within(s1);
    } else if input.held.has(GameKey::SoftDrop) && s1.phase is Locking {
        lemma_lock_step_bounds(s, GameView { soft_frames: s1.soft_frames + 1, ..s1 }, input);
    } else {
        let s2 = if input.held.has(GameKey::SoftDrop) {
            soft_drop_move(GameView { soft_frames: s1.soft_frames + 1, ..s1 })
        } else {
            s1
        };
        lemma_fall_step_bounds(s, s2, input);
    }
}

/// The tick of a frame up to the spawn delay stays within the bounds of
/// one tick, past the counter's advance.
proof fn lemma_pre_spawn_bounds(s: GameView, input: InputSnapshot)
    requires
        0 <= s.level,
        0 <= s.das_counter,
        0 <= s.soft_frames,
        s.soft_frames + 1 <= u32::MAX,
        0 <= s.sonic_rows <= u32::MAX,
    ensures
        within_tick_bounds(tick_begin(s), pre_spawn(s, input)),
{
    let s1 = tick_begin(s);
    assert(s1 == (GameView {
        tick_start: Some(s.phase),
        ticks: s.ticks + 1,
        events: Seq::empty(),
        judge_events: Seq::empty(),
        ..s
    }));
    if in_play(s1.phase) {
        lemma_active_step_bounds(s1, input, false);
    }
}

/// The score arithmetic of one bounded clear stays within `u32` when the
/// bounds of the checker hold.
proof fn lemma_bounded_event_in_range(j: JudgeView, ev: JudgeEvent, soft: int, sonic: int)
    requires
        tick_event_bounded(ev, soft, sonic),
        0 <= j.combo,
        0 <= j.score,
        0 <= soft,
        0 <= sonic,
        250 + soft + 1 + 2 * sonic <= u32::MAX,
        j.combo + 38 <= u32::MAX,
        j.score + (250 + soft + 1 + 2 * sonic) * 80 * (j.combo + 38) <= u32::MAX,
    ensures
        event_in_range(j, ev),
{
    match ev {
        JudgeEvent::LockedWithoutClear => {},
        JudgeEvent::ClearedLines {
            level,
            cleared_playfield,
            num_lines,
            frames_soft_drop_held,
            sonic_drop_rows,
            ticks_elapsed,
        } => {
            let combo = j.combo + 2 * num_lines - 2;
            let bravo: int = if cleared_playfield {
                4
            } else {
                1
            };
            let b = (level + 3) / 4 + frames_soft_drop_held + 2 * sonic_drop_rows;
            let bb = 250 + soft + 1 + 2 * sonic;
            let cc = j.combo + 38;
            assert((level + 3) / 4 <= 250);
            assert(0 <= b <= bb);
            assert(0 <= combo <= cc);
            assert(b * num_lines * combo * bravo <= bb * 80 * cc) by (nonlinear_arith)
                requires
                    0 <= b <= bb,
                    1 <= num_lines <= 20,
                    0 <= combo <= cc,
                    1 <= bravo <= 4,
            {
                assert(b * num_lines <= bb * 20);
                assert(b * num_lines * combo <= bb * 20 * cc);
                assert(b * num_lines * combo * bravo <= bb * 20 * cc * 4);
            }
        },
    }
}

impl Game {
    /// Whether a frame of the game on any input keeps every counter within
    /// its machine type, the judge's arithmetic included: one frame locks
    /// at most one piece, clearing at most a board's rows, with at most one
    /// more soft-drop frame and at most 23 more sonic-drop rows. A game
    /// that passes may take `frame` on any input.
    pub fn frame_is_safe(&self) -> (r: bool)
        ensures
            r == counters_leave_room(self@),
            r ==> forall|input: InputSnapshot| frame_in_range(self@, input),
    {
        let combo = self.judge.combo() as u128 + 38;
        let score = self.judge.score() as u128;
        let soft = self.drop_tracking.soft_drop_frames as u128 + 1;
        let sonic = self.drop_tracking.sonic_drop_rows as u128;
        let base = 250 + soft + 2 * sonic;
        if !(self.progress.ticks_elapsed < u64::MAX && self.progress.lines as u128 + 20
            <= u32::MAX as u128 && self.das.counter as u128 + 2 <= u32::MAX as u128 && sonic + 23
            <= u32::MAX as u128 && combo <= u32::MAX as u128 && base <= u32::MAX as u128) {
            return false;
        }
        let points = base * 80;
        assert(points * combo <= 80 * 0xffff_ffff * 0xffff_ffff) by (nonlinear_arith)
            requires
                points <= 80 * 0xffff_ffffu128,
                combo <= 0xffff_ffffu128,
        ;
        let ok = score + points * combo <= u32::MAX as u128;
        proof {
            if ok {
                assert forall|input: InputSnapshot| frame_in_range(self@, input) by {
                    lemma_frame_in_range(self@, input);
                }
            }
        }
        ok
    }

    /// Whether a one-phase tick of the game on any input keeps every
    /// counter within its machine type, by the same bounds as
    /// `frame_is_safe`. A game that passes may take `tick` on any input.
    pub fn tick_is_safe(&self) -> (r: bool)
        ensures
            r == counters_leave_room(self@),
            r ==> forall|input: InputSnapshot| tick_in_range(self@, input),
    {
        let ok = self.frame_is_safe();
        proof {
            if ok {
                assert forall|input: InputSnapshot| tick_in_range(self@, input) by {
                    lemma_tick_in_range(self@, input);
                }
            }
        }
        ok
    }
}

/// The checker's bounds give a one-phase tick within range on any input.
#[verifier::spinoff_prover]
proof fn lemma_tick_in_range(s: GameView, input: InputSnapshot)
    requires
        counters_leave_room(s),
    ensures
        tick_in_range(s, input),
{
    reveal_with_fuel(judge_events_in_range, 2);
    let s1 = tick_begin(s);
    lemma_active_step_bounds(s1, input, true);
    let a = tick_active_step(s1, input);
    let evs = a.judge_events;
    assert(s1.judge_events == Seq::<JudgeEvent>::empty());
    if evs.len() > 0 {
        assert(evs.len() == 1);
        assert(evs.drop_last() == Seq::<JudgeEvent>::empty());
        assert(evs.last() == evs[0]);
        lemma_bounded_event_in_range(s.judge, evs[0], s.soft_frames, s.sonic_rows);
        assert(evs.drop_first() =~= Seq::<JudgeEvent>::empty());
    }
}

/// The checker's bounds give a frame within range on any input.
#[verifier::spinoff_prover]
proof fn lemma_frame_in_range(s: GameView, input: InputSnapshot)
    requires
        counters_leave_room(s),
    ensures
        frame_in_range(s, input),
{
    reveal_with_fuel(judge_events_in_range, 2);
    lemma_pre_spawn_bounds(s, input);
    let m = pre_spawn(s, input);
    let evs = m.judge_events;
    assert(tick_begin(s).judge_events == Seq::<JudgeEvent>::empty());
    if evs.len() > 0 {
        assert(evs.len() == 1);
        assert(evs.drop_last() == Seq::<JudgeEvent>::empty());
        assert(evs.last() == evs[0]);
        lemma_bounded_event_in_range(s.judge, evs[0], s.soft_frames, s.sonic_rows);
        assert(evs.drop_first() =~= Seq::<JudgeEvent>::empty());
    }
}

/// A lock that completes `k` rows adds `k` to the cleared lines and raises
/// the level by `k`, capped at 999 (a lock that completes none leaves both
/// alone); the completed rows wait to be cleared, and the judge is told of
/// the clear at the new level and with its number of lines.
pub proof fn law_clear_raises_level_by_lines(s: GameView, input: InputSnapshot)
    requires
        0 <= s.level <= 999,
    ensures
        ({
            let l = lock_step(s, input);
            let k = full_rows(l.board).len() as int;
            let capped = if s.level + k < 999 {
                s.level + k
            } else {
                999
            };
            &&& k > 0 ==> l.lines == s.lines + k && l.level == capped && l.pending == full_rows(
                l.board,
            ) && l.judge_events.len() == s.judge_events.len() + 1 && (l.judge_events.last() matches JudgeEvent::ClearedLines { level, num_lines, .. } && level == capped && num_lines == k)
            &&& k == 0 ==> l.lines == s.lines && l.level == s.level
            &&& l.game_won == (s.game_won || (k > 0 && capped == 999))
        }),
{
    let l = lock_step(s, input);
    lemma_full_rows_below(l.board, BOARD_ROWS as int);
}

/// A clearing lock reports a bravo (a cleared playfield) to the judge
/// exactly when every row of the board that the lock does not complete is
/// empty, so that once the completed rows are removed nothing is left.
pub proof fn law_clear_reports_bravo_when_board_empties(s: GameView, input: InputSnapshot)
    ensures
        ({
            let l = lock_step(s, input);
            full_rows(l.board).len() > 0 ==> (l.judge_events.last() matches JudgeEvent::ClearedLines { cleared_playfield, .. }
                && cleared_playfield == (forall|r: int|
                0 <= r < BOARD_ROWS ==> row_full(l.board, r) || row_empty(l.board, r)))
        }),
{
    let l = lock_step(s, input);
    lemma_full_rows_below(l.board, BOARD_ROWS as int);
    if full_rows(l.board).len() > 0 {
        let fr = full_rows(l.board);
        assert(playfield_cleared(l.board, fr) == (forall|r: int|
            0 <= r < BOARD_ROWS ==> row_full(l.board, r) || row_empty(l.board, r))) by {
            assert forall|r: int| 0 <= r < BOARD_ROWS implies (fr.contains(r as usize) <==> row_full(l.board, r)) by {}
        }
    }
}

} // verus!
