//! A read-only picture of a game for drawing: the board, where the active
//! piece and its ghost are, the previews, and the counters.

use vstd::prelude::*;
use crate::board::{board_model, coord_ok, offsets_in_box, vec_contains};
use crate::data::{BoardGrid, Grade, PieceKind, PiecePhase, BOARD_COLS, BOARD_ROWS};
use crate::data::spec_grade_of_score;
use crate::game::{piece_ok, Game};
use crate::rotation_system::{cells_of, preview_offset_of, system_cells, system_preview_y_offset};

verus! {

/// Whether a shape placed at (`col`, `row`) would reach below the floor or
/// overlap a locked cell. Cells beside or above the board do not count.
pub open spec fn ghost_blocked(
    b: Seq<Seq<Option<PieceKind>>>,
    shape: Seq<(i32, i32)>,
    col: int,
    row: int,
) -> bool {
    exists|i: int|
        0 <= i < shape.len() && (row + (#[trigger] shape[i]).1 >= BOARD_ROWS || (0 <= col
            + shape[i].0 < BOARD_COLS && 0 <= row + shape[i].1 && b[row + shape[i].1][col
            + shape[i].0] is Some))
}

/// The row at which the ghost of a shape dropped from `row` is drawn: it
/// moves down while the next row is not blocked.
pub open spec fn ghost_row(
    b: Seq<Seq<Option<PieceKind>>>,
    shape: Seq<(i32, i32)>,
    col: int,
    row: int,
) -> int
    decreases BOARD_ROWS - row,
{
    if row < BOARD_ROWS && !ghost_blocked(b, shape, col, row + 1) {
        ghost_row(b, shape, col, row + 1)
    } else {
        row
    }
}

/// The board cells of a shape placed at (`col`, `row`).
pub open spec fn placed(shape: Seq<(i32, i32)>, col: int, row: int) -> Seq<(i32, i32)> {
    Seq::new(shape.len(), |i: int| ((col + shape[i].0) as i32, (row + shape[i].1) as i32))
}

/// Whether the ghost check blocks the four cells `cells` at (`col`, `row`).
fn is_ghost_blocked(board: &BoardGrid, cells: &[(i32, i32); 4], col: i32, row: i32) -> (r: bool)
    requires
        coord_ok(col as int),
        coord_ok(row as int),
        offsets_in_box(cells@),
    ensures
        r == ghost_blocked(board_model(*board), cells@, col as int, row as int),
{
    let mut i: usize = 0;
    while i < 4
        invariant
            i <= 4,
            cells@.len() == 4,
            coord_ok(col as int),
            coord_ok(row as int),
            offsets_in_box(cells@),
            forall|j: int|
                0 <= j < i ==> !(row + (#[trigger] cells@[j]).1 >= BOARD_ROWS || (0 <= col
                    + cells@[j].0 < BOARD_COLS && 0 <= row + cells@[j].1 && board_model(
                    *board,
                )[row + cells@[j].1][col + cells@[j].0] is Some)),
        decreases 4 - i,
    {
        let (dc, dr) = cells[i];
        assert(cells@[i as int] == (dc, dr));
        let c = col + dc;
        let r = row + dr;
        if r >= BOARD_ROWS as i32 {
            return true;
        }
        if c >= 0 && c < BOARD_COLS as i32 && r >= 0 {
            let line = board[r as usize];
            if line[c as usize].is_some() {
                return true;
            }
        }
        i = i + 1;
    }
    false
}

/// The row at which the ghost of the piece `kind` in `rotation` under the
/// system `sys`, dropped from (`col`, `row`), is drawn.
pub fn compute_ghost_row(
    board: &BoardGrid,
    sys: crate::data::Kind,
    kind: PieceKind,
    rotation: usize,
    col: i32,
    row: i32,
) -> (g: i32)
    requires
        coord_ok(col as int),
        coord_ok(row as int),
    ensures
        g == ghost_row(board_model(*board), system_cells(sys, kind, rotation as int % 4), col as int, row as int),
        g >= row,
{
    let cells = cells_of(sys, kind, rotation);
    let ghost b = board_model(*board);
    let ghost shape = cells@;
    let mut ghost_at = row;
    loop
        invariant
            coord_ok(col as int),
            coord_ok(row as int),
            coord_ok(ghost_at as int),
            row <= ghost_at,
            cells@ == shape,
            shape.len() == 4,
            offsets_in_box(shape),
            b == board_model(*board),
            ghost_row(b, shape, col as int, ghost_at as int) == ghost_row(b, shape, col as int, row as int),
        ensures
            ghost_at as int == ghost_row(b, shape, col as int, row as int),
            row <= ghost_at,
        decreases BOARD_ROWS - ghost_at,
    {
        if ghost_at >= BOARD_ROWS as i32 {
            break;
        }
        let next = ghost_at + 1;
        if is_ghost_blocked(board, &cells, col, next) {
            break;
        }
        ghost_at = next;
    }
    ghost_at
}

/// The four board cells of `cells` placed at (`col`, `row`).
fn place(cells: &[(i32, i32); 4], col: i32, row: i32) -> (r: [(i32, i32); 4])
    requires
        coord_ok(col as int),
        coord_ok(row as int),
        offsets_in_box(cells@),
    ensures
        r@ == placed(cells@, col as int, row as int),
{
    let r = [
        (col + cells[0].0, row + cells[0].1),
        (col + cells[1].0, row + cells[1].1),
        (col + cells[2].0, row + cells[2].1),
        (col + cells[3].0, row + cells[3].1),
    ];
    assert(r@ =~= placed(cells@, col as int, row as int));
    r
}

/// What the screen shows of a game.
pub struct GameSnapshot {
    pub board: BoardGrid,
    pub active_kind: Option<PieceKind>,
    pub active_cells: Option<[(i32, i32); 4]>,
    pub ghost_cells: Option<[(i32, i32); 4]>,
    pub active_preview_offsets: [(i32, i32); 4],
    pub active_preview_y_offset: i32,
    pub next_kind: PieceKind,
    pub next_preview_offsets: [(i32, i32); 4],
    pub next_preview_y_offset: i32,
    pub rows_pending_compaction: Vec<usize>,
    pub level: u32,
    pub lines: u32,
    pub ticks_elapsed: u64,
    pub score: u32,
    pub grade: Grade,
    pub game_over: bool,
    pub game_won: bool,
}

/// The active piece is drawn except during the line-clear and spawn
/// delays.
pub open spec fn shows_active(p: PiecePhase) -> bool {
    !(p is Spawning || p is LineClearDelay)
}

impl GameSnapshot {
    /// The snapshot of `g`. The active piece and its ghost are shown only
    /// while it is on the board; the ghost only when it lies below the piece.
    pub fn from_game(g: &Game) -> (s: GameSnapshot)
        requires
            piece_ok(g@),
        ensures
            board_model(s.board) == g@.board,
            s.active_kind == (if shows_active(g@.phase) {
                Some(g@.active.kind)
            } else {
                None::<PieceKind>
            }),
            s.active_cells is Some <==> shows_active(g@.phase),
            s.active_cells is Some ==> s.active_cells->0@ == placed(
                system_cells(g@.rotation_kind, g@.active.kind, g@.active.rotation as int % 4),
                g@.active.col as int,
                g@.active.row as int,
            ),
            ({
                let shape = system_cells(g@.rotation_kind, g@.active.kind, g@.active.rotation as int % 4);
                let gr = ghost_row(g@.board, shape, g@.active.col as int, g@.active.row as int);
                &&& s.ghost_cells is Some <==> (shows_active(g@.phase) && gr != g@.active.row)
                &&& s.ghost_cells is Some ==> s.ghost_cells->0@ == placed(shape, g@.active.col as int, gr)
            }),
            s.active_preview_offsets@ == system_cells(g@.rotation_kind, g@.active.kind, g@.active.rotation as int % 4),
            s.active_preview_y_offset == system_preview_y_offset(g@.rotation_kind, g@.active.kind),
            s.next_kind == g@.next,
            s.next_preview_offsets@ == system_cells(g@.rotation_kind, g@.next, 0),
            s.next_preview_y_offset == system_preview_y_offset(g@.rotation_kind, g@.next),
            s.rows_pending_compaction@ == g@.pending,
            s.level == g@.level,
            s.lines == g@.lines,
            s.ticks_elapsed == g@.ticks,
            s.score == g@.judge.score,
            s.grade == spec_grade_of_score(g@.judge.score),
            s.game_over == g@.game_over,
            s.game_won == g@.game_won,
    {
        let show = match g.phase {
            PiecePhase::Spawning { .. } => false,
            PiecePhase::LineClearDelay { .. } => false,
            _ => true,
        };
        let kind = g.active.kind;
        let offsets = cells_of(g.rotation_kind, kind, g.active.rotation);
        let (active_kind, active_cells, ghost_cells) = if show {
            let cells = place(&offsets, g.active.col, g.active.row);
            let gr = compute_ghost_row(&g.board, g.rotation_kind, kind, g.active.rotation, g.active.col, g.active.row);
            let shadow = if gr != g.active.row {
                proof {
                    lemma_ghost_row_bounded(board_model(g.board), offsets@, g.active.col as int, g.active.row as int);
                }
                Some(place(&offsets, g.active.col, gr))
            } else {
                None
            };
            (Some(kind), Some(cells), shadow)
        } else {
            (None, None, None)
        };
        let next_offsets = cells_of(g.rotation_kind, g.next, 0);
        let mut pending: Vec<usize> = Vec::new();
        let mut i: usize = 0;
        while i < g.pending.len()
            invariant
                i <= g.pending@.len(),
                pending@ == g.pending@.take(i as int),
            decreases g.pending@.len() - i,
        {
            pending.push(g.pending[i]);
            assert(pending@ =~= g.pending@.take(i + 1));
            i = i + 1;
        }
        assert(pending@ =~= g.pending@);
        GameSnapshot {
            board: g.board,
            active_kind,
            active_cells,
            ghost_cells,
            active_preview_offsets: offsets,
            active_preview_y_offset: preview_offset_of(g.rotation_kind, kind),
            next_kind: g.next,
            next_preview_offsets: next_offsets,
            next_preview_y_offset: preview_offset_of(g.rotation_kind, g.next),
            rows_pending_compaction: pending,
            level: g.progress.level,
            lines: g.progress.lines,
            ticks_elapsed: g.progress.ticks_elapsed,
            score: g.score(),
            grade: g.grade(),
            game_over: g.progress.game_over,
            game_won: g.progress.game_won,
        }
    }
}

/// The ghost row lies between the starting row and the bottom of the board.
pub proof fn lemma_ghost_row_bounded(
    b: Seq<Seq<Option<PieceKind>>>,
    shape: Seq<(i32, i32)>,
    col: int,
    row: int,
)
    ensures
        row <= ghost_row(b, shape, col, row),
        ghost_row(b, shape, col, row) == row || ghost_row(b, shape, col, row) <= BOARD_ROWS,
    decreases BOARD_ROWS - row,
{
    if row < BOARD_ROWS && !ghost_blocked(b, shape, col, row + 1) {
        lemma_ghost_row_bounded(b, shape, col, row + 1);
    }
}


/// Whether a shape can be drawn at (`col`, `row`): every cell within the
/// columns and above the floor, and every cell on the board empty; cells
/// above the board are allowed.
pub open spec fn placeable(b: Seq<Seq<Option<PieceKind>>>, shape: Seq<(i32, i32)>, col: int, row: int) -> bool {
    forall|i: int|
        0 <= i < shape.len() ==> {
            let c = col + (#[trigger] shape[i]).0;
            let r = row + shape[i].1;
            &&& 0 <= c < BOARD_COLS
            &&& r < BOARD_ROWS
            &&& (r >= 0 ==> b[r][c] is None)
        }
}

/// Whether the four cells `cells` can be drawn at (`col`, `row`).
pub fn can_place(board: &BoardGrid, cells: &[(i32, i32); 4], col: i32, row: i32) -> (r: bool)
    requires
        coord_ok(col as int),
        coord_ok(row as int),
        offsets_in_box(cells@),
    ensures
        r == placeable(board_model(*board), cells@, col as int, row as int),
{
    let mut i: usize = 0;
    while i < 4
        invariant
            i <= 4,
            cells@.len() == 4,
            coord_ok(col as int),
            coord_ok(row as int),
            offsets_in_box(cells@),
            forall|j: int|
                0 <= j < i ==> {
                    let c = col + (#[trigger] cells@[j]).0;
                    let r = row + cells@[j].1;
                    &&& 0 <= c < BOARD_COLS
                    &&& r < BOARD_ROWS
                    &&& (r >= 0 ==> board_model(*board)[r][c] is None)
                },
        decreases 4 - i,
    {
        let (dc, dr) = cells[i];
        assert(cells@[i as int] == (dc, dr));
        let c = col + dc;
        let r = row + dr;
        if c < 0 || c >= BOARD_COLS as i32 {
            return false;
        }
        if r >= BOARD_ROWS as i32 {
            return false;
        }
        if r >= 0 {
            let line = board[r as usize];
            if line[c as usize].is_some() {
                return false;
            }
        }
        i = i + 1;
    }
    true
}

/// The row at which the drawn ghost stands: moving down from `row` while
/// the shape can be drawn one row lower.
pub open spec fn drawn_ghost_row(
    b: Seq<Seq<Option<PieceKind>>>,
    shape: Seq<(i32, i32)>,
    col: int,
    row: int,
) -> int
    decreases BOARD_ROWS - row,
{
    if row < BOARD_ROWS && placeable(b, shape, col, row + 1) {
        drawn_ghost_row(b, shape, col, row + 1)
    } else {
        row
    }
}

/// The row at which the ghost of the four cells `cells`, dropped from
/// (`col`, `row`), is drawn.
pub fn render_ghost_row(board: &BoardGrid, cells: &[(i32, i32); 4], col: i32, row: i32) -> (g: i32)
    requires
        coord_ok(col as int),
        coord_ok(row as int),
        offsets_in_box(cells@),
    ensures
        g == drawn_ghost_row(board_model(*board), cells@, col as int, row as int),
        g >= row,
{
    let ghost b = board_model(*board);
    let mut at = row;
    loop
        invariant
            coord_ok(col as int),
            coord_ok(row as int),
            coord_ok(at as int),
            row <= at,
            offsets_in_box(cells@),
            cells@.len() == 4,
            b == board_model(*board),
            drawn_ghost_row(b, cells@, col as int, at as int) == drawn_ghost_row(b, cells@, col as int, row as int),
        ensures
            at as int == drawn_ghost_row(b, cells@, col as int, row as int),
            row <= at,
        decreases BOARD_ROWS - at,
    {
        if at >= BOARD_ROWS as i32 {
            break;
        }
        if !can_place(board, cells, col, at + 1) {
            break;
        }
        at = at + 1;
    }
    at
}

/// The sides of the cell at column `c`, row `r` that face the edge of the
/// board or an empty cell, as (left, top, right, bottom): a locked cell is
/// drawn with a border on those sides.
pub open spec fn spec_cell_borders(
    b: Seq<Seq<Option<PieceKind>>>,
    c: int,
    r: int,
) -> (bool, bool, bool, bool) {
    (
        c == 0 || b[r][c - 1] is None,
        r == 0 || b[r - 1][c] is None,
        c == BOARD_COLS - 1 || b[r][c + 1] is None,
        r == BOARD_ROWS - 1 || b[r + 1][c] is None,
    )
}

/// The sides of the cell at column `c`, row `r` that get a border: those
/// facing the edge of the board or an empty cell, as (left, top, right,
/// bottom).
pub fn cell_borders(board: &BoardGrid, c: usize, r: usize) -> (sides: (bool, bool, bool, bool))
    requires
        c < BOARD_COLS,
        r < BOARD_ROWS,
    ensures
        sides == spec_cell_borders(board_model(*board), c as int, r as int),
{
    let left = c == 0 || board[r][c - 1].is_none();
    let top = r == 0 || board[r - 1][c].is_none();
    let right = c == BOARD_COLS - 1 || board[r][c + 1].is_none();
    let bottom = r == BOARD_ROWS - 1 || board[r + 1][c].is_none();
    (left, top, right, bottom)
}

/// The locked cells drawn among the first `n` cells of the board in
/// reading order (row by row, left to right): each filled cell of a row
/// that is not waiting to be cleared, as (column, row, kind, bordered
/// sides).
pub open spec fn drawn_cells(
    b: Seq<Seq<Option<PieceKind>>>,
    pending: Seq<usize>,
    n: int,
) -> Seq<(usize, usize, PieceKind, (bool, bool, bool, bool))>
    decreases n,
{
    if n <= 0 {
        Seq::empty()
    } else {
        let prev = drawn_cells(b, pending, n - 1);
        let r = (n - 1) / (BOARD_COLS as int);
        let c = (n - 1) % (BOARD_COLS as int);
        if !pending.contains(r as usize) && b[r][c] is Some {
            prev.push((c as usize, r as usize, b[r][c]->0, spec_cell_borders(b, c, r)))
        } else {
            prev
        }
    }
}

/// The locked cells to draw, in reading order: every filled cell of a row
/// that is not waiting to be cleared (those rows burst instead), with its
/// kind and bordered sides.
pub fn board_cells(board: &BoardGrid, pending: &Vec<usize>) -> (cells: Vec<
    (usize, usize, PieceKind, (bool, bool, bool, bool)),
>)
    ensures
        cells@ == drawn_cells(board_model(*board), pending@, (BOARD_ROWS * BOARD_COLS) as int),
{
    let ghost b = board_model(*board);
    let mut cells: Vec<(usize, usize, PieceKind, (bool, bool, bool, bool))> = Vec::new();
    let mut n: usize = 0;
    while n < BOARD_ROWS * BOARD_COLS
        invariant
            n <= BOARD_ROWS * BOARD_COLS,
            b == board_model(*board),
            cells@ == drawn_cells(b, pending@, n as int),
        decreases BOARD_ROWS * BOARD_COLS - n,
    {
        let r = n / BOARD_COLS;
        let c = n % BOARD_COLS;
        if !vec_contains(pending, r) {
            if let Some(kind) = board[r][c] {
                let sides = cell_borders(board, c, r);
                cells.push((c, r, kind, sides));
            }
        }
        n = n + 1;
    }
    cells
}

} // verus!
