//! The playfield grid: which cells a piece may occupy, full rows, and the
//! compaction that removes cleared rows.

use vstd::prelude::*;
use crate::data::{BoardGrid, PieceKind, BOARD_COLS, BOARD_ROWS};

verus! {

/// A coordinate far enough from the ends of `i32` that adding any piece or
/// kick offset (at most 8 either way) stays within `i32`.
pub open spec fn coord_ok(v: int) -> bool {
    i32::MIN + 8 <= v && v <= i32::MAX - 8
}

/// The board as rows of cells, row 0 on top.
pub open spec fn board_model(b: BoardGrid) -> Seq<Seq<Option<PieceKind>>> {
    Seq::new(BOARD_ROWS as nat, |r: int| b@[r]@)
}

/// A row with every cell empty.
pub open spec fn empty_row() -> Seq<Option<PieceKind>> {
    Seq::new(BOARD_COLS as nat, |c: int| None)
}

/// A board model has `BOARD_ROWS` rows of `BOARD_COLS` cells.
pub open spec fn model_shaped(m: Seq<Seq<Option<PieceKind>>>) -> bool {
    m.len() == BOARD_ROWS && forall|r: int| 0 <= r < BOARD_ROWS ==> (#[trigger] m[r]).len()
        == BOARD_COLS
}

/// The cell at row `r`, column `c` (both on the board).
pub open spec fn cell(b: Seq<Seq<Option<PieceKind>>>, r: int, c: int) -> Option<PieceKind> {
    b[r][c]
}

/// Whether (column `c`, row `r`) lies on the board.
pub open spec fn on_board(c: int, r: int) -> bool {
    0 <= r < BOARD_ROWS && 0 <= c < BOARD_COLS
}

/// Whether (column `c`, row `r`) lies on the board and is empty.
pub open spec fn cell_free(b: Seq<Seq<Option<PieceKind>>>, c: int, r: int) -> bool {
    on_board(c, r) && cell(b, r, c) is None
}

/// Whether a shape with the given (column, row) offsets, placed with its
/// box corner at (`col`, `row`), has every cell on the board and empty.
pub open spec fn fits_at(b: Seq<Seq<Option<PieceKind>>>, cells: Seq<(i32, i32)>, col: int, row: int) -> bool {
    forall|i: int|
        0 <= i < cells.len() ==> cell_free(b, col + (#[trigger] cells[i]).0, row + cells[i].1)
}

/// Offsets of a 4x4 box: every coordinate in `0..4`.
pub open spec fn offsets_in_box(cells: Seq<(i32, i32)>) -> bool {
    forall|i: int| 0 <= i < cells.len() ==> 0 <= (#[trigger] cells[i]).0 < 4 && 0 <= cells[i].1 < 4
}

/// Whether the cell at column `c`, row `r` (both `i32`) is on the board and
/// empty.
pub fn is_cell_free(board: &BoardGrid, c: i32, r: i32) -> (f: bool)
    ensures
        f == cell_free(board_model(*board), c as int, r as int),
{
    if r < 0 || c < 0 {
        return false;
    }
    let ru = r as usize;
    let cu = c as usize;
    if ru >= BOARD_ROWS || cu >= BOARD_COLS {
        return false;
    }
    let row = board[ru];
    row[cu].is_none()
}

/// A coordinate to which a box offset (0..4) can be added within `i32`.
pub open spec fn shift_ok(v: int) -> bool {
    v + 3 <= i32::MAX
}

/// Whether the four cells `cells`, offset by (`col`, `row`), all lie on the
/// board on empty cells.
pub fn fits_cells(board: &BoardGrid, cells: &[(i32, i32); 4], col: i32, row: i32) -> (f: bool)
    requires
        shift_ok(col as int),
        shift_ok(row as int),
        offsets_in_box(cells@),
    ensures
        f == fits_at(board_model(*board), cells@, col as int, row as int),
{
    let mut i: usize = 0;
    while i < 4
        invariant
            i <= 4,
            cells@.len() == 4,
            shift_ok(col as int),
            shift_ok(row as int),
            offsets_in_box(cells@),
            forall|j: int|
                0 <= j < i ==> cell_free(
                    board_model(*board),
                    col + (#[trigger] cells@[j]).0,
                    row + cells@[j].1,
                ),
        decreases 4 - i,
    {
        let (dc, dr) = cells[i];
        assert(cells@[i as int] == (dc, dr));
        if !is_cell_free(board, col + dc, row + dr) {
            return false;
        }
        i = i + 1;
    }
    true
}

/// Whether every cell of row `r` is locked.
pub open spec fn row_full(b: Seq<Seq<Option<PieceKind>>>, r: int) -> bool {
    forall|c: int| 0 <= c < BOARD_COLS ==> (#[trigger] cell(b, r, c)) is Some
}

/// Whether every cell of row `r` is empty.
pub open spec fn row_empty(b: Seq<Seq<Option<PieceKind>>>, r: int) -> bool {
    forall|c: int| 0 <= c < BOARD_COLS ==> (#[trigger] cell(b, r, c)) is None
}

/// Whether row `r` of `board` is full.
pub fn is_row_full(board: &BoardGrid, r: usize) -> (f: bool)
    requires
        r < BOARD_ROWS,
    ensures
        f == row_full(board_model(*board), r as int),
{
    let row = board[r];
    let mut c: usize = 0;
    while c < BOARD_COLS
        invariant
            c <= BOARD_COLS,
            r < BOARD_ROWS,
            row@ == board@[r as int]@,
            board_model(*board)[r as int] == row@,
            forall|j: int| 0 <= j < c ==> (#[trigger] cell(board_model(*board), r as int, j)) is Some,
        decreases BOARD_COLS - c,
    {
        if row[c].is_none() {
            assert(cell(board_model(*board), r as int, c as int) is None);
            return false;
        }
        c = c + 1;
    }
    true
}

/// Whether row `r` of `board` is empty.
pub fn is_row_empty(board: &BoardGrid, r: usize) -> (f: bool)
    requires
        r < BOARD_ROWS,
    ensures
        f == row_empty(board_model(*board), r as int),
{
    let row = board[r];
    let mut c: usize = 0;
    while c < BOARD_COLS
        invariant
            c <= BOARD_COLS,
            r < BOARD_ROWS,
            row@ == board@[r as int]@,
            board_model(*board)[r as int] == row@,
            forall|j: int| 0 <= j < c ==> (#[trigger] cell(board_model(*board), r as int, j)) is None,
        decreases BOARD_COLS - c,
    {
        if row[c].is_some() {
            assert(cell(board_model(*board), r as int, c as int) is Some);
            return false;
        }
        c = c + 1;
    }
    true
}

/// The indices of the full rows of `b` below `n`, in increasing order.
pub open spec fn full_rows_below(b: Seq<Seq<Option<PieceKind>>>, n: int) -> Seq<usize>
    decreases n,
{
    if n <= 0 {
        Seq::empty()
    } else if row_full(b, n - 1) {
        full_rows_below(b, n - 1).push((n - 1) as usize)
    } else {
        full_rows_below(b, n - 1)
    }
}

/// The indices of the full rows of `b`, top to bottom.
pub open spec fn full_rows(b: Seq<Seq<Option<PieceKind>>>) -> Seq<usize> {
    full_rows_below(b, BOARD_ROWS as int)
}

/// `full_rows_below` lists exactly the full rows below `n`, increasing.
pub proof fn lemma_full_rows_below(b: Seq<Seq<Option<PieceKind>>>, n: int)
    requires
        0 <= n <= BOARD_ROWS,
    ensures
        forall|r: int| 0 <= r < n ==> (row_full(b, r) <==> full_rows_below(b, n).contains(r as usize)),
        forall|i: int|
            0 <= i < full_rows_below(b, n).len() ==> (#[trigger] full_rows_below(b, n)[i]) < n
                && row_full(b, full_rows_below(b, n)[i] as int),
        forall|i: int, j: int|
            0 <= i < j < full_rows_below(b, n).len() ==> full_rows_below(b, n)[i]
                < full_rows_below(b, n)[j],
        full_rows_below(b, n).len() <= n,
    decreases n,
{
    if n > 0 {
        lemma_full_rows_below(b, n - 1);
        let prev = full_rows_below(b, n - 1);
        let cur = full_rows_below(b, n);
        assert forall|r: int| 0 <= r < n implies (row_full(b, r) <==> cur.contains(r as usize)) by {
            if r < n - 1 {
                if row_full(b, r) {
                    let k = choose|k: int| 0 <= k < prev.len() && prev[k] == r as usize;
                    assert(cur[k] == r as usize);
                }
                if cur.contains(r as usize) {
                    let k = choose|k: int| 0 <= k < cur.len() && cur[k] == r as usize;
                    if k < prev.len() {
                        assert(prev[k] == r as usize);
                    }
                }
            } else {
                if row_full(b, r) {
                    assert(cur[cur.len() - 1] == r as usize);
                }
                if cur.contains(r as usize) {
                    let k = choose|k: int| 0 <= k < cur.len() && cur[k] == r as usize;
                    if k < prev.len() {
                        assert(prev[k] < n - 1);
                    }
                }
            }
        }
    }
}

/// The rows of `b` below index `n` that are not listed in `pending`, in order.
pub open spec fn kept_rows_below(
    b: Seq<Seq<Option<PieceKind>>>,
    pending: Seq<usize>,
    n: int,
) -> Seq<Seq<Option<PieceKind>>>
    decreases n,
{
    if n <= 0 {
        Seq::empty()
    } else if pending.contains((n - 1) as usize) {
        kept_rows_below(b, pending, n - 1)
    } else {
        kept_rows_below(b, pending, n - 1).push(b[n - 1])
    }
}

/// The board after removing the rows listed in `pending`: the remaining
/// rows keep their order and sink to the bottom; empty rows fill the top.
pub open spec fn compacted(b: Seq<Seq<Option<PieceKind>>>, pending: Seq<usize>) -> Seq<
    Seq<Option<PieceKind>>,
> {
    let kept = kept_rows_below(b, pending, BOARD_ROWS as int);
    let gap = BOARD_ROWS - kept.len();
    Seq::new(BOARD_ROWS as nat, |r: int| if r < gap { empty_row() } else { kept[r - gap] })
}

proof fn lemma_kept_len(b: Seq<Seq<Option<PieceKind>>>, pending: Seq<usize>, n: int)
    requires
        0 <= n,
    ensures
        kept_rows_below(b, pending, n).len() <= n,
    decreases n,
{
    if n > 0 {
        lemma_kept_len(b, pending, n - 1);
    }
}

/// Removes the rows listed in `pending` from `board` (the rest sink, empty
/// rows fill the top) and empties `pending`; does nothing when `pending` is
/// empty.
pub fn compact_pending(board: &mut BoardGrid, pending: &mut Vec<usize>)
    ensures
        old(pending)@.len() == 0 ==> *final(board) == *old(board),
        old(pending)@.len() > 0 ==> board_model(*final(board)) == compacted(
            board_model(*old(board)),
            old(pending)@,
        ),
        final(pending)@.len() == 0,
{
    if pending.len() == 0 {
        return;
    }
    let ghost old_board = *board;
    let ghost m = board_model(old_board);
    // Collect the rows that stay, top to bottom.
    let mut kept: Vec<[Option<PieceKind>; BOARD_COLS]> = Vec::new();
    let mut r: usize = 0;
    while r < BOARD_ROWS
        invariant
            r <= BOARD_ROWS,
            *board == old_board,
            m == board_model(old_board),
            kept@.len() == kept_rows_below(m, pending@, r as int).len(),
            forall|k: int|
                0 <= k < kept@.len() ==> (#[trigger] kept@[k])@ == kept_rows_below(
                    m,
                    pending@,
                    r as int,
                )[k],
        decreases BOARD_ROWS - r,
    {
        if !vec_contains(pending, r) {
            kept.push(board[r]);
        }
        r = r + 1;
    }
    proof {
        lemma_kept_len(m, pending@, BOARD_ROWS as int);
    }
    let ghost kept_model = kept_rows_below(m, pending@, BOARD_ROWS as int);
    let offset = BOARD_ROWS - kept.len();
    let mut new_board: BoardGrid = [[None; BOARD_COLS]; BOARD_ROWS];
    let mut i: usize = 0;
    while i < kept.len()
        invariant
            kept@.len() == kept_model.len(),
            forall|k: int| 0 <= k < kept@.len() ==> (#[trigger] kept@[k])@ == kept_model[k],
            offset + kept@.len() == BOARD_ROWS,
            i <= kept@.len(),
            forall|rr: int| 0 <= rr < offset ==> (#[trigger] new_board@[rr])@ =~= empty_row(),
            forall|rr: int| offset <= rr < offset + i ==> (#[trigger] new_board@[rr])@ == kept_model[rr - offset],
            forall|rr: int| offset + i <= rr < BOARD_ROWS ==> (#[trigger] new_board@[rr])@ =~= empty_row(),
        decreases kept@.len() - i,
    {
        new_board[offset + i] = kept[i];
        i = i + 1;
    }
    assert(board_model(new_board) =~= compacted(m, pending@));
    *board = new_board;
    pending.clear();
}

/// Whether `v` holds `x`.
pub fn vec_contains(v: &Vec<usize>, x: usize) -> (r: bool)
    ensures
        r == v@.contains(x),
{
    let mut i: usize = 0;
    while i < v.len()
        invariant
            i <= v@.len(),
            forall|j: int| 0 <= j < i ==> v@[j] != x,
        decreases v@.len() - i,
    {
        if v[i] == x {
            assert(v@[i as int] == x);
            return true;
        }
        i = i + 1;
    }
    false
}


/// Every row kept below `n` is a row of `b` below `n` that is not pending.
proof fn lemma_kept_rows_from_board(b: Seq<Seq<Option<PieceKind>>>, pending: Seq<usize>, n: int)
    requires
        0 <= n,
    ensures
        forall|k: int|
            0 <= k < kept_rows_below(b, pending, n).len() ==> exists|r: int|
                0 <= r < n && !pending.contains(r as usize) && #[trigger] kept_rows_below(
                    b,
                    pending,
                    n,
                )[k] == b[r],
    decreases n,
{
    if n > 0 {
        lemma_kept_rows_from_board(b, pending, n - 1);
        let prev = kept_rows_below(b, pending, n - 1);
        let cur = kept_rows_below(b, pending, n);
        assert forall|k: int| 0 <= k < cur.len() implies exists|r: int|
            0 <= r < n && !pending.contains(r as usize) && #[trigger] cur[k] == b[r] by {
            if k < prev.len() {
                assert(cur[k] == prev[k]);
                let r = choose|r: int|
                    0 <= r < n - 1 && !pending.contains(r as usize) && #[trigger] prev[k] == b[r];
                assert(cur[k] == b[r]);
            } else {
                assert(cur[k] == b[n - 1]);
            }
        }
    }
}

/// Removing the full rows leaves a board of the same shape with no full
/// row.
pub proof fn law_clearing_leaves_no_full_row(b: Seq<Seq<Option<PieceKind>>>)
    requires
        model_shaped(b),
    ensures
        model_shaped(compacted(b, full_rows(b))),
        forall|r: int| 0 <= r < BOARD_ROWS ==> !row_full(compacted(b, full_rows(b)), r),
{
    let p = full_rows(b);
    lemma_full_rows_below(b, BOARD_ROWS as int);
    lemma_kept_len(b, p, BOARD_ROWS as int);
    lemma_kept_rows_from_board(b, p, BOARD_ROWS as int);
    let kept = kept_rows_below(b, p, BOARD_ROWS as int);
    let gap = BOARD_ROWS - kept.len();
    let m = compacted(b, p);
    assert forall|r: int| 0 <= r < BOARD_ROWS implies (#[trigger] m[r]).len() == BOARD_COLS by {
        if r >= gap {
            let rr = choose|rr: int|
                0 <= rr < BOARD_ROWS && !p.contains(rr as usize) && #[trigger] kept[r - gap] == b[rr];
        }
    }
    assert forall|r: int| 0 <= r < BOARD_ROWS implies !row_full(m, r) by {
        if r < gap {
            assert(cell(m, r, 0) is None);
        } else {
            let rr = choose|rr: int|
                0 <= rr < BOARD_ROWS && !p.contains(rr as usize) && #[trigger] kept[r - gap] == b[rr];
            assert(!row_full(b, rr));
            let c = choose|c: int| 0 <= c < BOARD_COLS && !(#[trigger] cell(b, rr, c) is Some);
            assert(cell(m, r, c) == cell(b, rr, c));
        }
    }
}

} // verus!
