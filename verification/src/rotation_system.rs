//! The two rotation systems: ARS (TGM's Arika rotation system) and SRS
//! (the guideline super rotation system). Each one gives the shape of every
//! piece in every rotation and the rule for rotating on a board.

use vstd::prelude::*;
use crate::board::{
    board_model, cell, coord_ok, fits_at, fits_cells, offsets_in_box, on_board, shift_ok,
};
use crate::data::{BoardGrid, Kind, PieceKind, RotationDirection, BOARD_COLS, BOARD_ROWS};


verus! {

/// The spatial state of a piece, handed to a rotation system.
#[derive(Debug, Clone, Copy, PartialEq, Eq, Structural)]
pub struct PieceState {
    pub kind: PieceKind,
    pub rotation: usize,
    pub col: i32,
    pub row: i32,
}

// ---------------------------------------------------------------------------
// Shape tables. Offsets are (column, row) inside the 4x4 box, row 0 on top,
// listed top to bottom and left to right.
// ---------------------------------------------------------------------------

/// ARS shape of `kind` in rotation `rot` (0..4).
pub open spec fn ars_table(kind: PieceKind, rot: int) -> Seq<(i32, i32)> {
    match kind {
        PieceKind::I => if rot % 2 == 0 {
            seq![(0i32, 1i32), (1, 1), (2, 1), (3, 1)]
        } else {
            seq![(2i32, 0i32), (2, 1), (2, 2), (2, 3)]
        },
        PieceKind::O => seq![(1i32, 1i32), (2, 1), (1, 2), (2, 2)],
        PieceKind::T => if rot == 0 {
            seq![(0i32, 1i32), (1, 1), (2, 1), (1, 2)]
        } else if rot == 1 {
            seq![(1i32, 0i32), (0, 1), (1, 1), (1, 2)]
        } else if rot == 2 {
            seq![(1i32, 1i32), (0, 2), (1, 2), (2, 2)]
        } else {
            seq![(1i32, 0i32), (1, 1), (2, 1), (1, 2)]
        },
        PieceKind::S => if rot % 2 == 0 {
            seq![(1i32, 1i32), (2, 1), (0, 2), (1, 2)]
        } else {
            seq![(0i32, 0i32), (0, 1), (1, 1), (1, 2)]
        },
        PieceKind::Z => if rot % 2 == 0 {
            seq![(0i32, 1i32), (1, 1), (1, 2), (2, 2)]
        } else {
            seq![(2i32, 0i32), (1, 1), (2, 1), (1, 2)]
        },
        PieceKind::J => if rot == 0 {
            seq![(0i32, 1i32), (1, 1), (2, 1), (2, 2)]
        } else if rot == 1 {
            seq![(1i32, 0i32), (1, 1), (0, 2), (1, 2)]
        } else if rot == 2 {
            seq![(0i32, 1i32), (0, 2), (1, 2), (2, 2)]
        } else {
            seq![(1i32, 0i32), (2, 0), (1, 1), (1, 2)]
        },
        PieceKind::L => if rot == 0 {
            seq![(0i32, 1i32), (1, 1), (2, 1), (0, 2)]
        } else if rot == 1 {
            seq![(0i32, 0i32), (1, 0), (1, 1), (1, 2)]
        } else if rot == 2 {
            seq![(2i32, 1i32), (0, 2), (1, 2), (2, 2)]
        } else {
            seq![(1i32, 0i32), (1, 1), (1, 2), (2, 2)]
        },
    }
}

/// SRS shape of `kind` in rotation `rot` (0..4).
pub open spec fn srs_table(kind: PieceKind, rot: int) -> Seq<(i32, i32)> {
    match kind {
        PieceKind::I => if rot == 0 {
            seq![(0i32, 1i32), (1, 1), (2, 1), (3, 1)]
        } else if rot == 1 {
            seq![(2i32, 0i32), (2, 1), (2, 2), (2, 3)]
        } else if rot == 2 {
            seq![(0i32, 2i32), (1, 2), (2, 2), (3, 2)]
        } else {
            seq![(1i32, 0i32), (1, 1), (1, 2), (1, 3)]
        },
        PieceKind::O => seq![(1i32, 1i32), (2, 1), (1, 2), (2, 2)],
        PieceKind::T => if rot == 0 {
            seq![(1i32, 0i32), (0, 1), (1, 1), (2, 1)]
        } else if rot == 1 {
            seq![(1i32, 0i32), (1, 1), (2, 1), (1, 2)]
        } else if rot == 2 {
            seq![(0i32, 1i32), (1, 1), (2, 1), (1, 2)]
        } else {
            seq![(1i32, 0i32), (0, 1), (1, 1), (1, 2)]
        },
        PieceKind::S => if rot == 0 {
            seq![(1i32, 0i32), (2, 0), (0, 1), (1, 1)]
        } else if rot == 1 {
            seq![(1i32, 0i32), (1, 1), (2, 1), (2, 2)]
        } else if rot == 2 {
            seq![(1i32, 1i32), (2, 1), (0, 2), (1, 2)]
        } else {
            seq![(0i32, 0i32), (0, 1), (1, 1), (1, 2)]
        },
        PieceKind::Z => if rot == 0 {
            seq![(0i32, 0i32), (1, 0), (1, 1), (2, 1)]
        } else if rot == 1 {
            seq![(2i32, 0i32), (1, 1), (2, 1), (1, 2)]
        } else if rot == 2 {
            seq![(0i32, 1i32), (1, 1), (1, 2), (2, 2)]
        } else {
            seq![(1i32, 0i32), (0, 1), (1, 1), (0, 2)]
        },
        PieceKind::J => if rot == 0 {
            seq![(0i32, 0i32), (0, 1), (1, 1), (2, 1)]
        } else if rot == 1 {
            seq![(1i32, 0i32), (2, 0), (1, 1), (1, 2)]
        } else if rot == 2 {
            seq![(0i32, 1i32), (1, 1), (2, 1), (2, 2)]
        } else {
            seq![(1i32, 0i32), (1, 1), (0, 2), (1, 2)]
        },
        PieceKind::L => if rot == 0 {
            seq![(2i32, 0i32), (0, 1), (1, 1), (2, 1)]
        } else if rot == 1 {
            seq![(1i32, 0i32), (1, 1), (1, 2), (2, 2)]
        } else if rot == 2 {
            seq![(0i32, 1i32), (1, 1), (2, 1), (0, 2)]
        } else {
            seq![(0i32, 0i32), (1, 0), (1, 1), (1, 2)]
        },
    }
}

/// Every table entry has four cells inside the 4x4 box.
pub proof fn lemma_tables_in_box(kind: PieceKind, rot: int)
    requires
        0 <= rot < 4,
    ensures
        ars_table(kind, rot).len() == 4,
        srs_table(kind, rot).len() == 4,
        offsets_in_box(ars_table(kind, rot)),
        offsets_in_box(srs_table(kind, rot)),
{
}

/// ARS shape of `kind` in rotation `rotation` (taken modulo 4).
pub fn ars_cells(kind: PieceKind, rotation: usize) -> (r: [(i32, i32); 4])
    ensures
        r@ == ars_table(kind, rotation as int % 4),
{
    let rot = rotation % 4;
    match kind {
        PieceKind::I => if rot % 2 == 0 {
            [(0, 1), (1, 1), (2, 1), (3, 1)]
        } else {
            [(2, 0), (2, 1), (2, 2), (2, 3)]
        },
        PieceKind::O => [(1, 1), (2, 1), (1, 2), (2, 2)],
        PieceKind::T => if rot == 0 {
            [(0, 1), (1, 1), (2, 1), (1, 2)]
        } else if rot == 1 {
            [(1, 0), (0, 1), (1, 1), (1, 2)]
        } else if rot == 2 {
            [(1, 1), (0, 2), (1, 2), (2, 2)]
        } else {
            [(1, 0), (1, 1), (2, 1), (1, 2)]
        },
        PieceKind::S => if rot % 2 == 0 {
            [(1, 1), (2, 1), (0, 2), (1, 2)]
        } else {
            [(0, 0), (0, 1), (1, 1), (1, 2)]
        },
        PieceKind::Z => if rot % 2 == 0 {
            [(0, 1), (1, 1), (1, 2), (2, 2)]
        } else {
            [(2, 0), (1, 1), (2, 1), (1, 2)]
        },
        PieceKind::J => if rot == 0 {
            [(0, 1), (1, 1), (2, 1), (2, 2)]
        } else if rot == 1 {
            [(1, 0), (1, 1), (0, 2), (1, 2)]
        } else if rot == 2 {
            [(0, 1), (0, 2), (1, 2), (2, 2)]
        } else {
            [(1, 0), (2, 0), (1, 1), (1, 2)]
        },
        PieceKind::L => if rot == 0 {
            [(0, 1), (1, 1), (2, 1), (0, 2)]
        } else if rot == 1 {
            [(0, 0), (1, 0), (1, 1), (1, 2)]
        } else if rot == 2 {
            [(2, 1), (0, 2), (1, 2), (2, 2)]
        } else {
            [(1, 0), (1, 1), (1, 2), (2, 2)]
        },
    }
}

/// SRS shape of `kind` in rotation `rotation` (taken modulo 4).
pub fn srs_cells(kind: PieceKind, rotation: usize) -> (r: [(i32, i32); 4])
    ensures
        r@ == srs_table(kind, rotation as int % 4),
{
    let rot = rotation % 4;
    match kind {
        PieceKind::I => if rot == 0 {
            [(0, 1), (1, 1), (2, 1), (3, 1)]
        } else if rot == 1 {
            [(2, 0), (2, 1), (2, 2), (2, 3)]
        } else if rot == 2 {
            [(0, 2), (1, 2), (2, 2), (3, 2)]
        } else {
            [(1, 0), (1, 1), (1, 2), (1, 3)]
        },
        PieceKind::O => [(1, 1), (2, 1), (1, 2), (2, 2)],
        PieceKind::T => if rot == 0 {
            [(1, 0), (0, 1), (1, 1), (2, 1)]
        } else if rot == 1 {
            [(1, 0), (1, 1), (2, 1), (1, 2)]
        } else if rot == 2 {
            [(0, 1), (1, 1), (2, 1), (1, 2)]
        } else {
            [(1, 0), (0, 1), (1, 1), (1, 2)]
        },
        PieceKind::S => if rot == 0 {
            [(1, 0), (2, 0), (0, 1), (1, 1)]
        } else if rot == 1 {
            [(1, 0), (1, 1), (2, 1), (2, 2)]
        } else if rot == 2 {
            [(1, 1), (2, 1), (0, 2), (1, 2)]
        } else {
            [(0, 0), (0, 1), (1, 1), (1, 2)]
        },
        PieceKind::Z => if rot == 0 {
            [(0, 0), (1, 0), (1, 1), (2, 1)]
        } else if rot == 1 {
            [(2, 0), (1, 1), (2, 1), (1, 2)]
        } else if rot == 2 {
            [(0, 1), (1, 1), (1, 2), (2, 2)]
        } else {
            [(1, 0), (0, 1), (1, 1), (0, 2)]
        },
        PieceKind::J => if rot == 0 {
            [(0, 0), (0, 1), (1, 1), (2, 1)]
        } else if rot == 1 {
            [(1, 0), (2, 0), (1, 1), (1, 2)]
        } else if rot == 2 {
            [(0, 1), (1, 1), (2, 1), (2, 2)]
        } else {
            [(1, 0), (1, 1), (0, 2), (1, 2)]
        },
        PieceKind::L => if rot == 0 {
            [(2, 0), (0, 1), (1, 1), (2, 1)]
        } else if rot == 1 {
            [(1, 0), (1, 1), (1, 2), (2, 2)]
        } else if rot == 2 {
            [(0, 1), (1, 1), (2, 1), (0, 2)]
        } else {
            [(0, 0), (1, 0), (1, 1), (1, 2)]
        },
    }
}

// ---------------------------------------------------------------------------
// Rotation rules
// ---------------------------------------------------------------------------

/// Rotation index after turning once in `direction` from `rotation`.
pub open spec fn turned(rotation: int, direction: RotationDirection) -> int {
    match direction {
        RotationDirection::Clockwise => (rotation + 1) % 4,
        RotationDirection::Counterclockwise => (rotation + 3) % 4,
    }
}

/// Whether the cell at (`c`, `r`) is off the board or locked.
pub open spec fn blocked(b: Seq<Seq<Option<PieceKind>>>, c: int, r: int) -> bool {
    !on_board(c, r) || cell(b, r, c) is Some
}

/// ARS center-column rule: scanning the 3x3 box left to right, top to
/// bottom from position `k`, the first cell of the destination shape that is
/// blocked lies in the middle column. False when no such cell is blocked.
pub open spec fn center_first_from(
    b: Seq<Seq<Option<PieceKind>>>,
    dest: Seq<(i32, i32)>,
    col: int,
    row: int,
    k: int,
) -> bool
    decreases 9 - k,
{
    if k < 0 || k >= 9 {
        false
    } else {
        let dr = k / 3;
        let dc = k % 3;
        if dest.contains((dc as i32, dr as i32)) && blocked(b, col + dc, row + dr) {
            dc == 1
        } else {
            center_first_from(b, dest, col, row, k + 1)
        }
    }
}

/// The ARS rotation rule: the plain rotation if it fits; otherwise, except
/// for I (never kicks), and except when the center-column rule stops a
/// three-wide L, J or T, one column right, then one column left.
pub open spec fn spec_ars_try_rotate(
    piece: PieceState,
    direction: RotationDirection,
    b: Seq<Seq<Option<PieceKind>>>,
) -> Option<PieceState> {
    let new_rot = turned(piece.rotation as int, direction);
    let shape = ars_table(piece.kind, new_rot);
    if fits_at(b, shape, piece.col as int, piece.row as int) {
        Some(PieceState { rotation: new_rot as usize, ..piece })
    } else if piece.kind == PieceKind::I {
        None
    } else if (piece.kind == PieceKind::L || piece.kind == PieceKind::J || piece.kind
        == PieceKind::T) && piece.rotation % 2 == 0 && center_first_from(
        b,
        shape,
        piece.col as int,
        piece.row as int,
        0,
    ) {
        None
    } else if fits_at(b, shape, piece.col + 1, piece.row as int) {
        Some(PieceState { col: (piece.col + 1) as i32, rotation: new_rot as usize, ..piece })
    } else if fits_at(b, shape, piece.col - 1, piece.row as int) {
        Some(PieceState { col: (piece.col - 1) as i32, rotation: new_rot as usize, ..piece })
    } else {
        None
    }
}

/// Kick table index of a turn from rotation `from` (0..4).
pub open spec fn spec_kick_index(from: int, cw: bool) -> int {
    if cw {
        2 * from
    } else {
        (2 * from + 7) % 8
    }
}

/// SRS kick offset `t` (0..5) of transition `idx` (0..8), for the I piece or
/// for J, L, S, T, Z. Offsets are (column, row), row down.
pub open spec fn srs_kick(is_i: bool, idx: int, t: int) -> (i32, i32) {
    let table: Seq<(i32, i32)> = if is_i {
        if idx == 0 || idx == 5 {
            seq![(0i32, 0i32), (-2i32, 0), (1, 0), (-2i32, 1), (1, -2i32)]
        } else if idx == 1 || idx == 4 {
            seq![(0i32, 0i32), (2, 0), (-1i32, 0), (2, -1i32), (-1i32, 2)]
        } else if idx == 2 || idx == 7 {
            seq![(0i32, 0i32), (-1i32, 0), (2, 0), (-1i32, -2i32), (2, 1)]
        } else {
            seq![(0i32, 0i32), (1, 0), (-2i32, 0), (1, 2), (-2i32, -1i32)]
        }
    } else {
        if idx == 0 || idx == 3 {
            seq![(0i32, 0i32), (-1i32, 0), (-1i32, -1i32), (0, 2), (-1i32, 2)]
        } else if idx == 1 || idx == 2 {
            seq![(0i32, 0i32), (1, 0), (1, 1), (0, -2i32), (1, -2i32)]
        } else if idx == 4 || idx == 7 {
            seq![(0i32, 0i32), (1, 0), (1, -1i32), (0, 2), (1, 2)]
        } else {
            seq![(0i32, 0i32), (-1i32, 0), (-1i32, 1), (0, -2i32), (-1i32, -2i32)]
        }
    };
    table[t]
}

/// The first kick from position `t` on at which the turned shape fits.
pub open spec fn srs_kick_from(
    piece: PieceState,
    b: Seq<Seq<Option<PieceKind>>>,
    shape: Seq<(i32, i32)>,
    new_rot: int,
    is_i: bool,
    idx: int,
    t: int,
) -> Option<PieceState>
    decreases 5 - t,
{
    if t < 0 || t >= 5 {
        None
    } else {
        let k = srs_kick(is_i, idx, t);
        if fits_at(b, shape, piece.col + k.0, piece.row + k.1) {
            Some(
                PieceState {
                    col: (piece.col + k.0) as i32,
                    row: (piece.row + k.1) as i32,
                    rotation: new_rot as usize,
                    ..piece
                },
            )
        } else {
            srs_kick_from(piece, b, shape, new_rot, is_i, idx, t + 1)
        }
    }
}

/// The SRS rotation rule: O turns in place or not at all; the other pieces
/// take the first of the five kicks of their transition at which they fit.
pub open spec fn spec_srs_try_rotate(
    piece: PieceState,
    direction: RotationDirection,
    b: Seq<Seq<Option<PieceKind>>>,
) -> Option<PieceState> {
    let cw = direction == RotationDirection::Clockwise;
    let new_rot = turned(piece.rotation as int, direction);
    let shape = srs_table(piece.kind, new_rot);
    if piece.kind == PieceKind::O {
        if fits_at(b, shape, piece.col as int, piece.row as int) {
            Some(PieceState { rotation: new_rot as usize, ..piece })
        } else {
            None
        }
    } else {
        srs_kick_from(
            piece,
            b,
            shape,
            new_rot,
            piece.kind == PieceKind::I,
            spec_kick_index(piece.rotation as int, cw),
            0,
        )
    }
}

/// Pieces ARS can turn without an arithmetic fault: coordinates clear of the
/// ends of `i32`, and a rotation index that can take the turn offset.
pub open spec fn ars_can_rotate(piece: PieceState) -> bool {
    coord_ok(piece.col as int) && coord_ok(piece.row as int) && piece.rotation + 3 <= usize::MAX
}

/// Pieces SRS can turn: coordinates clear of the ends of `i32`, and a
/// rotation index in `0..4` (which SRS requires of every piece but O).
pub open spec fn srs_can_rotate(piece: PieceState) -> bool {
    coord_ok(piece.col as int) && coord_ok(piece.row as int) && piece.rotation + 3 <= usize::MAX
        && (piece.kind != PieceKind::O ==> piece.rotation < 4)
}

/// A rotation system: piece shapes, preview offsets and the rotation rule.
pub trait RotationSystem {
    /// Shape of `kind` in rotation `rot` (0..4).
    spec fn spec_cells(&self, kind: PieceKind, rot: int) -> Seq<(i32, i32)>;

    /// Vertical offset of `kind` in the next-piece preview.
    spec fn spec_preview_y_offset(&self, kind: PieceKind) -> int;

    /// The rotation rule.
    spec fn spec_try_rotate(
        &self,
        piece: PieceState,
        direction: RotationDirection,
        b: Seq<Seq<Option<PieceKind>>>,
    ) -> Option<PieceState>;

    /// Pieces this system can turn.
    spec fn can_rotate(&self, piece: PieceState) -> bool;

    /// Shape of `kind` in rotation `rotation` (taken modulo 4).
    fn cells(&self, kind: PieceKind, rotation: usize) -> (r: [(i32, i32); 4])
        ensures
            r@ == self.spec_cells(kind, rotation as int % 4),
            offsets_in_box(r@),
    ;

    /// Vertical offset of `kind` in the next-piece preview.
    fn preview_y_offset(&self, kind: PieceKind) -> (r: i32)
        ensures
            r == self.spec_preview_y_offset(kind),
    ;

    /// Whether `kind` in rotation `rotation` with its box corner at (`col`,
    /// `row`) lies on the board on empty cells.
    fn fits(&self, board: &BoardGrid, kind: PieceKind, col: i32, row: i32, rotation: usize) -> (r:
        bool)
        requires
            shift_ok(col as int),
            shift_ok(row as int),
        ensures
            r == fits_at(
                board_model(*board),
                self.spec_cells(kind, rotation as int % 4),
                col as int,
                row as int,
            ),
    {
        let cells = self.cells(kind, rotation);
        fits_cells(board, &cells, col, row)
    }

    /// Turns `piece` in `direction` on `board`: `Some` with the new column,
    /// row and rotation when some allowed position fits, `None` otherwise.
    fn try_rotate(
        &self,
        piece: &PieceState,
        direction: RotationDirection,
        board: &BoardGrid,
    ) -> (r: Option<PieceState>)
        requires
            self.can_rotate(*piece),
        ensures
            r == self.spec_try_rotate(*piece, direction, board_model(*board)),
    ;
}

// ---------------------------------------------------------------------------
// ARS
// ---------------------------------------------------------------------------

pub struct Ars;

impl Ars {
    /// The center-column rule for the destination rotation `new_rot`: scans
    /// its cells within the 3x3 box left to right, top to bottom, and tells
    /// whether the first one that is off the board or locked lies in the
    /// middle column.
    fn center_column_blocked_first(board: &BoardGrid, piece: &PieceState, new_rot: usize) -> (r:
        bool)
        requires
            coord_ok(piece.col as int),
            coord_ok(piece.row as int),
            new_rot < 4,
        ensures
            r == center_first_from(
                board_model(*board),
                ars_table(piece.kind, new_rot as int),
                piece.col as int,
                piece.row as int,
                0,
            ),
    {
        let dest = ars_cells(piece.kind, new_rot);
        let ghost shape = dest@;
        let mut k: i32 = 0;
        while k < 9
            invariant
                0 <= k <= 9,
                shape == dest@,
                shape == ars_table(piece.kind, new_rot as int),
                coord_ok(piece.col as int),
                coord_ok(piece.row as int),
                center_first_from(board_model(*board), shape, piece.col as int, piece.row as int, 0)
                    == center_first_from(
                    board_model(*board),
                    shape,
                    piece.col as int,
                    piece.row as int,
                    k as int,
                ),
            decreases 9 - k,
        {
            let dr = k / 3;
            let dc = k % 3;
            if contains_offset(&dest, dc, dr) {
                let c = piece.col + dc;
                let r = piece.row + dr;
                if !is_on_board(c, r) || board[r as usize][c as usize].is_some() {
                    return dc == 1;
                }
            }
            k = k + 1;
        }
        false
    }
}

/// Whether the offset (`dc`, `dr`) is one of `cells`.
fn contains_offset(cells: &[(i32, i32); 4], dc: i32, dr: i32) -> (r: bool)
    ensures
        r == cells@.contains((dc, dr)),
{
    let mut i: usize = 0;
    while i < 4
        invariant
            i <= 4,
            cells@.len() == 4,
            forall|j: int| 0 <= j < i ==> cells@[j] != (dc, dr),
        decreases 4 - i,
    {
        if cells[i].0 == dc && cells[i].1 == dr {
            assert(cells@[i as int] == (dc, dr));
            return true;
        }
        i = i + 1;
    }
    false
}

/// Whether (`c`, `r`) lies on the board.
fn is_on_board(c: i32, r: i32) -> (b: bool)
    ensures
        b == on_board(c as int, r as int),
{
    0 <= r && (r as usize) < BOARD_ROWS && 0 <= c && (c as usize) < BOARD_COLS
}

impl RotationSystem for Ars {
    open spec fn spec_cells(&self, kind: PieceKind, rot: int) -> Seq<(i32, i32)> {
        ars_table(kind, rot)
    }

    open spec fn spec_preview_y_offset(&self, kind: PieceKind) -> int {
        0
    }

    open spec fn spec_try_rotate(
        &self,
        piece: PieceState,
        direction: RotationDirection,
        b: Seq<Seq<Option<PieceKind>>>,
    ) -> Option<PieceState> {
        spec_ars_try_rotate(piece, direction, b)
    }

    open spec fn can_rotate(&self, piece: PieceState) -> bool {
        ars_can_rotate(piece)
    }

    fn cells(&self, kind: PieceKind, rotation: usize) -> (r: [(i32, i32); 4]) {
        proof {
            lemma_tables_in_box(kind, rotation as int % 4);
        }
        ars_cells(kind, rotation)
    }

    fn preview_y_offset(&self, kind: PieceKind) -> (r: i32) {
        0
    }

    fn try_rotate(
        &self,
        piece: &PieceState,
        direction: RotationDirection,
        board: &BoardGrid,
    ) -> (r: Option<PieceState>) {
        let offset: usize = match direction {
            RotationDirection::Clockwise => 1,
            RotationDirection::Counterclockwise => 3,
        };
        let new_rot = (piece.rotation + offset) % 4;
        // 1. Basic rotation.
        if self.fits(board, piece.kind, piece.col, piece.row, new_rot) {
            return Some(PieceState { rotation: new_rot, ..*piece });
        }
        // I never kicks.
        if piece.kind == PieceKind::I {
            return None;
        }
        // L/J/T center-column rule from a three-wide orientation.
        if (piece.kind == PieceKind::L || piece.kind == PieceKind::J || piece.kind == PieceKind::T)
            && piece.rotation % 2 == 0 && Ars::center_column_blocked_first(board, piece, new_rot) {
            return None;
        }
        // 2. Kick right, then left.
        if self.fits(board, piece.kind, piece.col + 1, piece.row, new_rot) {
            return Some(PieceState { col: piece.col + 1, rotation: new_rot, ..*piece });
        }
        if self.fits(board, piece.kind, piece.col - 1, piece.row, new_rot) {
            return Some(PieceState { col: piece.col - 1, rotation: new_rot, ..*piece });
        }
        None
    }
}

// ---------------------------------------------------------------------------
// SRS
// ---------------------------------------------------------------------------

pub struct Srs;

/// Kick table index of a turn from rotation `from_rot`.
fn kick_index(from_rot: usize, cw: bool) -> (r: usize)
    requires
        from_rot < 4,
    ensures
        r == spec_kick_index(from_rot as int, cw),
        r < 8,
{
    match (from_rot, cw) {
        (0, true) => 0,
        (1, false) => 1,
        (1, true) => 2,
        (2, false) => 3,
        (2, true) => 4,
        (3, false) => 5,
        (3, true) => 6,
        _ => 7,
    }
}

/// The five kicks of transition `idx`, for I or for the other pieces.
fn kicks_for(is_i: bool, idx: usize) -> (r: [(i32, i32); 5])
    requires
        idx < 8,
    ensures
        forall|t: int| 0 <= t < 5 ==> r@[t] == srs_kick(is_i, idx as int, t),
        forall|t: int| 0 <= t < 5 ==> -2 <= (#[trigger] r@[t]).0 <= 2 && -2 <= r@[t].1 <= 2,
{
    if is_i {
        if idx == 0 || idx == 5 {
            [(0, 0), (-2, 0), (1, 0), (-2, 1), (1, -2)]
        } else if idx == 1 || idx == 4 {
            [(0, 0), (2, 0), (-1, 0), (2, -1), (-1, 2)]
        } else if idx == 2 || idx == 7 {
            [(0, 0), (-1, 0), (2, 0), (-1, -2), (2, 1)]
        } else {
            [(0, 0), (1, 0), (-2, 0), (1, 2), (-2, -1)]
        }
    } else {
        if idx == 0 || idx == 3 {
            [(0, 0), (-1, 0), (-1, -1), (0, 2), (-1, 2)]
        } else if idx == 1 || idx == 2 {
            [(0, 0), (1, 0), (1, 1), (0, -2), (1, -2)]
        } else if idx == 4 || idx == 7 {
            [(0, 0), (1, 0), (1, -1), (0, 2), (1, 2)]
        } else {
            [(0, 0), (-1, 0), (-1, 1), (0, -2), (-1, -2)]
        }
    }
}

impl RotationSystem for Srs {
    open spec fn spec_cells(&self, kind: PieceKind, rot: int) -> Seq<(i32, i32)> {
        srs_table(kind, rot)
    }

    open spec fn spec_preview_y_offset(&self, kind: PieceKind) -> int {
        if kind == PieceKind::I || kind == PieceKind::O {
            0
        } else {
            1
        }
    }

    open spec fn spec_try_rotate(
        &self,
        piece: PieceState,
        direction: RotationDirection,
        b: Seq<Seq<Option<PieceKind>>>,
    ) -> Option<PieceState> {
        spec_srs_try_rotate(piece, direction, b)
    }

    open spec fn can_rotate(&self, piece: PieceState) -> bool {
        srs_can_rotate(piece)
    }

    fn cells(&self, kind: PieceKind, rotation: usize) -> (r: [(i32, i32); 4]) {
        proof {
            lemma_tables_in_box(kind, rotation as int % 4);
        }
        srs_cells(kind, rotation)
    }

    fn preview_y_offset(&self, kind: PieceKind) -> (r: i32) {
        match kind {
            PieceKind::I | PieceKind::O => 0,
            _ => 1,
        }
    }

    fn try_rotate(
        &self,
        piece: &PieceState,
        direction: RotationDirection,
        board: &BoardGrid,
    ) -> (r: Option<PieceState>) {
        let cw = direction == RotationDirection::Clockwise;
        let offset: usize = if cw {
            1
        } else {
            3
        };
        let new_rot = (piece.rotation + offset) % 4;
        // O: basic rotation only.
        if piece.kind == PieceKind::O {
            return if self.fits(board, piece.kind, piece.col, piece.row, new_rot) {
                Some(PieceState { rotation: new_rot, ..*piece })
            } else {
                None
            };
        }
        let is_i = piece.kind == PieceKind::I;
        let idx = kick_index(piece.rotation, cw);
        let kicks = kicks_for(is_i, idx);
        let ghost shape = srs_table(piece.kind, new_rot as int);
        assert(spec_srs_try_rotate(*piece, direction, board_model(*board)) == srs_kick_from(
            *piece,
            board_model(*board),
            shape,
            new_rot as int,
            is_i,
            idx as int,
            0,
        ));
        let mut t: usize = 0;
        while t < 5
            invariant
                t <= 5,
                idx < 8,
                new_rot < 4,
                new_rot == turned(piece.rotation as int, direction),
                shape == srs_table(piece.kind, new_rot as int),
                srs_can_rotate(*piece),
                forall|u: int| 0 <= u < 5 ==> kicks@[u] == srs_kick(is_i, idx as int, u),
                forall|u: int| 0 <= u < 5 ==> -2 <= (#[trigger] kicks@[u]).0 <= 2 && -2 <= kicks@[u].1 <= 2,
                spec_srs_try_rotate(*piece, direction, board_model(*board)) == srs_kick_from(
                    *piece,
                    board_model(*board),
                    shape,
                    new_rot as int,
                    is_i,
                    idx as int,
                    t as int,
                ),
            decreases 5 - t,
        {
            let (dcol, drow) = kicks[t];
            assert(kicks@[t as int] == (dcol, drow));
            let new_col = piece.col + dcol;
            let new_row = piece.row + drow;
            if self.fits(board, piece.kind, new_col, new_row, new_rot) {
                let res = PieceState { col: new_col, row: new_row, rotation: new_rot, ..*piece };
                assert(srs_kick_from(
                    *piece,
                    board_model(*board),
                    shape,
                    new_rot as int,
                    is_i,
                    idx as int,
                    t as int,
                ) == Some(res));
                return Some(res);
            }
            t = t + 1;
        }
        None
    }
}

// ---------------------------------------------------------------------------
// Dispatch by rotation system kind
// ---------------------------------------------------------------------------

/// Shape of `kind` in rotation `rot` (0..4) under the system `sys`.
pub open spec fn system_cells(sys: Kind, kind: PieceKind, rot: int) -> Seq<(i32, i32)> {
    match sys {
        Kind::Ars => ars_table(kind, rot),
        Kind::Srs => srs_table(kind, rot),
    }
}

/// The rotation rule of the system `sys`.
pub open spec fn system_try_rotate(
    sys: Kind,
    piece: PieceState,
    direction: RotationDirection,
    b: Seq<Seq<Option<PieceKind>>>,
) -> Option<PieceState> {
    match sys {
        Kind::Ars => spec_ars_try_rotate(piece, direction, b),
        Kind::Srs => spec_srs_try_rotate(piece, direction, b),
    }
}

/// Preview offset of `kind` under the system `sys`.
pub open spec fn system_preview_y_offset(sys: Kind, kind: PieceKind) -> int {
    match sys {
        Kind::Ars => 0,
        Kind::Srs => if kind == PieceKind::I || kind == PieceKind::O {
            0
        } else {
            1
        },
    }
}

/// Shape of `kind` in rotation `rotation` (modulo 4) under `sys`.
pub fn cells_of(sys: Kind, kind: PieceKind, rotation: usize) -> (r: [(i32, i32); 4])
    ensures
        r@ == system_cells(sys, kind, rotation as int % 4),
        offsets_in_box(r@),
        r@.len() == 4,
{
    proof {
        lemma_tables_in_box(kind, rotation as int % 4);
    }
    match sys {
        Kind::Ars => ars_cells(kind, rotation),
        Kind::Srs => srs_cells(kind, rotation),
    }
}

/// Whether `kind` in rotation `rotation` with its box corner at (`col`,
/// `row`) lies on the board on empty cells, under `sys`.
pub fn fits_with(
    sys: Kind,
    board: &BoardGrid,
    kind: PieceKind,
    col: i32,
    row: i32,
    rotation: usize,
) -> (r: bool)
    requires
        shift_ok(col as int),
        shift_ok(row as int),
    ensures
        r == fits_at(
            board_model(*board),
            system_cells(sys, kind, rotation as int % 4),
            col as int,
            row as int,
        ),
{
    let cells = cells_of(sys, kind, rotation);
    fits_cells(board, &cells, col, row)
}

/// Turns `piece` in `direction` on `board` under `sys`.
pub fn rotate_with(
    sys: Kind,
    piece: &PieceState,
    direction: RotationDirection,
    board: &BoardGrid,
) -> (r: Option<PieceState>)
    requires
        coord_ok(piece.col as int),
        coord_ok(piece.row as int),
        piece.rotation < 4,
    ensures
        r == system_try_rotate(sys, *piece, direction, board_model(*board)),
{
    match sys {
        Kind::Ars => Ars.try_rotate(piece, direction, board),
        Kind::Srs => Srs.try_rotate(piece, direction, board),
    }
}

/// Preview offset of `kind` under `sys`.
pub fn preview_offset_of(sys: Kind, kind: PieceKind) -> (r: i32)
    ensures
        r == system_preview_y_offset(sys, kind),
{
    match sys {
        Kind::Ars => Ars.preview_y_offset(kind),
        Kind::Srs => Srs.preview_y_offset(kind),
    }
}


/// A piece with room to turn where it stands turns in place, in either
/// rotation system: only its rotation index changes.
pub proof fn law_turn_in_place(
    sys: Kind,
    piece: PieceState,
    direction: RotationDirection,
    b: Seq<Seq<Option<PieceKind>>>,
)
    requires
        fits_at(
            b,
            system_cells(sys, piece.kind, turned(piece.rotation as int, direction)),
            piece.col as int,
            piece.row as int,
        ),
    ensures
        system_try_rotate(sys, piece, direction, b) == Some(
            PieceState { rotation: turned(piece.rotation as int, direction) as usize, ..piece },
        ),
{
    let cw = direction == RotationDirection::Clockwise;
    let idx = spec_kick_index(piece.rotation as int, cw);
    let k = srs_kick(piece.kind == PieceKind::I, idx, 0);
    assert(k == (0i32, 0i32));
}

/// The rotation index after `n` turns in `direction` from `rotation`.
pub open spec fn turned_times(rotation: int, direction: RotationDirection, n: nat) -> int
    decreases n,
{
    if n == 0 {
        rotation
    } else {
        turned(turned_times(rotation, direction, (n - 1) as nat), direction)
    }
}

/// Turning clockwise `k` times (up to four) ends in the rotation that
/// turning counterclockwise `4 - k` times does; four turns either way come
/// back to the start.
pub proof fn law_cw_ccw_equivalence(rotation: int, k: nat)
    requires
        0 <= rotation < 4,
        k <= 4,
    ensures
        turned_times(rotation, RotationDirection::Clockwise, k) == turned_times(
            rotation,
            RotationDirection::Counterclockwise,
            (4 - k) as nat,
        ),
        turned_times(rotation, RotationDirection::Clockwise, 4) == rotation,
        turned_times(rotation, RotationDirection::Counterclockwise, 4) == rotation,
{
    lemma_turned_times(rotation, k);
    lemma_turned_times(rotation, (4 - k) as nat);
    lemma_turned_times(rotation, 4);
    if k == 0 {
    } else if k == 1 {
        assert((rotation + 9) % 4 == (rotation + 1) % 4);
    } else if k == 2 {
        assert((rotation + 6) % 4 == (rotation + 2) % 4);
    } else if k == 3 {
        assert((rotation + 3) % 4 == (rotation + 3) % 4);
    } else {
        assert((rotation + 4) % 4 == rotation);
        assert((rotation + 12) % 4 == rotation);
    }
}

/// `n` turns clockwise add `n` to the rotation index, counterclockwise
/// `3 n`, modulo 4.
proof fn lemma_turned_times(rotation: int, n: nat)
    requires
        0 <= rotation < 4,
    ensures
        turned_times(rotation, RotationDirection::Clockwise, n) == (rotation + n) % 4,
        turned_times(rotation, RotationDirection::Counterclockwise, n) == (rotation + 3 * n) % 4,
    decreases n,
{
    if n > 0 {
        lemma_turned_times(rotation, (n - 1) as nat);
        let a = rotation + n - 1;
        let b = rotation + 3 * (n - 1);
        assert(((a % 4) + 1) % 4 == (a + 1) % 4) by {
            vstd::arithmetic::div_mod::lemma_add_mod_noop(a, 1, 4);
        }
        assert(((b % 4) + 3) % 4 == (b + 3) % 4) by {
            vstd::arithmetic::div_mod::lemma_add_mod_noop(b, 3, 4);
        }
    }
}

/// The standard SRS wall-kick tests for a J, L, S, T or Z piece turning
/// from rotation `from` to rotation `to` (0 spawn, 1 right, 2 upside down,
/// 3 left), in the order they are tried, as (column, row) shifts with rows
/// counted downward.
pub open spec fn jlstz_kick_tests(from: int, to: int) -> Seq<(int, int)> {
    if from == 0 && to == 1 {
        seq![(0int, 0int), (-1, 0), (-1, -1), (0, 2), (-1, 2)]
    } else if from == 1 && to == 0 {
        seq![(0int, 0int), (1, 0), (1, 1), (0, -2), (1, -2)]
    } else if from == 1 && to == 2 {
        seq![(0int, 0int), (1, 0), (1, 1), (0, -2), (1, -2)]
    } else if from == 2 && to == 1 {
        seq![(0int, 0int), (-1, 0), (-1, -1), (0, 2), (-1, 2)]
    } else if from == 2 && to == 3 {
        seq![(0int, 0int), (1, 0), (1, -1), (0, 2), (1, 2)]
    } else if from == 3 && to == 2 {
        seq![(0int, 0int), (-1, 0), (-1, 1), (0, -2), (-1, -2)]
    } else if from == 3 && to == 0 {
        seq![(0int, 0int), (-1, 0), (-1, 1), (0, -2), (-1, -2)]
    } else {
        seq![(0int, 0int), (1, 0), (1, -1), (0, 2), (1, 2)]
    }
}

/// The standard SRS wall-kick tests for the I piece turning from rotation
/// `from` to rotation `to`, in the order they are tried.
pub open spec fn i_kick_tests(from: int, to: int) -> Seq<(int, int)> {
    if from == 0 && to == 1 {
        seq![(0int, 0int), (-2, 0), (1, 0), (-2, 1), (1, -2)]
    } else if from == 1 && to == 0 {
        seq![(0int, 0int), (2, 0), (-1, 0), (2, -1), (-1, 2)]
    } else if from == 1 && to == 2 {
        seq![(0int, 0int), (-1, 0), (2, 0), (-1, -2), (2, 1)]
    } else if from == 2 && to == 1 {
        seq![(0int, 0int), (1, 0), (-2, 0), (1, 2), (-2, -1)]
    } else if from == 2 && to == 3 {
        seq![(0int, 0int), (2, 0), (-1, 0), (2, -1), (-1, 2)]
    } else if from == 3 && to == 2 {
        seq![(0int, 0int), (-2, 0), (1, 0), (-2, 1), (1, -2)]
    } else if from == 3 && to == 0 {
        seq![(0int, 0int), (1, 0), (-2, 0), (1, 2), (-2, -1)]
    } else {
        seq![(0int, 0int), (-1, 0), (2, 0), (-1, -2), (2, 1)]
    }
}

/// The first of the tests from position `t` on at which `shape`, shifted by
/// the test from (`col`, `row`), fits on the board.
pub open spec fn first_fitting_test(
    b: Seq<Seq<Option<PieceKind>>>,
    shape: Seq<(i32, i32)>,
    col: int,
    row: int,
    tests: Seq<(int, int)>,
    t: int,
) -> Option<(int, int)>
    decreases tests.len() - t,
{
    if t < 0 || t >= tests.len() {
        None
    } else if fits_at(b, shape, col + tests[t].0, row + tests[t].1) {
        Some(tests[t])
    } else {
        first_fitting_test(b, shape, col, row, tests, t + 1)
    }
}

/// The SRS kicks, tried from test `t` on, are the standard tests.
proof fn lemma_srs_kicks_are_standard(
    piece: PieceState,
    b: Seq<Seq<Option<PieceKind>>>,
    shape: Seq<(i32, i32)>,
    new_rot: int,
    is_i: bool,
    idx: int,
    tests: Seq<(int, int)>,
    t: int,
)
    requires
        0 <= t <= 5,
        tests.len() == 5,
        forall|u: int| 0 <= u < 5 ==> (#[trigger] srs_kick(is_i, idx, u)).0 == tests[u].0 && srs_kick(is_i, idx, u).1 == tests[u].1,
    ensures
        srs_kick_from(piece, b, shape, new_rot, is_i, idx, t) == (match first_fitting_test(
            b,
            shape,
            piece.col as int,
            piece.row as int,
            tests,
            t,
        ) {
            Some(k) => Some(
                PieceState {
                    col: (piece.col + k.0) as i32,
                    row: (piece.row + k.1) as i32,
                    rotation: new_rot as usize,
                    ..piece
                },
            ),
            None => None,
        }),
    decreases 5 - t,
{
    if t < 5 {
        let k = srs_kick(is_i, idx, t);
        assert(k.0 == tests[t].0 && k.1 == tests[t].1);
        lemma_srs_kicks_are_standard(piece, b, shape, new_rot, is_i, idx, tests, t + 1);
    }
}

/// An SRS turn of a piece other than O tries the standard kick tests of
/// its transition in order (those of the I piece for I, the J, L, S, T, Z
/// ones otherwise) and takes the first at which the turned shape fits,
/// moving the piece by it; when none fits, the piece does not turn.
pub proof fn law_srs_turn_takes_first_fitting_kick(
    piece: PieceState,
    direction: RotationDirection,
    b: Seq<Seq<Option<PieceKind>>>,
)
    requires
        piece.kind != PieceKind::O,
        piece.rotation < 4,
    ensures
        ({
            let from = piece.rotation as int;
            let to = if direction == RotationDirection::Clockwise {
                (from + 1) % 4
            } else {
                (from + 3) % 4
            };
            let tests = if piece.kind == PieceKind::I {
                i_kick_tests(from, to)
            } else {
                jlstz_kick_tests(from, to)
            };
            spec_srs_try_rotate(piece, direction, b) == (match first_fitting_test(
                b,
                srs_table(piece.kind, to),
                piece.col as int,
                piece.row as int,
                tests,
                0,
            ) {
                Some(k) => Some(
                    PieceState {
                        col: (piece.col + k.0) as i32,
                        row: (piece.row + k.1) as i32,
                        rotation: to as usize,
                        ..piece
                    },
                ),
                None => None,
            })
        }),
{
    let from = piece.rotation as int;
    let cw = direction == RotationDirection::Clockwise;
    let to = turned(from, direction);
    let is_i = piece.kind == PieceKind::I;
    let tests = if is_i {
        i_kick_tests(from, to)
    } else {
        jlstz_kick_tests(from, to)
    };
    let idx = spec_kick_index(from, cw);
    assert forall|u: int| 0 <= u < 5 implies (#[trigger] srs_kick(is_i, idx, u)).0 == tests[u].0
        && srs_kick(is_i, idx, u).1 == tests[u].1 by {
        assert(0 <= u < 5);
    }
    lemma_srs_kicks_are_standard(piece, b, srs_table(piece.kind, to), to, is_i, idx, tests, 0);
}

} // verus!
