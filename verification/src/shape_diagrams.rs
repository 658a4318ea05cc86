//! The shape diagrams of both rotation systems, and the proof that the
//! shape tables are what the diagrams show.

use vstd::prelude::*;
use vstd::string::StringSliceAdditionalSpecFns;
use vstd::utf8::{is_ascii_chars, is_ascii_chars_encode_utf8};
use crate::data::{Kind, PieceKind};
use crate::diagram::{diagram_cells, diagram_ok, parse_rotations, scan, DiagramScan};
use crate::rotation_system::{ars_table, srs_table, system_cells};

verus! {

/// The ARS I piece in its four rotations.
pub const ARS_I_DIAGRAM: &'static str = "\n    .... | ..O. | .... | ..O.\n    OOOO | ..O. | OOOO | ..O.\n    .... | ..O. | .... | ..O.\n    .... | ..O. | .... | ..O.\n";

/// The ARS O piece in its four rotations.
pub const ARS_O_DIAGRAM: &'static str = "\n    .... | .... | .... | ....\n    .OO. | .OO. | .OO. | .OO.\n    .OO. | .OO. | .OO. | .OO.\n    .... | .... | .... | ....\n";

/// The ARS T piece in its four rotations.
pub const ARS_T_DIAGRAM: &'static str = "\n    .... | .O.. | .... | .O..\n    OOO. | OO.. | .O.. | .OO.\n    .O.. | .O.. | OOO. | .O..\n    .... | .... | .... | ....\n";

/// The ARS S piece in its four rotations.
pub const ARS_S_DIAGRAM: &'static str = "\n    .... | O... | .... | O...\n    .OO. | OO.. | .OO. | OO..\n    OO.. | .O.. | OO.. | .O..\n    .... | .... | .... | ....\n";

/// The ARS Z piece in its four rotations.
pub const ARS_Z_DIAGRAM: &'static str = "\n    .... | ..O. | .... | ..O.\n    OO.. | .OO. | OO.. | .OO.\n    .OO. | .O.. | .OO. | .O..\n    .... | .... | .... | ....\n";

/// The ARS J piece in its four rotations.
pub const ARS_J_DIAGRAM: &'static str = "\n    .... | .O.. | .... | .OO.\n    OOO. | .O.. | O... | .O..\n    ..O. | OO.. | OOO. | .O..\n    .... | .... | .... | ....\n";

/// The ARS L piece in its four rotations.
pub const ARS_L_DIAGRAM: &'static str = "\n    .... | OO.. | .... | .O..\n    OOO. | .O.. | ..O. | .O..\n    O... | .O.. | OOO. | .OO.\n    .... | .... | .... | ....\n";

/// The SRS I piece in its four rotations.
pub const SRS_I_DIAGRAM: &'static str = "\n    .... | ..O. | .... | .O..\n    OOOO | ..O. | .... | .O..\n    .... | ..O. | OOOO | .O..\n    .... | ..O. | .... | .O..\n";

/// The SRS O piece in its four rotations.
pub const SRS_O_DIAGRAM: &'static str = "\n    .... | .... | .... | ....\n    .OO. | .OO. | .OO. | .OO.\n    .OO. | .OO. | .OO. | .OO.\n    .... | .... | .... | ....\n";

/// The SRS T piece in its four rotations.
pub const SRS_T_DIAGRAM: &'static str = "\n    .O.. | .O.. | .... | .O..\n    OOO. | .OO. | OOO. | OO..\n    .... | .O.. | .O.. | .O..\n    .... | .... | .... | ....\n";

/// The SRS S piece in its four rotations.
pub const SRS_S_DIAGRAM: &'static str = "\n    .OO. | .O.. | .... | O...\n    OO.. | .OO. | .OO. | OO..\n    .... | ..O. | OO.. | .O..\n    .... | .... | .... | ....\n";

/// The SRS Z piece in its four rotations.
pub const SRS_Z_DIAGRAM: &'static str = "\n    OO.. | ..O. | .... | .O..\n    .OO. | .OO. | OO.. | OO..\n    .... | .O.. | .OO. | O...\n    .... | .... | .... | ....\n";

/// The SRS J piece in its four rotations.
pub const SRS_J_DIAGRAM: &'static str = "\n    O... | .OO. | .... | .O..\n    OOO. | .O.. | OOO. | .O..\n    .... | .O.. | ..O. | OO..\n    .... | .... | .... | ....\n";

/// The SRS L piece in its four rotations.
pub const SRS_L_DIAGRAM: &'static str = "\n    ..O. | .O.. | .... | OO..\n    OOO. | .O.. | OOO. | .O..\n    .... | .OO. | O... | .O..\n    .... | .... | .... | ....\n";
/// The reading of a diagram stands at the start of a line, after `row`
/// rows, with `cells` read so far and nothing stray.
pub open spec fn at_line_start(st: DiagramScan, row: int, cells: Seq<Seq<(int, int)>>) -> bool {
    &&& st.row == row
    &&& !st.nonblank
    &&& st.seg == 0
    &&& !st.started
    &&& st.col == 0
    &&& !st.bad
    &&& st.cells.len() == 4
    &&& st.cells[0] =~= cells[0]
    &&& st.cells[1] =~= cells[1]
    &&& st.cells[2] =~= cells[2]
    &&& st.cells[3] =~= cells[3]
}

/// No cells.
pub open spec fn no_cells() -> Seq<(int, int)> {
    Seq::empty()
}

/// The cells of a shape table as pairs of integers.
pub open spec fn int_cells(t: Seq<(i32, i32)>) -> Seq<(int, int)> {
    t.map_values(|p: (i32, i32)| (p.0 as int, p.1 as int))
}

/// The diagram of `kind` under the rotation system `sys`.
pub open spec fn diagram_text(sys: Kind, kind: PieceKind) -> &'static str {
    match sys {
        Kind::Ars => match kind {
            PieceKind::I => ARS_I_DIAGRAM,
            PieceKind::O => ARS_O_DIAGRAM,
            PieceKind::T => ARS_T_DIAGRAM,
            PieceKind::S => ARS_S_DIAGRAM,
            PieceKind::Z => ARS_Z_DIAGRAM,
            PieceKind::J => ARS_J_DIAGRAM,
            PieceKind::L => ARS_L_DIAGRAM,
        },
        Kind::Srs => match kind {
            PieceKind::I => SRS_I_DIAGRAM,
            PieceKind::O => SRS_O_DIAGRAM,
            PieceKind::T => SRS_T_DIAGRAM,
            PieceKind::S => SRS_S_DIAGRAM,
            PieceKind::Z => SRS_Z_DIAGRAM,
            PieceKind::J => SRS_J_DIAGRAM,
            PieceKind::L => SRS_L_DIAGRAM,
        },
    }
}

/// The diagram of `kind` under the rotation system `sys`.
pub fn diagram_of(sys: Kind, kind: PieceKind) -> (d: &'static str)
    ensures
        d == diagram_text(sys, kind),
{
    match sys {
        Kind::Ars => match kind {
            PieceKind::I => ARS_I_DIAGRAM,
            PieceKind::O => ARS_O_DIAGRAM,
            PieceKind::T => ARS_T_DIAGRAM,
            PieceKind::S => ARS_S_DIAGRAM,
            PieceKind::Z => ARS_Z_DIAGRAM,
            PieceKind::J => ARS_J_DIAGRAM,
            PieceKind::L => ARS_L_DIAGRAM,
        },
        Kind::Srs => match kind {
            PieceKind::I => SRS_I_DIAGRAM,
            PieceKind::O => SRS_O_DIAGRAM,
            PieceKind::T => SRS_T_DIAGRAM,
            PieceKind::S => SRS_S_DIAGRAM,
            PieceKind::Z => SRS_Z_DIAGRAM,
            PieceKind::J => SRS_J_DIAGRAM,
            PieceKind::L => SRS_L_DIAGRAM,
        },
    }
}

/// The ARS I diagram reads as the ARS I shapes.
#[verifier::spinoff_prover]
#[verifier::rlimit(60)]
proof fn lemma_ars_i_diagram()
    ensures
        diagram_ok(ARS_I_DIAGRAM.spec_bytes()),
        ARS_I_DIAGRAM.spec_bytes().len() == 121,
        forall|r: int|
            0 <= r < 4 ==> diagram_cells(ARS_I_DIAGRAM.spec_bytes(), r) == int_cells(
                ars_table(PieceKind::I, r),
            ),
{
    reveal_strlit("\n    .... | ..O. | .... | ..O.\n    OOOO | ..O. | OOOO | ..O.\n    .... | ..O. | .... | ..O.\n    .... | ..O. | .... | ..O.\n");
    let c = ARS_I_DIAGRAM@;
    assert(is_ascii_chars(c));
    is_ascii_chars_encode_utf8(c);
    let b = ARS_I_DIAGRAM.spec_bytes();
    reveal_with_fuel(scan, 32);
    // The reading at the start of each line: rows read and cells so far.
    assert(at_line_start(scan(b, 1), 0, seq![no_cells(), no_cells(), no_cells(), no_cells()]));
    assert(at_line_start(scan(b, 31), 1, seq![no_cells(), seq![(2int, 0int)], no_cells(), seq![(2int, 0int)]]));
    assert(at_line_start(scan(b, 61), 2, seq![seq![(0int, 1int), (1int, 1int), (2int, 1int), (3int, 1int)], seq![(2int, 0int), (2int, 1int)], seq![(0int, 1int), (1int, 1int), (2int, 1int), (3int, 1int)], seq![(2int, 0int), (2int, 1int)]]));
    assert(at_line_start(scan(b, 91), 3, seq![seq![(0int, 1int), (1int, 1int), (2int, 1int), (3int, 1int)], seq![(2int, 0int), (2int, 1int), (2int, 2int)], seq![(0int, 1int), (1int, 1int), (2int, 1int), (3int, 1int)], seq![(2int, 0int), (2int, 1int), (2int, 2int)]]));
    assert(at_line_start(scan(b, 121), 4, seq![seq![(0int, 1int), (1int, 1int), (2int, 1int), (3int, 1int)], seq![(2int, 0int), (2int, 1int), (2int, 2int), (2int, 3int)], seq![(0int, 1int), (1int, 1int), (2int, 1int), (3int, 1int)], seq![(2int, 0int), (2int, 1int), (2int, 2int), (2int, 3int)]]));
    assert forall|r: int| 0 <= r < 4 implies diagram_cells(b, r) == int_cells(ars_table(PieceKind::I, r)) by {
        assert(diagram_cells(b, r) =~= int_cells(ars_table(PieceKind::I, r)));
    }
}

/// The ARS O diagram reads as the ARS O shapes.
#[verifier::spinoff_prover]
#[verifier::rlimit(60)]
proof fn lemma_ars_o_diagram()
    ensures
        diagram_ok(ARS_O_DIAGRAM.spec_bytes()),
        ARS_O_DIAGRAM.spec_bytes().len() == 121,
        forall|r: int|
            0 <= r < 4 ==> diagram_cells(ARS_O_DIAGRAM.spec_bytes(), r) == int_cells(
                ars_table(PieceKind::O, r),
            ),
{
    reveal_strlit("\n    .... | .... | .... | ....\n    .OO. | .OO. | .OO. | .OO.\n    .OO. | .OO. | .OO. | .OO.\n    .... | .... | .... | ....\n");
    let c = ARS_O_DIAGRAM@;
    assert(is_ascii_chars(c));
    is_ascii_chars_encode_utf8(c);
    let b = ARS_O_DIAGRAM.spec_bytes();
    reveal_with_fuel(scan, 32);
    // The reading at the start of each line: rows read and cells so far.
    assert(at_line_start(scan(b, 1), 0, seq![no_cells(), no_cells(), no_cells(), no_cells()]));
    assert(at_line_start(scan(b, 31), 1, seq![no_cells(), no_cells(), no_cells(), no_cells()]));
    assert(at_line_start(scan(b, 61), 2, seq![seq![(1int, 1int), (2int, 1int)], seq![(1int, 1int), (2int, 1int)], seq![(1int, 1int), (2int, 1int)], seq![(1int, 1int), (2int, 1int)]]));
    assert(at_line_start(scan(b, 91), 3, seq![seq![(1int, 1int), (2int, 1int), (1int, 2int), (2int, 2int)], seq![(1int, 1int), (2int, 1int), (1int, 2int), (2int, 2int)], seq![(1int, 1int), (2int, 1int), (1int, 2int), (2int, 2int)], seq![(1int, 1int), (2int, 1int), (1int, 2int), (2int, 2int)]]));
    assert(at_line_start(scan(b, 121), 4, seq![seq![(1int, 1int), (2int, 1int), (1int, 2int), (2int, 2int)], seq![(1int, 1int), (2int, 1int), (1int, 2int), (2int, 2int)], seq![(1int, 1int), (2int, 1int), (1int, 2int), (2int, 2int)], seq![(1int, 1int), (2int, 1int), (1int, 2int), (2int, 2int)]]));
    assert forall|r: int| 0 <= r < 4 implies diagram_cells(b, r) == int_cells(ars_table(PieceKind::O, r)) by {
        assert(diagram_cells(b, r) =~= int_cells(ars_table(PieceKind::O, r)));
    }
}

/// The ARS T diagram reads as the ARS T shapes.
#[verifier::spinoff_prover]
#[verifier::rlimit(60)]
proof fn lemma_ars_t_diagram()
    ensures
        diagram_ok(ARS_T_DIAGRAM.spec_bytes()),
        ARS_T_DIAGRAM.spec_bytes().len() == 121,
        forall|r: int|
            0 <= r < 4 ==> diagram_cells(ARS_T_DIAGRAM.spec_bytes(), r) == int_cells(
                ars_table(PieceKind::T, r),
            ),
{
    reveal_strlit("\n    .... | .O.. | .... | .O..\n    OOO. | OO.. | .O.. | .OO.\n    .O.. | .O.. | OOO. | .O..\n    .... | .... | .... | ....\n");
    let c = ARS_T_DIAGRAM@;
    assert(is_ascii_chars(c));
    is_ascii_chars_encode_utf8(c);
    let b = ARS_T_DIAGRAM.spec_bytes();
    reveal_with_fuel(scan, 32);
    // The reading at the start of each line: rows read and cells so far.
    assert(at_line_start(scan(b, 1), 0, seq![no_cells(), no_cells(), no_cells(), no_cells()]));
    assert(at_line_start(scan(b, 31), 1, seq![no_cells(), seq![(1int, 0int)], no_cells(), seq![(1int, 0int)]]));
    assert(at_line_start(scan(b, 61), 2, seq![seq![(0int, 1int), (1int, 1int), (2int, 1int)], seq![(1int, 0int), (0int, 1int), (1int, 1int)], seq![(1int, 1int)], seq![(1int, 0int), (1int, 1int), (2int, 1int)]]));
    assert(at_line_start(scan(b, 91), 3, seq![seq![(0int, 1int), (1int, 1int), (2int, 1int), (1int, 2int)], seq![(1int, 0int), (0int, 1int), (1int, 1int), (1int, 2int)], seq![(1int, 1int), (0int, 2int), (1int, 2int), (2int, 2int)], seq![(1int, 0int), (1int, 1int), (2int, 1int), (1int, 2int)]]));
    assert(at_line_start(scan(b, 121), 4, seq![seq![(0int, 1int), (1int, 1int), (2int, 1int), (1int, 2int)], seq![(1int, 0int), (0int, 1int), (1int, 1int), (1int, 2int)], seq![(1int, 1int), (0int, 2int), (1int, 2int), (2int, 2int)], seq![(1int, 0int), (1int, 1int), (2int, 1int), (1int, 2int)]]));
    assert forall|r: int| 0 <= r < 4 implies diagram_cells(b, r) == int_cells(ars_table(PieceKind::T, r)) by {
        assert(diagram_cells(b, r) =~= int_cells(ars_table(PieceKind::T, r)));
    }
}

/// The ARS S diagram reads as the ARS S shapes.
#[verifier::spinoff_prover]
#[verifier::rlimit(60)]
proof fn lemma_ars_s_diagram()
    ensures
        diagram_ok(ARS_S_DIAGRAM.spec_bytes()),
        ARS_S_DIAGRAM.spec_bytes().len() == 121,
        forall|r: int|
            0 <= r < 4 ==> diagram_cells(ARS_S_DIAGRAM.spec_bytes(), r) == int_cells(
                ars_table(PieceKind::S, r),
            ),
{
    reveal_strlit("\n    .... | O... | .... | O...\n    .OO. | OO.. | .OO. | OO..\n    OO.. | .O.. | OO.. | .O..\n    .... | .... | .... | ....\n");
    let c = ARS_S_DIAGRAM@;
    assert(is_ascii_chars(c));
    is_ascii_chars_encode_utf8(c);
    let b = ARS_S_DIAGRAM.spec_bytes();
    reveal_with_fuel(scan, 32);
    // The reading at the start of each line: rows read and cells so far.
    assert(at_line_start(scan(b, 1), 0, seq![no_cells(), no_cells(), no_cells(), no_cells()]));
    assert(at_line_start(scan(b, 31), 1, seq![no_cells(), seq![(0int, 0int)], no_cells(), seq![(0int, 0int)]]));
    assert(at_line_start(scan(b, 61), 2, seq![seq![(1int, 1int), (2int, 1int)], seq![(0int, 0int), (0int, 1int), (1int, 1int)], seq![(1int, 1int), (2int, 1int)], seq![(0int, 0int), (0int, 1int), (1int, 1int)]]));
    assert(at_line_start(scan(b, 91), 3, seq![seq![(1int, 1int), (2int, 1int), (0int, 2int), (1int, 2int)], seq![(0int, 0int), (0int, 1int), (1int, 1int), (1int, 2int)], seq![(1int, 1int), (2int, 1int), (0int, 2int), (1int, 2int)], seq![(0int, 0int), (0int, 1int), (1int, 1int), (1int, 2int)]]));
    assert(at_line_start(scan(b, 121), 4, seq![seq![(1int, 1int), (2int, 1int), (0int, 2int), (1int, 2int)], seq![(0int, 0int), (0int, 1int), (1int, 1int), (1int, 2int)], seq![(1int, 1int), (2int, 1int), (0int, 2int), (1int, 2int)], seq![(0int, 0int), (0int, 1int), (1int, 1int), (1int, 2int)]]));
    assert forall|r: int| 0 <= r < 4 implies diagram_cells(b, r) == int_cells(ars_table(PieceKind::S, r)) by {
        assert(diagram_cells(b, r) =~= int_cells(ars_table(PieceKind::S, r)));
    }
}

/// The ARS Z diagram reads as the ARS Z shapes.
#[verifier::spinoff_prover]
#[verifier::rlimit(60)]
proof fn lemma_ars_z_diagram()
    ensures
        diagram_ok(ARS_Z_DIAGRAM.spec_bytes()),
        ARS_Z_DIAGRAM.spec_bytes().len() == 121,
        forall|r: int|
            0 <= r < 4 ==> diagram_cells(ARS_Z_DIAGRAM.spec_bytes(), r) == int_cells(
                ars_table(PieceKind::Z, r),
            ),
{
    reveal_strlit("\n    .... | ..O. | .... | ..O.\n    OO.. | .OO. | OO.. | .OO.\n    .OO. | .O.. | .OO. | .O..\n    .... | .... | .... | ....\n");
    let c = ARS_Z_DIAGRAM@;
    assert(is_ascii_chars(c));
    is_ascii_chars_encode_utf8(c);
    let b = ARS_Z_DIAGRAM.spec_bytes();
    reveal_with_fuel(scan, 32);
    // The reading at the start of each line: rows read and cells so far.
    assert(at_line_start(scan(b, 1), 0, seq![no_cells(), no_cells(), no_cells(), no_cells()]));
    assert(at_line_start(scan(b, 31), 1, seq![no_cells(), seq![(2int, 0int)], no_cells(), seq![(2int, 0int)]]));
    assert(at_line_start(scan(b, 61), 2, seq![seq![(0int, 1int), (1int, 1int)], seq![(2int, 0int), (1int, 1int), (2int, 1int)], seq![(0int, 1int), (1int, 1int)], seq![(2int, 0int), (1int, 1int), (2int, 1int)]]));
    assert(at_line_start(scan(b, 91), 3, seq![seq![(0int, 1int), (1int, 1int), (1int, 2int), (2int, 2int)], seq![(2int, 0int), (1int, 1int), (2int, 1int), (1int, 2int)], seq![(0int, 1int), (1int, 1int), (1int, 2int), (2int, 2int)], seq![(2int, 0int), (1int, 1int), (2int, 1int), (1int, 2int)]]));
    assert(at_line_start(scan(b, 121), 4, seq![seq![(0int, 1int), (1int, 1int), (1int, 2int), (2int, 2int)], seq![(2int, 0int), (1int, 1int), (2int, 1int), (1int, 2int)], seq![(0int, 1int), (1int, 1int), (1int, 2int), (2int, 2int)], seq![(2int, 0int), (1int, 1int), (2int, 1int), (1int, 2int)]]));
    assert forall|r: int| 0 <= r < 4 implies diagram_cells(b, r) == int_cells(ars_table(PieceKind::Z, r)) by {
        assert(diagram_cells(b, r) =~= int_cells(ars_table(PieceKind::Z, r)));
    }
}

/// The ARS J diagram reads as the ARS J shapes.
#[verifier::spinoff_prover]
#[verifier::rlimit(60)]
proof fn lemma_ars_j_diagram()
    ensures
        diagram_ok(ARS_J_DIAGRAM.spec_bytes()),
        ARS_J_DIAGRAM.spec_bytes().len() == 121,
        forall|r: int|
            0 <= r < 4 ==> diagram_cells(ARS_J_DIAGRAM.spec_bytes(), r) == int_cells(
                ars_table(PieceKind::J, r),
            ),
{
    reveal_strlit("\n    .... | .O.. | .... | .OO.\n    OOO. | .O.. | O... | .O..\n    ..O. | OO.. | OOO. | .O..\n    .... | .... | .... | ....\n");
    let c = ARS_J_DIAGRAM@;
    assert(is_ascii_chars(c));
    is_ascii_chars_encode_utf8(c);
    let b = ARS_J_DIAGRAM.spec_bytes();
    reveal_with_fuel(scan, 32);
    // The reading at the start of each line: rows read and cells so far.
    assert(at_line_start(scan(b, 1), 0, seq![no_cells(), no_cells(), no_cells(), no_cells()]));
    assert(at_line_start(scan(b, 31), 1, seq![no_cells(), seq![(1int, 0int)], no_cells(), seq![(1int, 0int), (2int, 0int)]]));
    assert(at_line_start(scan(b, 61), 2, seq![seq![(0int, 1int), (1int, 1int), (2int, 1int)], seq![(1int, 0int), (1int, 1int)], seq![(0int, 1int)], seq![(1int, 0int), (2int, 0int), (1int, 1int)]]));
    assert(at_line_start(scan(b, 91), 3, seq![seq![(0int, 1int), (1int, 1int), (2int, 1int), (2int, 2int)], seq![(1int, 0int), (1int, 1int), (0int, 2int), (1int, 2int)], seq![(0int, 1int), (0int, 2int), (1int, 2int), (2int, 2int)], seq![(1int, 0int), (2int, 0int), (1int, 1int), (1int, 2int)]]));
    assert(at_line_start(scan(b, 121), 4, seq![seq![(0int, 1int), (1int, 1int), (2int, 1int), (2int, 2int)], seq![(1int, 0int), (1int, 1int), (0int, 2int), (1int, 2int)], seq![(0int, 1int), (0int, 2int), (1int, 2int), (2int, 2int)], seq![(1int, 0int), (2int, 0int), (1int, 1int), (1int, 2int)]]));
    assert forall|r: int| 0 <= r < 4 implies diagram_cells(b, r) == int_cells(ars_table(PieceKind::J, r)) by {
        assert(diagram_cells(b, r) =~= int_cells(ars_table(PieceKind::J, r)));
    }
}

/// The ARS L diagram reads as the ARS L shapes.
#[verifier::spinoff_prover]
#[verifier::rlimit(60)]
proof fn lemma_ars_l_diagram()
    ensures
        diagram_ok(ARS_L_DIAGRAM.spec_bytes()),
        ARS_L_DIAGRAM.spec_bytes().len() == 121,
        forall|r: int|
            0 <= r < 4 ==> diagram_cells(ARS_L_DIAGRAM.spec_bytes(), r) == int_cells(
                ars_table(PieceKind::L, r),
            ),
{
    reveal_strlit("\n    .... | OO.. | .... | .O..\n    OOO. | .O.. | ..O. | .O..\n    O... | .O.. | OOO. | .OO.\n    .... | .... | .... | ....\n");
    let c = ARS_L_DIAGRAM@;
    assert(is_ascii_chars(c));
    is_ascii_chars_encode_utf8(c);
    let b = ARS_L_DIAGRAM.spec_bytes();
    reveal_with_fuel(scan, 32);
    // The reading at the start of each line: rows read and cells so far.
    assert(at_line_start(scan(b, 1), 0, seq![no_cells(), no_cells(), no_cells(), no_cells()]));
    assert(at_line_start(scan(b, 31), 1, seq![no_cells(), seq![(0int, 0int), (1int, 0int)], no_cells(), seq![(1int, 0int)]]));
    assert(at_line_start(scan(b, 61), 2, seq![seq![(0int, 1int), (1int, 1int), (2int, 1int)], seq![(0int, 0int), (1int, 0int), (1int, 1int)], seq![(2int, 1int)], seq![(1int, 0int), (1int, 1int)]]));
    assert(at_line_start(scan(b, 91), 3, seq![seq![(0int, 1int), (1int, 1int), (2int, 1int), (0int, 2int)], seq![(0int, 0int), (1int, 0int), (1int, 1int), (1int, 2int)], seq![(2int, 1int), (0int, 2int), (1int, 2int), (2int, 2int)], seq![(1int, 0int), (1int, 1int), (1int, 2int), (2int, 2int)]]));
    assert(at_line_start(scan(b, 121), 4, seq![seq![(0int, 1int), (1int, 1int), (2int, 1int), (0int, 2int)], seq![(0int, 0int), (1int, 0int), (1int, 1int), (1int, 2int)], seq![(2int, 1int), (0int, 2int), (1int, 2int), (2int, 2int)], seq![(1int, 0int), (1int, 1int), (1int, 2int), (2int, 2int)]]));
    assert forall|r: int| 0 <= r < 4 implies diagram_cells(b, r) == int_cells(ars_table(PieceKind::L, r)) by {
        assert(diagram_cells(b, r) =~= int_cells(ars_table(PieceKind::L, r)));
    }
}

/// The SRS I diagram reads as the SRS I shapes.
#[verifier::spinoff_prover]
#[verifier::rlimit(60)]
proof fn lemma_srs_i_diagram()
    ensures
        diagram_ok(SRS_I_DIAGRAM.spec_bytes()),
        SRS_I_DIAGRAM.spec_bytes().len() == 121,
        forall|r: int|
            0 <= r < 4 ==> diagram_cells(SRS_I_DIAGRAM.spec_bytes(), r) == int_cells(
                srs_table(PieceKind::I, r),
            ),
{
    reveal_strlit("\n    .... | ..O. | .... | .O..\n    OOOO | ..O. | .... | .O..\n    .... | ..O. | OOOO | .O..\n    .... | ..O. | .... | .O..\n");
    let c = SRS_I_DIAGRAM@;
    assert(is_ascii_chars(c));
    is_ascii_chars_encode_utf8(c);
    let b = SRS_I_DIAGRAM.spec_bytes();
    reveal_with_fuel(scan, 32);
    // The reading at the start of each line: rows read and cells so far.
    assert(at_line_start(scan(b, 1), 0, seq![no_cells(), no_cells(), no_cells(), no_cells()]));
    assert(at_line_start(scan(b, 31), 1, seq![no_cells(), seq![(2int, 0int)], no_cells(), seq![(1int, 0int)]]));
    assert(at_line_start(scan(b, 61), 2, seq![seq![(0int, 1int), (1int, 1int), (2int, 1int), (3int, 1int)], seq![(2int, 0int), (2int, 1int)], no_cells(), seq![(1int, 0int), (1int, 1int)]]));
    assert(at_line_start(scan(b, 91), 3, seq![seq![(0int, 1int), (1int, 1int), (2int, 1int), (3int, 1int)], seq![(2int, 0int), (2int, 1int), (2int, 2int)], seq![(0int, 2int), (1int, 2int), (2int, 2int), (3int, 2int)], seq![(1int, 0int), (1int, 1int), (1int, 2int)]]));
    assert(at_line_start(scan(b, 121), 4, seq![seq![(0int, 1int), (1int, 1int), (2int, 1int), (3int, 1int)], seq![(2int, 0int), (2int, 1int), (2int, 2int), (2int, 3int)], seq![(0int, 2int), (1int, 2int), (2int, 2int), (3int, 2int)], seq![(1int, 0int), (1int, 1int), (1int, 2int), (1int, 3int)]]));
    assert forall|r: int| 0 <= r < 4 implies diagram_cells(b, r) == int_cells(srs_table(PieceKind::I, r)) by {
        assert(diagram_cells(b, r) =~= int_cells(srs_table(PieceKind::I, r)));
    }
}

/// The SRS O diagram reads as the SRS O shapes.
#[verifier::spinoff_prover]
#[verifier::rlimit(60)]
proof fn lemma_srs_o_diagram()
    ensures
        diagram_ok(SRS_O_DIAGRAM.spec_bytes()),
        SRS_O_DIAGRAM.spec_bytes().len() == 121,
        forall|r: int|
            0 <= r < 4 ==> diagram_cells(SRS_O_DIAGRAM.spec_bytes(), r) == int_cells(
                srs_table(PieceKind::O, r),
            ),
{
    reveal_strlit("\n    .... | .... | .... | ....\n    .OO. | .OO. | .OO. | .OO.\n    .OO. | .OO. | .OO. | .OO.\n    .... | .... | .... | ....\n");
    let c = SRS_O_DIAGRAM@;
    assert(is_ascii_chars(c));
    is_ascii_chars_encode_utf8(c);
    let b = SRS_O_DIAGRAM.spec_bytes();
    reveal_with_fuel(scan, 32);
    // The reading at the start of each line: rows read and cells so far.
    assert(at_line_start(scan(b, 1), 0, seq![no_cells(), no_cells(), no_cells(), no_cells()]));
    assert(at_line_start(scan(b, 31), 1, seq![no_cells(), no_cells(), no_cells(), no_cells()]));
    assert(at_line_start(scan(b, 61), 2, seq![seq![(1int, 1int), (2int, 1int)], seq![(1int, 1int), (2int, 1int)], seq![(1int, 1int), (2int, 1int)], seq![(1int, 1int), (2int, 1int)]]));
    assert(at_line_start(scan(b, 91), 3, seq![seq![(1int, 1int), (2int, 1int), (1int, 2int), (2int, 2int)], seq![(1int, 1int), (2int, 1int), (1int, 2int), (2int, 2int)], seq![(1int, 1int), (2int, 1int), (1int, 2int), (2int, 2int)], seq![(1int, 1int), (2int, 1int), (1int, 2int), (2int, 2int)]]));
    assert(at_line_start(scan(b, 121), 4, seq![seq![(1int, 1int), (2int, 1int), (1int, 2int), (2int, 2int)], seq![(1int, 1int), (2int, 1int), (1int, 2int), (2int, 2int)], seq![(1int, 1int), (2int, 1int), (1int, 2int), (2int, 2int)], seq![(1int, 1int), (2int, 1int), (1int, 2int), (2int, 2int)]]));
    assert forall|r: int| 0 <= r < 4 implies diagram_cells(b, r) == int_cells(srs_table(PieceKind::O, r)) by {
        assert(diagram_cells(b, r) =~= int_cells(srs_table(PieceKind::O, r)));
    }
}

/// The SRS T diagram reads as the SRS T shapes.
#[verifier::spinoff_prover]
#[verifier::rlimit(60)]
proof fn lemma_srs_t_diagram()
    ensures
        diagram_ok(SRS_T_DIAGRAM.spec_bytes()),
        SRS_T_DIAGRAM.spec_bytes().len() == 121,
        forall|r: int|
            0 <= r < 4 ==> diagram_cells(SRS_T_DIAGRAM.spec_bytes(), r) == int_cells(
                srs_table(PieceKind::T, r),
            ),
{
    reveal_strlit("\n    .O.. | .O.. | .... | .O..\n    OOO. | .OO. | OOO. | OO..\n    .... | .O.. | .O.. | .O..\n    .... | .... | .... | ....\n");
    let c = SRS_T_DIAGRAM@;
    assert(is_ascii_chars(c));
    is_ascii_chars_encode_utf8(c);
    let b = SRS_T_DIAGRAM.spec_bytes();
    reveal_with_fuel(scan, 32);
    // The reading at the start of each line: rows read and cells so far.
    assert(at_line_start(scan(b, 1), 0, seq![no_cells(), no_cells(), no_cells(), no_cells()]));
    assert(at_line_start(scan(b, 31), 1, seq![seq![(1int, 0int)], seq![(1int, 0int)], no_cells(), seq![(1int, 0int)]]));
    assert(at_line_start(scan(b, 61), 2, seq![seq![(1int, 0int), (0int, 1int), (1int, 1int), (2int, 1int)], seq![(1int, 0int), (1int, 1int), (2int, 1int)], seq![(0int, 1int), (1int, 1int), (2int, 1int)], seq![(1int, 0int), (0int, 1int), (1int, 1int)]]));
    assert(at_line_start(scan(b, 91), 3, seq![seq![(1int, 0int), (0int, 1int), (1int, 1int), (2int, 1int)], seq![(1int, 0int), (1int, 1int), (2int, 1int), (1int, 2int)], seq![(0int, 1int), (1int, 1int), (2int, 1int), (1int, 2int)], seq![(1int, 0int), (0int, 1int), (1int, 1int), (1int, 2int)]]));
    assert(at_line_start(scan(b, 121), 4, seq![seq![(1int, 0int), (0int, 1int), (1int, 1int), (2int, 1int)], seq![(1int, 0int), (1int, 1int), (2int, 1int), (1int, 2int)], seq![(0int, 1int), (1int, 1int), (2int, 1int), (1int, 2int)], seq![(1int, 0int), (0int, 1int), (1int, 1int), (1int, 2int)]]));
    assert forall|r: int| 0 <= r < 4 implies diagram_cells(b, r) == int_cells(srs_table(PieceKind::T, r)) by {
        assert(diagram_cells(b, r) =~= int_cells(srs_table(PieceKind::T, r)));
    }
}

/// The SRS S diagram reads as the SRS S shapes.
#[verifier::spinoff_prover]
#[verifier::rlimit(60)]
proof fn lemma_srs_s_diagram()
    ensures
        diagram_ok(SRS_S_DIAGRAM.spec_bytes()),
        SRS_S_DIAGRAM.spec_bytes().len() == 121,
        forall|r: int|
            0 <= r < 4 ==> diagram_cells(SRS_S_DIAGRAM.spec_bytes(), r) == int_cells(
                srs_table(PieceKind::S, r),
            ),
{
    reveal_strlit("\n    .OO. | .O.. | .... | O...\n    OO.. | .OO. | .OO. | OO..\n    .... | ..O. | OO.. | .O..\n    .... | .... | .... | ....\n");
    let c = SRS_S_DIAGRAM@;
    assert(is_ascii_chars(c));
    is_ascii_chars_encode_utf8(c);
    let b = SRS_S_DIAGRAM.spec_bytes();
    reveal_with_fuel(scan, 32);
    // The reading at the start of each line: rows read and cells so far.
    assert(at_line_start(scan(b, 1), 0, seq![no_cells(), no_cells(), no_cells(), no_cells()]));
    assert(at_line_start(scan(b, 31), 1, seq![seq![(1int, 0int), (2int, 0int)], seq![(1int, 0int)], no_cells(), seq![(0int, 0int)]]));
    assert(at_line_start(scan(b, 61), 2, seq![seq![(1int, 0int), (2int, 0int), (0int, 1int), (1int, 1int)], seq![(1int, 0int), (1int, 1int), (2int, 1int)], seq![(1int, 1int), (2int, 1int)], seq![(0int, 0int), (0int, 1int), (1int, 1int)]]));
    assert(at_line_start(scan(b, 91), 3, seq![seq![(1int, 0int), (2int, 0int), (0int, 1int), (1int, 1int)], seq![(1int, 0int), (1int, 1int), (2int, 1int), (2int, 2int)], seq![(1int, 1int), (2int, 1int), (0int, 2int), (1int, 2int)], seq![(0int, 0int), (0int, 1int), (1int, 1int), (1int, 2int)]]));
    assert(at_line_start(scan(b, 121), 4, seq![seq![(1int, 0int), (2int, 0int), (0int, 1int), (1int, 1int)], seq![(1int, 0int), (1int, 1int), (2int, 1int), (2int, 2int)], seq![(1int, 1int), (2int, 1int), (0int, 2int), (1int, 2int)], seq![(0int, 0int), (0int, 1int), (1int, 1int), (1int, 2int)]]));
    assert forall|r: int| 0 <= r < 4 implies diagram_cells(b, r) == int_cells(srs_table(PieceKind::S, r)) by {
        assert(diagram_cells(b, r) =~= int_cells(srs_table(PieceKind::S, r)));
    }
}

/// The SRS Z diagram reads as the SRS Z shapes.
#[verifier::spinoff_prover]
#[verifier::rlimit(60)]
proof fn lemma_srs_z_diagram()
    ensures
        diagram_ok(SRS_Z_DIAGRAM.spec_bytes()),
        SRS_Z_DIAGRAM.spec_bytes().len() == 121,
        forall|r: int|
            0 <= r < 4 ==> diagram_cells(SRS_Z_DIAGRAM.spec_bytes(), r) == int_cells(
                srs_table(PieceKind::Z, r),
            ),
{
    reveal_strlit("\n    OO.. | ..O. | .... | .O..\n    .OO. | .OO. | OO.. | OO..\n    .... | .O.. | .OO. | O...\n    .... | .... | .... | ....\n");
    let c = SRS_Z_DIAGRAM@;
    assert(is_ascii_chars(c));
    is_ascii_chars_encode_utf8(c);
    let b = SRS_Z_DIAGRAM.spec_bytes();
    reveal_with_fuel(scan, 32);
    // The reading at the start of each line: rows read and cells so far.
    assert(at_line_start(scan(b, 1), 0, seq![no_cells(), no_cells(), no_cells(), no_cells()]));
    assert(at_line_start(scan(b, 31), 1, seq![seq![(0int, 0int), (1int, 0int)], seq![(2int, 0int)], no_cells(), seq![(1int, 0int)]]));
    assert(at_line_start(scan(b, 61), 2, seq![seq![(0int, 0int), (1int, 0int), (1int, 1int), (2int, 1int)], seq![(2int, 0int), (1int, 1int), (2int, 1int)], seq![(0int, 1int), (1int, 1int)], seq![(1int, 0int), (0int, 1int), (1int, 1int)]]));
    assert(at_line_start(scan(b, 91), 3, seq![seq![(0int, 0int), (1int, 0int), (1int, 1int), (2int, 1int)], seq![(2int, 0int), (1int, 1int), (2int, 1int), (1int, 2int)], seq![(0int, 1int), (1int, 1int), (1int, 2int), (2int, 2int)], seq![(1int, 0int), (0int, 1int), (1int, 1int), (0int, 2int)]]));
    assert(at_line_start(scan(b, 121), 4, seq![seq![(0int, 0int), (1int, 0int), (1int, 1int), (2int, 1int)], seq![(2int, 0int), (1int, 1int), (2int, 1int), (1int, 2int)], seq![(0int, 1int), (1int, 1int), (1int, 2int), (2int, 2int)], seq![(1int, 0int), (0int, 1int), (1int, 1int), (0int, 2int)]]));
    assert forall|r: int| 0 <= r < 4 implies diagram_cells(b, r) == int_cells(srs_table(PieceKind::Z, r)) by {
        assert(diagram_cells(b, r) =~= int_cells(srs_table(PieceKind::Z, r)));
    }
}

/// The SRS J diagram reads as the SRS J shapes.
#[verifier::spinoff_prover]
#[verifier::rlimit(60)]
proof fn lemma_srs_j_diagram()
    ensures
        diagram_ok(SRS_J_DIAGRAM.spec_bytes()),
        SRS_J_DIAGRAM.spec_bytes().len() == 121,
        forall|r: int|
            0 <= r < 4 ==> diagram_cells(SRS_J_DIAGRAM.spec_bytes(), r) == int_cells(
                srs_table(PieceKind::J, r),
            ),
{
    reveal_strlit("\n    O... | .OO. | .... | .O..\n    OOO. | .O.. | OOO. | .O..\n    .... | .O.. | ..O. | OO..\n    .... | .... | .... | ....\n");
    let c = SRS_J_DIAGRAM@;
    assert(is_ascii_chars(c));
    is_ascii_chars_encode_utf8(c);
    let b = SRS_J_DIAGRAM.spec_bytes();
    reveal_with_fuel(scan, 32);
    // The reading at the start of each line: rows read and cells so far.
    assert(at_line_start(scan(b, 1), 0, seq![no_cells(), no_cells(), no_cells(), no_cells()]));
    assert(at_line_start(scan(b, 31), 1, seq![seq![(0int, 0int)], seq![(1int, 0int), (2int, 0int)], no_cells(), seq![(1int, 0int)]]));
    assert(at_line_start(scan(b, 61), 2, seq![seq![(0int, 0int), (0int, 1int), (1int, 1int), (2int, 1int)], seq![(1int, 0int), (2int, 0int), (1int, 1int)], seq![(0int, 1int), (1int, 1int), (2int, 1int)], seq![(1int, 0int), (1int, 1int)]]));
    assert(at_line_start(scan(b, 91), 3, seq![seq![(0int, 0int), (0int, 1int), (1int, 1int), (2int, 1int)], seq![(1int, 0int), (2int, 0int), (1int, 1int), (1int, 2int)], seq![(0int, 1int), (1int, 1int), (2int, 1int), (2int, 2int)], seq![(1int, 0int), (1int, 1int), (0int, 2int), (1int, 2int)]]));
    assert(at_line_start(scan(b, 121), 4, seq![seq![(0int, 0int), (0int, 1int), (1int, 1int), (2int, 1int)], seq![(1int, 0int), (2int, 0int), (1int, 1int), (1int, 2int)], seq![(0int, 1int), (1int, 1int), (2int, 1int), (2int, 2int)], seq![(1int, 0int), (1int, 1int), (0int, 2int), (1int, 2int)]]));
    assert forall|r: int| 0 <= r < 4 implies diagram_cells(b, r) == int_cells(srs_table(PieceKind::J, r)) by {
        assert(diagram_cells(b, r) =~= int_cells(srs_table(PieceKind::J, r)));
    }
}

/// The SRS L diagram reads as the SRS L shapes.
#[verifier::spinoff_prover]
#[verifier::rlimit(60)]
proof fn lemma_srs_l_diagram()
    ensures
        diagram_ok(SRS_L_DIAGRAM.spec_bytes()),
        SRS_L_DIAGRAM.spec_bytes().len() == 121,
        forall|r: int|
            0 <= r < 4 ==> diagram_cells(SRS_L_DIAGRAM.spec_bytes(), r) == int_cells(
                srs_table(PieceKind::L, r),
            ),
{
    reveal_strlit("\n    ..O. | .O.. | .... | OO..\n    OOO. | .O.. | OOO. | .O..\n    .... | .OO. | O... | .O..\n    .... | .... | .... | ....\n");
    let c = SRS_L_DIAGRAM@;
    assert(is_ascii_chars(c));
    is_ascii_chars_encode_utf8(c);
    let b = SRS_L_DIAGRAM.spec_bytes();
    reveal_with_fuel(scan, 32);
    // The reading at the start of each line: rows read and cells so far.
    assert(at_line_start(scan(b, 1), 0, seq![no_cells(), no_cells(), no_cells(), no_cells()]));
    assert(at_line_start(scan(b, 31), 1, seq![seq![(2int, 0int)], seq![(1int, 0int)], no_cells(), seq![(0int, 0int), (1int, 0int)]]));
    assert(at_line_start(scan(b, 61), 2, seq![seq![(2int, 0int), (0int, 1int), (1int, 1int), (2int, 1int)], seq![(1int, 0int), (1int, 1int)], seq![(0int, 1int), (1int, 1int), (2int, 1int)], seq![(0int, 0int), (1int, 0int), (1int, 1int)]]));
    assert(at_line_start(scan(b, 91), 3, seq![seq![(2int, 0int), (0int, 1int), (1int, 1int), (2int, 1int)], seq![(1int, 0int), (1int, 1int), (1int, 2int), (2int, 2int)], seq![(0int, 1int), (1int, 1int), (2int, 1int), (0int, 2int)], seq![(0int, 0int), (1int, 0int), (1int, 1int), (1int, 2int)]]));
    assert(at_line_start(scan(b, 121), 4, seq![seq![(2int, 0int), (0int, 1int), (1int, 1int), (2int, 1int)], seq![(1int, 0int), (1int, 1int), (1int, 2int), (2int, 2int)], seq![(0int, 1int), (1int, 1int), (2int, 1int), (0int, 2int)], seq![(0int, 0int), (1int, 0int), (1int, 1int), (1int, 2int)]]));
    assert forall|r: int| 0 <= r < 4 implies diagram_cells(b, r) == int_cells(srs_table(PieceKind::L, r)) by {
        assert(diagram_cells(b, r) =~= int_cells(srs_table(PieceKind::L, r)));
    }
}
/// The shape tables are the diagrams: each diagram is well formed, and
/// rotation `r` of `kind` under `sys` has exactly the cells, in reading
/// order, that `parse_rotations` reads from the diagram.
pub proof fn law_shape_tables_are_the_diagrams(sys: Kind, kind: PieceKind, r: int)
    requires
        0 <= r < 4,
    ensures
        diagram_ok(diagram_text(sys, kind).spec_bytes()),
        diagram_text(sys, kind).spec_bytes().len() == 121,
        diagram_cells(diagram_text(sys, kind).spec_bytes(), r) == int_cells(system_cells(sys, kind, r)),
{
    match sys {
        Kind::Ars => match kind {
            PieceKind::I => lemma_ars_i_diagram(),
            PieceKind::O => lemma_ars_o_diagram(),
            PieceKind::T => lemma_ars_t_diagram(),
            PieceKind::S => lemma_ars_s_diagram(),
            PieceKind::Z => lemma_ars_z_diagram(),
            PieceKind::J => lemma_ars_j_diagram(),
            PieceKind::L => lemma_ars_l_diagram(),
        },
        Kind::Srs => match kind {
            PieceKind::I => lemma_srs_i_diagram(),
            PieceKind::O => lemma_srs_o_diagram(),
            PieceKind::T => lemma_srs_t_diagram(),
            PieceKind::S => lemma_srs_s_diagram(),
            PieceKind::Z => lemma_srs_z_diagram(),
            PieceKind::J => lemma_srs_j_diagram(),
            PieceKind::L => lemma_srs_l_diagram(),
        },
    }
}

/// The four rotations of `kind` under `sys`, read from its diagram: each
/// rotation's cells are those of the system's shape table.
pub fn shape_from_diagram(sys: Kind, kind: PieceKind) -> (shape: [[(i32, i32); 4]; 4])
    ensures
        forall|r: int, i: int|
            0 <= r < 4 && 0 <= i < 4 ==> #[trigger] shape@[r]@[i] == system_cells(sys, kind, r)[i],
{
    let d = diagram_of(sys, kind);
    proof {
        law_shape_tables_are_the_diagrams(sys, kind, 0);
        law_shape_tables_are_the_diagrams(sys, kind, 1);
        law_shape_tables_are_the_diagrams(sys, kind, 2);
        law_shape_tables_are_the_diagrams(sys, kind, 3);
    }
    parse_rotations(d)
}

} // verus!
