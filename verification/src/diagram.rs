//! The text format in which piece shapes are drawn: four rotations side by
//! side, separated by `|`, one text line per row of the 4x4 box, `O` for a
//! filled cell.
//!
//! The format is read byte by byte. Line ends (`\n`, `\r`) end a line;
//! lines holding only spaces are ignored and do not count as rows. Within a
//! line, `|` starts the next rotation's segment. A segment's columns are
//! counted from its first byte that is not a space. Every `O` adds the cell
//! (column, row) to its rotation, in reading order.

use vstd::prelude::*;
use vstd::string::StringSliceAdditionalSpecFns;

verus! {

/// Where a reading of a diagram stands after some bytes.
pub struct DiagramScan {
    /// Index of the current row (non-blank lines before this one).
    pub row: int,
    /// The current line has held a byte other than a space.
    pub nonblank: bool,
    /// Index of the current segment in the line.
    pub seg: int,
    /// The current segment has held a byte other than a space.
    pub started: bool,
    /// Column of the next byte within the current segment.
    pub col: int,
    /// The cells read so far, one sequence per rotation.
    pub cells: Seq<Seq<(int, int)>>,
    /// An `O` fell outside the four rotations or beyond a rotation's four
    /// cells.
    pub bad: bool,
}

/// The state before the first byte.
pub open spec fn scan_start() -> DiagramScan {
    DiagramScan {
        row: 0,
        nonblank: false,
        seg: 0,
        started: false,
        col: 0,
        cells: seq![Seq::empty(), Seq::empty(), Seq::empty(), Seq::empty()],
        bad: false,
    }
}

/// Whether `b` ends a line.
pub open spec fn is_line_end(b: u8) -> bool {
    b == 10 || b == 13
}

/// The state after reading the byte `b`.
pub open spec fn scan_step(st: DiagramScan, b: u8) -> DiagramScan {
    if is_line_end(b) {
        DiagramScan {
            row: if st.nonblank {
                st.row + 1
            } else {
                st.row
            },
            nonblank: false,
            seg: 0,
            started: false,
            col: 0,
            ..st
        }
    } else if b == 124 {
        DiagramScan { nonblank: true, seg: st.seg + 1, started: false, col: 0, ..st }
    } else if b == 32 {
        DiagramScan {
            col: if st.started {
                st.col + 1
            } else {
                st.col
            },
            ..st
        }
    } else {
        let col = if st.started {
            st.col
        } else {
            0
        };
        let st1 = DiagramScan { nonblank: true, started: true, col: col + 1, ..st };
        if b == 79 {
            if st.seg < 4 && st.cells[st.seg].len() < 4 {
                DiagramScan {
                    cells: st.cells.update(st.seg, st.cells[st.seg].push((col, st.row))),
                    ..st1
                }
            } else {
                DiagramScan { bad: true, ..st1 }
            }
        } else {
            st1
        }
    }
}

/// The state after the first `n` bytes of `s`.
pub open spec fn scan(s: Seq<u8>, n: nat) -> DiagramScan
    decreases n,
{
    if n == 0 {
        scan_start()
    } else {
        scan_step(scan(s, (n - 1) as nat), s[n - 1])
    }
}

/// A well-formed diagram: no stray `O`, and exactly four cells in each of
/// the four rotations.
pub open spec fn diagram_ok(s: Seq<u8>) -> bool {
    let st = scan(s, s.len());
    &&& !st.bad
    &&& forall|r: int| 0 <= r < 4 ==> (#[trigger] st.cells[r]).len() == 4
}

/// The cells of rotation `r` of the diagram `s`.
pub open spec fn diagram_cells(s: Seq<u8>, r: int) -> Seq<(int, int)> {
    scan(s, s.len()).cells[r]
}

proof fn lemma_scan_facts(s: Seq<u8>, n: nat)
    requires
        n <= s.len(),
    ensures
        scan(s, n).cells.len() == 4,
        forall|r: int| 0 <= r < 4 ==> (#[trigger] scan(s, n).cells[r]).len() <= 4,
        0 <= scan(s, n).row <= n,
        0 <= scan(s, n).col <= n,
        0 <= scan(s, n).seg <= n,
        forall|r: int, i: int|
            0 <= r < 4 && 0 <= i < scan(s, n).cells[r].len() ==> 0 <= (#[trigger] scan(s, n).cells[r][i]).0
                < n && 0 <= scan(s, n).cells[r][i].1 <= n,
    decreases n,
{
    if n > 0 {
        lemma_scan_facts(s, (n - 1) as nat);
    }
}

/// Once a stray `O` has been read, the diagram stays ill-formed.
proof fn lemma_bad_stays(s: Seq<u8>, n: nat, m: nat)
    requires
        n <= m <= s.len(),
        scan(s, n).bad,
    ensures
        scan(s, m).bad,
    decreases m - n,
{
    if m > n {
        lemma_bad_stays(s, n, (m - 1) as nat);
    }
}

/// A rotation's cell count never falls as more bytes are read.
proof fn lemma_counts_grow(s: Seq<u8>, n: nat, m: nat, r: int)
    requires
        n <= m <= s.len(),
        0 <= r < 4,
    ensures
        scan(s, n).cells[r].len() <= scan(s, m).cells[r].len(),
    decreases m - n,
{
    lemma_scan_facts(s, n);
    if m > n {
        lemma_counts_grow(s, n, (m - 1) as nat, r);
        lemma_scan_facts(s, (m - 1) as nat);
    }
}

/// Reads the four rotations of a shape diagram; the cells of each rotation
/// come in reading order, as (column, row) pairs.
pub fn parse_rotation_bytes(bytes: &[u8]) -> (shape: [[(i32, i32); 4]; 4])
    requires
        bytes@.len() < i32::MAX,
        diagram_ok(bytes@),
    ensures
        forall|r: int, i: int|
            0 <= r < 4 && 0 <= i < 4 ==> (#[trigger] shape@[r]@[i]).0 == diagram_cells(bytes@, r)[i].0
                && shape@[r]@[i].1 == diagram_cells(bytes@, r)[i].1,
{
    let ghost s = bytes@;
    let mut cells: [[(i32, i32); 4]; 4] = [[(0i32, 0i32); 4]; 4];
    let mut counts: [usize; 4] = [0usize; 4];
    let mut row: i32 = 0;
    let mut nonblank = false;
    let mut seg: usize = 0;
    let mut started = false;
    let mut col: i32 = 0;
    let mut n: usize = 0;
    while n < bytes.len()
        invariant
            n <= s.len(),
            s == bytes@,
            s.len() < i32::MAX,
            diagram_ok(s),
            !scan(s, n as nat).bad,
            scan(s, n as nat).row == row,
            scan(s, n as nat).nonblank == nonblank,
            scan(s, n as nat).seg == seg,
            scan(s, n as nat).started == started,
            scan(s, n as nat).col == col,
            scan(s, n as nat).cells.len() == 4,
            forall|r: int| 0 <= r < 4 ==> (#[trigger] counts@[r]) == scan(s, n as nat).cells[r].len(),
            forall|r: int, i: int|
                0 <= r < 4 && 0 <= i < counts@[r] ==> (#[trigger] cells@[r]@[i]).0 == scan(
                    s,
                    n as nat,
                ).cells[r][i].0 && cells@[r]@[i].1 == scan(s, n as nat).cells[r][i].1,
        decreases s.len() - n,
    {
        proof {
            lemma_scan_facts(s, n as nat);
            lemma_scan_facts(s, (n + 1) as nat);
            if scan(s, (n + 1) as nat).bad {
                lemma_bad_stays(s, (n + 1) as nat, s.len());
            }
        }
        let b = bytes[n];
        if b == 10 || b == 13 {
            if nonblank {
                row = row + 1;
            }
            nonblank = false;
            seg = 0;
            started = false;
            col = 0;
        } else if b == 124 {
            nonblank = true;
            seg = seg + 1;
            started = false;
            col = 0;
        } else if b == 32 {
            if started {
                col = col + 1;
            }
        } else {
            if !started {
                col = 0;
            }
            nonblank = true;
            started = true;
            if b == 79 {
                let k = counts[seg];
                let mut line = cells[seg];
                line[k] = (col, row);
                cells[seg] = line;
                counts[seg] = k + 1;
            }
            col = col + 1;
        }
        n = n + 1;
    }
    proof {
        assert forall|r: int, i: int| 0 <= r < 4 && 0 <= i < 4 implies (#[trigger] cells@[r]@[i]).0
            == diagram_cells(s, r)[i].0 && cells@[r]@[i].1 == diagram_cells(s, r)[i].1 by {
            assert(counts@[r] == 4);
        }
    }
    cells
}

/// Reads the four rotations of a shape diagram written as text.
pub fn parse_rotations(diagram: &str) -> (shape: [[(i32, i32); 4]; 4])
    requires
        diagram.spec_bytes().len() < i32::MAX,
        diagram_ok(diagram.spec_bytes()),
    ensures
        forall|r: int, i: int|
            0 <= r < 4 && 0 <= i < 4 ==> (#[trigger] shape@[r]@[i]).0 == diagram_cells(
                diagram.spec_bytes(),
                r,
            )[i].0 && shape@[r]@[i].1 == diagram_cells(diagram.spec_bytes(), r)[i].1,
{
    parse_rotation_bytes(diagram.as_bytes())
}

} // verus!
