//! What the heads-up display shows: the elapsed time, the next level
//! barrier, menu labels, and the colours of pieces and grades.

use vstd::prelude::*;
use crate::data::{digit_char, PieceKind};

verus! {

/// The decimal digits of `n`, most significant first ("0" for zero).
pub open spec fn decimal(n: nat) -> Seq<char>
    decreases n,
{
    if n < 10 {
        seq![digit_char(n as int)]
    } else {
        decimal(n / 10).push(digit_char((n % 10) as int))
    }
}

/// The decimal digits of `n`, with leading zeros up to `width` characters.
pub open spec fn padded(n: nat, width: nat) -> Seq<char> {
    let d = decimal(n);
    if d.len() >= width {
        d
    } else {
        Seq::new((width - d.len()) as nat, |i: int| '0') + d
    }
}

/// `ticks` (at 60 per second) as minutes, seconds and milliseconds:
/// "MM:SS.mmm", minutes padded to at least two digits.
pub open spec fn spec_format_time(ticks: nat) -> Seq<char> {
    let seconds = ticks / 60;
    let ms = (ticks % 60) * 1000 / 60;
    padded(seconds / 60, 2) + seq![':'] + padded(seconds % 60, 2) + seq!['.'] + padded(ms, 3)
}

/// The one-character string of the digit `d`.
fn digit_str(d: u64) -> (s: &'static str)
    requires
        d < 10,
    ensures
        s@ == seq![digit_char(d as int)],
{
    proof {
        reveal_strlit("0");
        reveal_strlit("1");
        reveal_strlit("2");
        reveal_strlit("3");
        reveal_strlit("4");
        reveal_strlit("5");
        reveal_strlit("6");
        reveal_strlit("7");
        reveal_strlit("8");
        reveal_strlit("9");
    }
    match d {
        0 => "0",
        1 => "1",
        2 => "2",
        3 => "3",
        4 => "4",
        5 => "5",
        6 => "6",
        7 => "7",
        8 => "8",
        _ => "9",
    }
}

/// Appends the decimal digits of `n`.
fn append_decimal(s: &mut String, n: u64)
    ensures
        final(s)@ == old(s)@ + decimal(n as nat),
    decreases n,
{
    if n >= 10 {
        append_decimal(s, n / 10);
    }
    s.append(digit_str(n % 10));
    proof {
        assert(final(s)@ =~= old(s)@ + decimal(n as nat));
    }
}

/// The number of decimal digits of `n`.
fn decimal_len(n: u64) -> (l: usize)
    ensures
        l == decimal(n as nat).len(),
        1 <= l <= 20,
    decreases n,
{
    if n < 10 {
        1
    } else {
        proof {
            lemma_u64_below_pow10();
            lemma_decimal_len_le(n as nat, 20);
        }
        1 + decimal_len(n / 10)
    }
}

/// Every `u64` is below `10^20`.
proof fn lemma_u64_below_pow10()
    ensures
        u64::MAX < pow10(20),
{
    reveal_with_fuel(pow10, 21);
    assert(pow10(20) == 100000000000000000000nat);
}

/// `n` below `10^k` has at most `k` digits.
proof fn lemma_decimal_len_le(n: nat, k: nat)
    requires
        k >= 1,
        n < pow10(k),
    ensures
        decimal(n).len() <= k,
    decreases n,
{
    if n >= 10 {
        if k == 1 {
            assert(pow10(1) == 10 * pow10(0));
        } else {
            let p = pow10((k - 1) as nat);
            assert(pow10(k) == 10 * p);
            assert(n / 10 < p) by (nonlinear_arith)
                requires
                    n < 10 * p,
            ;
            lemma_decimal_len_le(n / 10, (k - 1) as nat);
        }
    }
}

/// Ten to the power `k`.
spec fn pow10(k: nat) -> nat
    decreases k,
{
    if k == 0 {
        1
    } else {
        10 * pow10((k - 1) as nat)
    }
}

/// Appends `n` in decimal with leading zeros up to `width` characters.
fn append_padded(s: &mut String, n: u64, width: usize)
    ensures
        final(s)@ == old(s)@ + padded(n as nat, width as nat),
{
    let len = decimal_len(n);
    let ghost start = s@;
    if len < width {
        let mut k: usize = 0;
        while k < width - len
            invariant
                len < width,
                k <= width - len,
                s@ == start + Seq::new(k as nat, |i: int| '0'),
            decreases width - len - k,
        {
            proof {
                reveal_strlit("0");
            }
            s.append("0");
            proof {
                assert(s@ =~= start + Seq::new((k + 1) as nat, |i: int| '0'));
            }
            k = k + 1;
        }
    }
    let ghost mid = s@;
    append_decimal(s, n);
    proof {
        assert(s@ =~= start + padded(n as nat, width as nat));
    }
}

/// The elapsed time of `ticks` frames (60 per second) as "MM:SS.mmm".
pub fn format_time(ticks: u64) -> (s: String)
    ensures
        s@ == spec_format_time(ticks as nat),
{
    let seconds = ticks / 60;
    let ms = (ticks % 60) * 1000 / 60;
    let mm = seconds / 60;
    let ss = seconds % 60;
    let mut s = String::new();
    append_padded(&mut s, mm, 2);
    proof {
        reveal_strlit(":");
        reveal_strlit(".");
    }
    s.append(":");
    append_padded(&mut s, ss, 2);
    s.append(".");
    append_padded(&mut s, ms, 3);
    proof {
        assert(s@ =~= spec_format_time(ticks as nat));
    }
    s
}

/// The level at which the current section ends: the next multiple of 100
/// above `level`, except that the last section ends at 999.
pub open spec fn spec_next_level_barrier(level: int) -> int {
    let up = ((level + 1 + 99) / 100) * 100;
    if up == 1000 {
        999
    } else {
        up
    }
}

/// The level at which the current section ends.
pub fn next_level_barrier(level: u32) -> (b: u32)
    requires
        level < 4294967200,
    ensures
        b == spec_next_level_barrier(level as int),
{
    let r = level + 1;
    let up = if r % 100 == 0 {
        r
    } else {
        r - r % 100 + 100
    };
    if up == 1000 {
        999
    } else {
        up
    }
}

/// A menu label between angle brackets when the cursor is on it, between
/// spaces otherwise, so that both take the same width.
pub fn maybe_bracket(s: &str, active: bool) -> (r: String)
    ensures
        r@ == (if active {
            seq!['<', ' '] + s@ + seq![' ', '>']
        } else {
            seq![' ', ' '] + s@ + seq![' ', ' ']
        }),
{
    proof {
        reveal_strlit("< ");
        reveal_strlit(" >");
        reveal_strlit("  ");
    }
    if active {
        let mut r = String::from_str("< ");
        r.append(s);
        r.append(" >");
        r
    } else {
        let mut r = String::from_str("  ");
        r.append(s);
        r.append("  ");
        r
    }
}

/// Red, green, blue and alpha of a colour, as bytes.
pub type Rgba = (u8, u8, u8, u8);

/// The colour of the grade bar: seven colours from red to violet, repeated
/// every seven grades.
pub open spec fn spec_grade_bar_rgba(grade_idx: int) -> Rgba {
    let k = grade_idx % 7;
    if k == 0 {
        (220, 50, 50, 200)
    } else if k == 1 {
        (230, 130, 0, 200)
    } else if k == 2 {
        (220, 210, 0, 200)
    } else if k == 3 {
        (50, 180, 50, 200)
    } else if k == 4 {
        (50, 100, 220, 200)
    } else if k == 5 {
        (80, 0, 200, 200)
    } else {
        (150, 0, 220, 200)
    }
}

/// The colour of the grade bar for the grade with index `grade_idx`.
pub fn grade_bar_color(grade_idx: usize) -> (c: Rgba)
    ensures
        c == spec_grade_bar_rgba(grade_idx as int),
{
    match grade_idx % 7 {
        0 => (220, 50, 50, 200),
        1 => (230, 130, 0, 200),
        2 => (220, 210, 0, 200),
        3 => (50, 180, 50, 200),
        4 => (50, 100, 220, 200),
        5 => (80, 0, 200, 200),
        _ => (150, 0, 220, 200),
    }
}

/// The colour of each piece kind.
pub open spec fn spec_piece_rgba(kind: PieceKind) -> Rgba {
    match kind {
        PieceKind::I => (200, 50, 50, 255),
        PieceKind::O => (220, 200, 0, 255),
        PieceKind::T => (0, 200, 200, 255),
        PieceKind::S => (200, 0, 200, 255),
        PieceKind::Z => (0, 160, 0, 255),
        PieceKind::J => (50, 100, 220, 255),
        PieceKind::L => (255, 150, 100, 255),
    }
}

/// The colour in which pieces of `kind` are drawn.
pub fn piece_color(kind: PieceKind) -> (c: Rgba)
    ensures
        c == spec_piece_rgba(kind),
{
    match kind {
        PieceKind::I => (200, 50, 50, 255),
        PieceKind::O => (220, 200, 0, 255),
        PieceKind::T => (0, 200, 200, 255),
        PieceKind::S => (200, 0, 200, 255),
        PieceKind::Z => (0, 160, 0, 255),
        PieceKind::J => (50, 100, 220, 255),
        PieceKind::L => (255, 150, 100, 255),
    }
}

} // verus!
