//! Plain data types shared by the whole game: pieces, phases, input,
//! modes, grades and the events the game emits.

use vstd::prelude::*;
use crate::rng::gen_below;
use crate::rotation_system::{Ars, RotationSystem, Srs};

verus! {

// ---------------------------------------------------------------------------
// PieceKind
// ---------------------------------------------------------------------------

#[derive(Debug, Clone, Copy, PartialEq, Eq, Hash, Structural)]
pub enum PieceKind {
    I,
    O,
    T,
    S,
    Z,
    J,
    L,
}

/// The seven kinds in their declaration order.
pub open spec fn kind_at(i: int) -> PieceKind {
    if i == 0 {
        PieceKind::I
    } else if i == 1 {
        PieceKind::O
    } else if i == 2 {
        PieceKind::T
    } else if i == 3 {
        PieceKind::S
    } else if i == 4 {
        PieceKind::Z
    } else if i == 5 {
        PieceKind::J
    } else {
        PieceKind::L
    }
}

impl PieceKind {
    /// Every kind once, in declaration order.
    pub fn all() -> (r: [PieceKind; 7])
        ensures
            forall|i: int| 0 <= i < 7 ==> r@[i] == kind_at(i),
    {
        [
            PieceKind::I,
            PieceKind::O,
            PieceKind::T,
            PieceKind::S,
            PieceKind::Z,
            PieceKind::J,
            PieceKind::L,
        ]
    }

    /// Picks one of the 7 kinds uniformly: the generator's draw from `0..7`
    /// selects the kind at that position.
    pub fn random(rng: &mut rand::rngs::StdRng) -> (r: PieceKind)
        ensures
            exists|i: int| 0 <= i < 7 && r == kind_at(i),
    {
        let n = gen_below(rng, 7);
        Self::from_index(n)
    }

    /// The kind at position `n` of `all()`; every `n` past the sixth selects `L`.
    pub fn from_index(n: i32) -> (r: PieceKind)
        ensures
            r == kind_at(n as int),
    {
        match n {
            0 => PieceKind::I,
            1 => PieceKind::O,
            2 => PieceKind::T,
            3 => PieceKind::S,
            4 => PieceKind::Z,
            5 => PieceKind::J,
            _ => PieceKind::L,
        }
    }
}

// ---------------------------------------------------------------------------
// Board
// ---------------------------------------------------------------------------

pub const BOARD_COLS: usize = 10;

pub const BOARD_ROWS: usize = 20;

/// `None` = empty, `Some(kind)` = locked cell color. Indexed `[row][col]`,
/// row 0 at the top.
pub type BoardGrid = [[Option<PieceKind>; BOARD_COLS]; BOARD_ROWS];

/// A board with no locked cell.
pub fn empty_board() -> (b: BoardGrid)
    ensures
        forall|r: int, c: int|
            0 <= r < BOARD_ROWS && 0 <= c < BOARD_COLS ==> (#[trigger] b@[r]@[c]) is None,
{
    let row: [Option<PieceKind>; BOARD_COLS] = [None; BOARD_COLS];
    [row; BOARD_ROWS]
}

// ---------------------------------------------------------------------------
// Piece
// ---------------------------------------------------------------------------

/// A tetromino on the board: its kind, rotation index and the board position
/// of the top-left corner of its 4x4 bounding box.
#[derive(Debug, Clone, Copy, PartialEq, Eq, Structural)]
pub struct Piece {
    pub kind: PieceKind,
    pub rotation: usize,
    pub col: i32,
    pub row: i32,
}

impl Piece {
    /// A piece of `kind` at the spawn position: column 3, row 0, rotation 0.
    pub fn new(kind: PieceKind) -> (p: Piece)
        ensures
            p == (Piece { kind, rotation: 0, col: 3, row: 0 }),
    {
        Piece { kind, rotation: 0, col: 3, row: 0 }
    }
}

// ---------------------------------------------------------------------------
// Direction enums
// ---------------------------------------------------------------------------

#[derive(Debug, Clone, Copy, PartialEq, Eq, Structural)]
pub enum HorizDir {
    Left,
    Right,
}

#[derive(Debug, Clone, Copy, PartialEq, Eq, Structural)]
pub enum RotationDirection {
    Clockwise,
    Counterclockwise,
}

// ---------------------------------------------------------------------------
// PiecePhase
// ---------------------------------------------------------------------------

#[derive(Debug, Clone, Copy, PartialEq, Eq, Structural)]
pub enum PiecePhase {
    Falling,
    Locking { ticks_left: u32 },
    /// Line clear display phase; DAS is frozen throughout.
    LineClearDelay { ticks_left: u32 },
    /// ARE: spawn delay; DAS charges during its middle frames.
    Spawning { ticks_left: u32 },
}

// ---------------------------------------------------------------------------
// Input
// ---------------------------------------------------------------------------

#[derive(Debug, Clone, Copy, PartialEq, Eq, Hash, Structural)]
pub enum GameKey {
    Left,
    Right,
    RotateCw,
    RotateCcw,
    SoftDrop,
    SonicDrop,
}

/// A set of game keys, one flag per key.
#[derive(Debug, Clone, Copy, PartialEq, Eq, Default, Structural)]
pub struct KeySet {
    pub left: bool,
    pub right: bool,
    pub rotate_cw: bool,
    pub rotate_ccw: bool,
    pub soft_drop: bool,
    pub sonic_drop: bool,
}

impl KeySet {
    pub open spec fn has(self, key: GameKey) -> bool {
        match key {
            GameKey::Left => self.left,
            GameKey::Right => self.right,
            GameKey::RotateCw => self.rotate_cw,
            GameKey::RotateCcw => self.rotate_ccw,
            GameKey::SoftDrop => self.soft_drop,
            GameKey::SonicDrop => self.sonic_drop,
        }
    }

    /// The empty set.
    pub fn new() -> (s: KeySet)
        ensures
            forall|k: GameKey| !s.has(k),
    {
        KeySet {
            left: false,
            right: false,
            rotate_cw: false,
            rotate_ccw: false,
            soft_drop: false,
            sonic_drop: false,
        }
    }

    /// Whether `key` is in the set.
    pub fn contains(&self, key: &GameKey) -> (r: bool)
        ensures
            r == self.has(*key),
    {
        match key {
            GameKey::Left => self.left,
            GameKey::Right => self.right,
            GameKey::RotateCw => self.rotate_cw,
            GameKey::RotateCcw => self.rotate_ccw,
            GameKey::SoftDrop => self.soft_drop,
            GameKey::SonicDrop => self.sonic_drop,
        }
    }

    /// Adds `key`; every other key keeps its membership.
    pub fn insert(&mut self, key: GameKey)
        ensures
            final(self).has(key),
            forall|k: GameKey| k != key ==> final(self).has(k) == old(self).has(k),
    {
        match key {
            GameKey::Left => self.left = true,
            GameKey::Right => self.right = true,
            GameKey::RotateCw => self.rotate_cw = true,
            GameKey::RotateCcw => self.rotate_ccw = true,
            GameKey::SoftDrop => self.soft_drop = true,
            GameKey::SonicDrop => self.sonic_drop = true,
        }
    }

    /// Removes every key.
    pub fn clear(&mut self)
        ensures
            forall|k: GameKey| !final(self).has(k),
    {
        *self = KeySet::new();
    }

    /// Whether no key is in the set.
    pub fn is_empty(&self) -> (r: bool)
        ensures
            r == (forall|k: GameKey| !self.has(k)),
    {
        let r = !(self.left || self.right || self.rotate_cw || self.rotate_ccw || self.soft_drop
            || self.sonic_drop);
        assert(!r ==> exists|k: GameKey| self.has(k)) by {
            if self.left {
                assert(self.has(GameKey::Left));
            } else if self.right {
                assert(self.has(GameKey::Right));
            } else if self.rotate_cw {
                assert(self.has(GameKey::RotateCw));
            } else if self.rotate_ccw {
                assert(self.has(GameKey::RotateCcw));
            } else if self.soft_drop {
                assert(self.has(GameKey::SoftDrop));
            } else if self.sonic_drop {
                assert(self.has(GameKey::SonicDrop));
            }
        }
        r
    }

    /// The set holding exactly the keys of `keys`.
    pub fn from_keys(keys: &[GameKey]) -> (s: KeySet)
        ensures
            forall|k: GameKey| s.has(k) <==> keys@.contains(k),
    {
        let mut s = KeySet::new();
        let mut i: usize = 0;
        while i < keys.len()
            invariant
                i <= keys@.len(),
                forall|k: GameKey| s.has(k) <==> exists|j: int| 0 <= j < i && keys@[j] == k,
            decreases keys@.len() - i,
        {
            let k = keys[i];
            s.insert(k);
            assert forall|k2: GameKey| s.has(k2) <==> exists|j: int| 0 <= j < i + 1 && keys@[j] == k2 by {
                if k2 == k {
                    assert(keys@[i as int] == k2);
                }
            }
            i = i + 1;
        }
        s
    }
}

/// Keys held this tick, and the subset that went down this tick.
#[derive(Debug, Clone, Copy, PartialEq, Eq, Default, Structural)]
pub struct InputSnapshot {
    pub held: KeySet,
    pub just_pressed: KeySet,
}

impl InputSnapshot {
    /// No key held, none pressed.
    pub fn empty() -> (s: InputSnapshot)
        ensures
            forall|k: GameKey| !s.held.has(k) && !s.just_pressed.has(k),
    {
        InputSnapshot { held: KeySet::new(), just_pressed: KeySet::new() }
    }

    /// A tick on which `key` goes down (held and just pressed), alone.
    pub fn pressed(key: GameKey) -> (s: InputSnapshot)
        ensures
            forall|k: GameKey| s.held.has(k) == (k == key) && s.just_pressed.has(k) == (k == key),
    {
        let mut held = KeySet::new();
        held.insert(key);
        InputSnapshot { held, just_pressed: held }
    }

    /// A tick on which exactly `keys` are held and none goes down.
    pub fn holding(keys: &[GameKey]) -> (s: InputSnapshot)
        ensures
            forall|k: GameKey| s.held.has(k) <==> keys@.contains(k),
            forall|k: GameKey| !s.just_pressed.has(k),
    {
        InputSnapshot { held: KeySet::from_keys(keys), just_pressed: KeySet::new() }
    }
}

// ---------------------------------------------------------------------------
// Modes / rotation system kinds
// ---------------------------------------------------------------------------

#[derive(Debug, Clone, Copy, PartialEq, Eq, Structural)]
pub enum GameMode {
    Master,
    TwentyG,
}

impl Default for GameMode {
    fn default() -> (m: GameMode)
        ensures
            m == GameMode::Master,
    {
        GameMode::Master
    }
}

/// Which rotation system a game uses.
#[derive(Debug, Clone, Copy, PartialEq, Eq, Structural)]
pub enum Kind {
    Ars,
    Srs,
}

impl Default for Kind {
    fn default() -> (k: Kind)
        ensures
            k == Kind::Ars,
    {
        Kind::Ars
    }
}

impl Kind {
    /// The rotation system this kind names.
    pub fn create(self) -> (r: Box<dyn RotationSystem>) {
        match self {
            Kind::Ars => Box::new(Ars),
            Kind::Srs => Box::new(Srs),
        }
    }
}

// ---------------------------------------------------------------------------
// Grade + score thresholds (TGM)
// ---------------------------------------------------------------------------

/// The grades, lowest first; the order of the grades is their rank order
/// (see `grade_order`).
#[derive(Clone, Copy, Debug, PartialEq, Eq, Ord, Hash, Structural)]
pub enum Grade {
    Nine,
    Eight,
    Seven,
    Six,
    Five,
    Four,
    Three,
    Two,
    One,
    SOne,
    STwo,
    SThree,
    SFour,
    SFive,
    SSix,
    SSeven,
    SEight,
    SNine,
}

/// Position of a grade in the grade order, Nine = 0 up to SNine = 17.
pub open spec fn grade_rank(g: Grade) -> int {
    match g {
        Grade::Nine => 0,
        Grade::Eight => 1,
        Grade::Seven => 2,
        Grade::Six => 3,
        Grade::Five => 4,
        Grade::Four => 5,
        Grade::Three => 6,
        Grade::Two => 7,
        Grade::One => 8,
        Grade::SOne => 9,
        Grade::STwo => 10,
        Grade::SThree => 11,
        Grade::SFour => 12,
        Grade::SFive => 13,
        Grade::SSix => 14,
        Grade::SSeven => 15,
        Grade::SEight => 16,
        Grade::SNine => 17,
    }
}

/// The grade at rank `i` (0 = Nine ... 17 = SNine).
pub open spec fn grade_of_rank(i: int) -> Grade {
    if i <= 0 {
        Grade::Nine
    } else if i == 1 {
        Grade::Eight
    } else if i == 2 {
        Grade::Seven
    } else if i == 3 {
        Grade::Six
    } else if i == 4 {
        Grade::Five
    } else if i == 5 {
        Grade::Four
    } else if i == 6 {
        Grade::Three
    } else if i == 7 {
        Grade::Two
    } else if i == 8 {
        Grade::One
    } else if i == 9 {
        Grade::SOne
    } else if i == 10 {
        Grade::STwo
    } else if i == 11 {
        Grade::SThree
    } else if i == 12 {
        Grade::SFour
    } else if i == 13 {
        Grade::SFive
    } else if i == 14 {
        Grade::SSix
    } else if i == 15 {
        Grade::SSeven
    } else if i == 16 {
        Grade::SEight
    } else {
        Grade::SNine
    }
}

/// Lowest score of the grade at rank `i`.
pub open spec fn grade_threshold(i: int) -> int {
    if i <= 0 {
        0
    } else if i == 1 {
        400
    } else if i == 2 {
        800
    } else if i == 3 {
        1400
    } else if i == 4 {
        2000
    } else if i == 5 {
        3500
    } else if i == 6 {
        5500
    } else if i == 7 {
        8000
    } else if i == 8 {
        12000
    } else if i == 9 {
        16000
    } else if i == 10 {
        22000
    } else if i == 11 {
        30000
    } else if i == 12 {
        40000
    } else if i == 13 {
        52000
    } else if i == 14 {
        66000
    } else if i == 15 {
        82000
    } else if i == 16 {
        100000
    } else {
        120000
    }
}

/// Rank of the grade a score earns: the highest rank whose threshold the
/// score reaches.
pub open spec fn score_rank(score: int) -> int
    recommends
        score >= 0,
{
    if score >= 120000 {
        17
    } else if score >= 100000 {
        16
    } else if score >= 82000 {
        15
    } else if score >= 66000 {
        14
    } else if score >= 52000 {
        13
    } else if score >= 40000 {
        12
    } else if score >= 30000 {
        11
    } else if score >= 22000 {
        10
    } else if score >= 16000 {
        9
    } else if score >= 12000 {
        8
    } else if score >= 8000 {
        7
    } else if score >= 5500 {
        6
    } else if score >= 3500 {
        5
    } else if score >= 2000 {
        4
    } else if score >= 1400 {
        3
    } else if score >= 800 {
        2
    } else if score >= 400 {
        1
    } else {
        0
    }
}

/// The grade a score earns.
pub open spec fn spec_grade_of_score(score: int) -> Grade {
    grade_of_rank(score_rank(score))
}

/// Threshold of rank `i`, for `i < 18`.
fn threshold_at(i: usize) -> (t: u32)
    requires
        i < 18,
    ensures
        t == grade_threshold(i as int),
{
    match i {
        0 => 0,
        1 => 400,
        2 => 800,
        3 => 1400,
        4 => 2000,
        5 => 3500,
        6 => 5500,
        7 => 8000,
        8 => 12000,
        9 => 16000,
        10 => 22000,
        11 => 30000,
        12 => 40000,
        13 => 52000,
        14 => 66000,
        15 => 82000,
        16 => 100000,
        _ => 120000,
    }
}

/// The thresholds rise strictly with the rank.
pub proof fn lemma_thresholds_increase(i: int, j: int)
    requires
        0 <= i < j < 18,
    ensures
        grade_threshold(i) < grade_threshold(j),
{
}

/// `score_rank` picks the highest rank whose threshold the score reaches.
pub proof fn lemma_score_rank_is_last_reached(score: int, i: int)
    requires
        score >= 0,
        0 <= i < 18,
    ensures
        grade_threshold(i) <= score <==> i <= score_rank(score),
        0 <= score_rank(score) < 18,
        grade_threshold(score_rank(score)) <= score,
{
}

impl Grade {
    /// The grade at rank `i`.
    fn from_rank(i: usize) -> (g: Grade)
        ensures
            g == grade_of_rank(i as int),
    {
        match i {
            0 => Grade::Nine,
            1 => Grade::Eight,
            2 => Grade::Seven,
            3 => Grade::Six,
            4 => Grade::Five,
            5 => Grade::Four,
            6 => Grade::Three,
            7 => Grade::Two,
            8 => Grade::One,
            9 => Grade::SOne,
            10 => Grade::STwo,
            11 => Grade::SThree,
            12 => Grade::SFour,
            13 => Grade::SFive,
            14 => Grade::SSix,
            15 => Grade::SSeven,
            16 => Grade::SEight,
            _ => Grade::SNine,
        }
    }

    /// Index of the highest threshold that `score` reaches.
    fn rank_of_score(score: u32) -> (i: usize)
        ensures
            i == score_rank(score as int),
            i < 18,
    {
        let mut i: usize = 17;
        while threshold_at(i) > score
            invariant
                i < 18,
                forall|j: int| i < j < 18 ==> grade_threshold(j) > score,
                score_rank(score as int) <= i,
            decreases i,
        {
            proof {
                lemma_score_rank_is_last_reached(score as int, i as int);
                lemma_score_rank_is_last_reached(score as int, 0);
            }
            i = i - 1;
        }
        proof {
            lemma_score_rank_is_last_reached(score as int, i as int);
        }
        i
    }

    /// The grade a score earns: the one with the highest threshold the score
    /// reaches.
    pub fn of_score(score: u32) -> (g: Grade)
        ensures
            g == spec_grade_of_score(score as int),
    {
        Grade::from_rank(Grade::rank_of_score(score))
    }

    /// Position of this grade in the grade order (Nine = 0, ..., SNine = 17).
    pub fn index(self) -> (i: usize)
        ensures
            i == grade_rank(self),
    {
        match self {
            Grade::Nine => 0,
            Grade::Eight => 1,
            Grade::Seven => 2,
            Grade::Six => 3,
            Grade::Five => 4,
            Grade::Four => 5,
            Grade::Three => 6,
            Grade::Two => 7,
            Grade::One => 8,
            Grade::SOne => 9,
            Grade::STwo => 10,
            Grade::SThree => 11,
            Grade::SFour => 12,
            Grade::SFive => 13,
            Grade::SSix => 14,
            Grade::SSeven => 15,
            Grade::SEight => 16,
            Grade::SNine => 17,
        }
    }

    /// The threshold of the grade `score` earns, and the threshold of the
    /// next grade (`None` at the top grade).
    pub fn grade_progress(score: u32) -> (r: (u32, Option<u32>))
        ensures
            r.0 == grade_threshold(score_rank(score as int)),
            score_rank(score as int) < 17 ==> r.1 == Some(
                grade_threshold(score_rank(score as int) + 1) as u32,
            ),
            score_rank(score as int) == 17 ==> r.1 is None,
            r.0 <= score,
            r.1 matches Some(n) ==> score < n,
    {
        let i = Grade::rank_of_score(score);
        proof {
            lemma_score_rank_is_last_reached(score as int, i as int);
            if i < 17 {
                lemma_score_rank_is_last_reached(score as int, i + 1);
            }
        }
        let prev = threshold_at(i);
        let next = if i < 17 {
            Some(threshold_at(i + 1))
        } else {
            None
        };
        (prev, next)
    }

    /// Whether this grade ranks strictly above `other`.
    pub fn is_above(self, other: Grade) -> (r: bool)
        ensures
            r == (grade_rank(self) > grade_rank(other)),
    {
        self.index() > other.index()
    }

    /// The grade as shown on screen, right-aligned to two characters
    /// (" 9" ... " 1", "S1" ... "S9").
    pub fn label(self) -> (s: &'static str)
        ensures
            s@ == spec_grade_label(self),
    {
        proof {
            reveal_strlit(" 9");
            reveal_strlit(" 8");
            reveal_strlit(" 7");
            reveal_strlit(" 6");
            reveal_strlit(" 5");
            reveal_strlit(" 4");
            reveal_strlit(" 3");
            reveal_strlit(" 2");
            reveal_strlit(" 1");
            reveal_strlit("S1");
            reveal_strlit("S2");
            reveal_strlit("S3");
            reveal_strlit("S4");
            reveal_strlit("S5");
            reveal_strlit("S6");
            reveal_strlit("S7");
            reveal_strlit("S8");
            reveal_strlit("S9");
        }
        match self {
            Grade::Nine => " 9",
            Grade::Eight => " 8",
            Grade::Seven => " 7",
            Grade::Six => " 6",
            Grade::Five => " 5",
            Grade::Four => " 4",
            Grade::Three => " 3",
            Grade::Two => " 2",
            Grade::One => " 1",
            Grade::SOne => "S1",
            Grade::STwo => "S2",
            Grade::SThree => "S3",
            Grade::SFour => "S4",
            Grade::SFive => "S5",
            Grade::SSix => "S6",
            Grade::SSeven => "S7",
            Grade::SEight => "S8",
            Grade::SNine => "S9",
        }
    }

    /// The on-screen text of this grade as an owned string.
    pub fn to_string(&self) -> (s: String)
        ensures
            s@ == spec_grade_label(*self),
    {
        String::from_str(self.label())
    }
}

/// The on-screen text of a grade: "S" and a digit for the S grades, a space
/// and a digit for the others.
pub open spec fn spec_grade_label(g: Grade) -> Seq<char> {
    let r = grade_rank(g);
    if r >= 9 {
        seq!['S', digit_char(r - 8)]
    } else {
        seq![' ', digit_char(9 - r)]
    }
}

/// The decimal digit character of `d` (0..=9).
pub open spec fn digit_char(d: int) -> char {
    if d == 0 {
        '0'
    } else if d == 1 {
        '1'
    } else if d == 2 {
        '2'
    } else if d == 3 {
        '3'
    } else if d == 4 {
        '4'
    } else if d == 5 {
        '5'
    } else if d == 6 {
        '6'
    } else if d == 7 {
        '7'
    } else if d == 8 {
        '8'
    } else {
        '9'
    }
}

// ---------------------------------------------------------------------------
// Events
// ---------------------------------------------------------------------------

/// What the scoring judge is told when a piece locks.
#[derive(Debug, Clone, Copy, PartialEq, Eq, Structural)]
pub enum JudgeEvent {
    LockedWithoutClear,
    ClearedLines {
        level: u32,
        cleared_playfield: bool,
        num_lines: u32,
        frames_soft_drop_held: u32,
        sonic_drop_rows: u32,
        ticks_elapsed: u64,
    },
}

/// What the presentation layer is told during a tick.
#[derive(Debug, Clone, Copy, PartialEq, Eq, Structural)]
pub enum GameEvent {
    LineClear { count: u32 },
    PieceBeganLocking,
    GameEnded,
    GradeAdvanced(Grade),
}

// ---------------------------------------------------------------------------
// Hi scores and config
// ---------------------------------------------------------------------------

#[derive(Clone, Copy, Debug, PartialEq, Eq, Structural)]
pub struct HiScoreEntry {
    pub grade: Grade,
    pub ticks: u64,
}

#[derive(Debug, Clone, Copy, PartialEq, Eq, Structural)]
pub struct GameConfig {
    pub game_mode: GameMode,
    pub rotation: Kind,
}

impl Default for GameConfig {
    fn default() -> (c: GameConfig)
        ensures
            c == (GameConfig { game_mode: GameMode::Master, rotation: Kind::Ars }),
    {
        GameConfig { game_mode: GameMode::Master, rotation: Kind::Ars }
    }
}


/// A higher score never earns a lower grade.
pub proof fn law_grade_monotone_in_score(a: int, b: int)
    requires
        0 <= a <= b,
    ensures
        grade_rank(spec_grade_of_score(a)) <= grade_rank(spec_grade_of_score(b)),
{
    lemma_grade_rank_of_rank(score_rank(a));
    lemma_grade_rank_of_rank(score_rank(b));
}

/// The rank of the grade at rank `i` is `i`.
pub proof fn lemma_grade_rank_of_rank(i: int)
    requires
        0 <= i < 18,
    ensures
        grade_rank(grade_of_rank(i)) == i,
{
}

} // verus!
