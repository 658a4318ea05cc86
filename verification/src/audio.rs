//! Which sound answers which game event, and the muting switch.

use vstd::prelude::*;
use crate::data::{grade_rank, GameEvent, Grade};

verus! {

/// The sounds of the game.
#[derive(Debug, Clone, Copy, PartialEq, Eq, Structural)]
pub enum SoundCue {
    PieceLocked,
    PieceBeganLocking,
    Ready,
    Single,
    Double,
    Triple,
    Fetris,
    GameOver,
    /// The announcer calling a grade, by grade index (0 is grade 9, 17 is S9).
    Grade(usize),
}

/// The announcement for clearing `count` lines.
pub open spec fn spec_lines_cue(count: u32) -> SoundCue {
    if count == 1 {
        SoundCue::Single
    } else if count == 2 {
        SoundCue::Double
    } else if count == 3 {
        SoundCue::Triple
    } else {
        SoundCue::Fetris
    }
}

/// The announcement for clearing `count` lines: single, double, triple,
/// and "fetris" for anything else.
pub fn lines_cleared_cue(count: u32) -> (c: SoundCue)
    ensures
        c == spec_lines_cue(count),
{
    match count {
        1 => SoundCue::Single,
        2 => SoundCue::Double,
        3 => SoundCue::Triple,
        _ => SoundCue::Fetris,
    }
}

/// The index of a grade's announcement: 0 for grade 9 up to 17 for S9.
pub fn grade_sound_index(grade: Grade) -> (i: usize)
    ensures
        i == grade_rank(grade),
        i < 18,
{
    grade.index()
}

/// The sound that answers a game event.
pub open spec fn spec_event_cue(event: GameEvent) -> SoundCue {
    match event {
        GameEvent::PieceBeganLocking => SoundCue::PieceBeganLocking,
        GameEvent::LineClear { count } => spec_lines_cue(count),
        GameEvent::GradeAdvanced(g) => SoundCue::Grade(grade_rank(g) as usize),
        GameEvent::GameEnded => SoundCue::GameOver,
    }
}

/// The sound that answers `event`.
pub fn event_cue(event: GameEvent) -> (c: SoundCue)
    ensures
        c == spec_event_cue(event),
{
    match event {
        GameEvent::PieceBeganLocking => SoundCue::PieceBeganLocking,
        GameEvent::LineClear { count } => lines_cleared_cue(count),
        GameEvent::GradeAdvanced(g) => SoundCue::Grade(grade_sound_index(g)),
        GameEvent::GameEnded => SoundCue::GameOver,
    }
}

/// The sounds to play for a frame's events: one per event, in order, or
/// none at all while muted.
pub fn cues_for_events(events: &Vec<GameEvent>, muted: bool) -> (cues: Vec<SoundCue>)
    ensures
        muted ==> cues@.len() == 0,
        !muted ==> cues@ == events@.map_values(|e: GameEvent| spec_event_cue(e)),
{
    let mut cues: Vec<SoundCue> = Vec::new();
    if muted {
        return cues;
    }
    let mut i: usize = 0;
    while i < events.len()
        invariant
            i <= events@.len(),
            cues@ == events@.take(i as int).map_values(|e: GameEvent| spec_event_cue(e)),
        decreases events@.len() - i,
    {
        cues.push(event_cue(events[i]));
        assert(cues@ =~= events@.take(i + 1).map_values(|e: GameEvent| spec_event_cue(e)));
        i = i + 1;
    }
    assert(events@.take(i as int) =~= events@);
    cues
}

/// Something that can play the game's sounds.
pub trait AudioPlayer {
    fn piece_locked(&self);

    fn piece_begin_locking(&self);

    fn lines_cleared(&self, count: u32);

    fn ready(&self);

    fn grade_changed(&self, grade: Grade);

    fn game_over(&self);

    fn set_muted(&mut self, muted: bool);

    fn is_muted(&self) -> bool;
}

/// A loaded sound set: one sound per cue (of any handle type `S`) and the
/// muting switch. It decides which sound plays; the caller plays it.
pub struct Macroquad<S> {
    pub piece_locked: S,
    pub piece_begin_locking: S,
    pub ready: S,
    pub single: S,
    pub double: S,
    pub triple: S,
    pub fetris: S,
    pub game_over: S,
    /// One announcement per grade, grade 9 first.
    pub grades: Vec<S>,
    pub muted: bool,
}

impl<S> Macroquad<S> {
    /// A sound set, not muted.
    pub fn new(
        piece_locked: S,
        piece_begin_locking: S,
        ready: S,
        single: S,
        double: S,
        triple: S,
        fetris: S,
        game_over: S,
        grades: Vec<S>,
    ) -> (m: Macroquad<S>)
        ensures
            !m.muted,
            m.piece_locked == piece_locked,
            m.piece_begin_locking == piece_begin_locking,
            m.ready == ready,
            m.single == single,
            m.double == double,
            m.triple == triple,
            m.fetris == fetris,
            m.game_over == game_over,
            m.grades@ == grades@,
    {
        Macroquad {
            piece_locked,
            piece_begin_locking,
            ready,
            single,
            double,
            triple,
            fetris,
            game_over,
            grades,
            muted: false,
        }
    }

    /// The sound to play for `snd`: none while muted.
    pub fn play<'a>(&self, snd: &'a S) -> (r: Option<&'a S>)
        ensures
            r == (if self.muted {
                None
            } else {
                Some(snd)
            }),
    {
        if self.muted {
            None
        } else {
            Some(snd)
        }
    }

    /// The announcement of `grade`.
    pub fn grade_sound(&self, grade: Grade) -> (s: &S)
        requires
            self.grades@.len() == 18,
        ensures
            *s == self.grades@[grade_rank(grade)],
    {
        &self.grades[grade_sound_index(grade)]
    }

    /// The announcement for clearing `count` lines.
    pub fn lines_sound(&self, count: u32) -> (s: &S)
        ensures
            count == 1 ==> *s == self.single,
            count == 2 ==> *s == self.double,
            count == 3 ==> *s == self.triple,
            !(1 <= count <= 3) ==> *s == self.fetris,
    {
        match count {
            1 => &self.single,
            2 => &self.double,
            3 => &self.triple,
            _ => &self.fetris,
        }
    }

    /// Mutes or unmutes.
    pub fn set_muted(&mut self, muted: bool)
        ensures
            final(self).muted == muted,
            final(self).grades@ == old(self).grades@,
    {
        self.muted = muted;
    }

    /// Whether sounds are muted.
    pub fn is_muted(&self) -> (m: bool)
        ensures
            m == self.muted,
    {
        self.muted
    }
}

} // verus!
