//! The scoring judge: TGM1 score, combo and the best grade reached.

use vstd::prelude::*;
use crate::data::{
    grade_rank, spec_grade_of_score, Grade, HiScoreEntry, JudgeEvent,
};

verus! {

/// The judge's state as numbers.
pub struct JudgeView {
    pub combo: int,
    pub score: int,
    pub best_grade: Grade,
    pub grade_ticks: int,
}

/// The TGM1 score of a clear of `num_lines` lines at `level` with the given
/// soft-drop frames, sonic-drop rows, combo (already counting this clear)
/// and bravo multiplier.
pub open spec fn clear_points(
    level: int,
    num_lines: int,
    soft: int,
    sonic: int,
    combo: int,
    bravo: int,
) -> int {
    ((level + 3) / 4 + soft + 2 * sonic) * num_lines * combo * bravo
}

/// The judge after `event`.
pub open spec fn spec_on_event(j: JudgeView, event: JudgeEvent) -> JudgeView {
    match event {
        JudgeEvent::LockedWithoutClear => JudgeView { combo: 1, ..j },
        JudgeEvent::ClearedLines {
            level,
            cleared_playfield,
            num_lines,
            frames_soft_drop_held,
            sonic_drop_rows,
            ticks_elapsed,
        } => {
            let combo = j.combo + 2 * num_lines - 2;
            let bravo: int = if cleared_playfield {
                4
            } else {
                1
            };
            let score = j.score + clear_points(
                level as int,
                num_lines as int,
                frames_soft_drop_held as int,
                sonic_drop_rows as int,
                combo,
                bravo,
            );
            let g = spec_grade_of_score(score);
            if grade_rank(g) > grade_rank(j.best_grade) {
                JudgeView { combo, score, best_grade: g, grade_ticks: ticks_elapsed as int }
            } else {
                JudgeView { combo, score, ..j }
            }
        },
    }
}

/// Whether judging `event` keeps every intermediate value of the score
/// arithmetic within `u32` (the event clears at least one line).
pub open spec fn event_in_range(j: JudgeView, event: JudgeEvent) -> bool {
    match event {
        JudgeEvent::LockedWithoutClear => true,
        JudgeEvent::ClearedLines {
            level,
            cleared_playfield,
            num_lines,
            frames_soft_drop_held,
            sonic_drop_rows,
            ticks_elapsed,
        } => {
            let combo = j.combo + 2 * num_lines - 2;
            let bravo: int = if cleared_playfield {
                4
            } else {
                1
            };
            let base = (level + 3) / 4 + frames_soft_drop_held;
            &&& num_lines >= 1
            &&& 2 * num_lines <= u32::MAX
            &&& level + 3 <= u32::MAX
            &&& base <= u32::MAX
            &&& 2 * sonic_drop_rows <= u32::MAX
            &&& base + 2 * sonic_drop_rows <= u32::MAX
            &&& combo <= u32::MAX
            &&& (base + 2 * sonic_drop_rows) * num_lines * combo * bravo <= u32::MAX
            &&& j.score + (base + 2 * sonic_drop_rows) * num_lines * combo * bravo <= u32::MAX
        },
    }
}

pub struct Judge {
    combo: u32,
    score: u32,
    best_grade: Grade,
    grade_ticks: u64,
}

impl View for Judge {
    type V = JudgeView;

    closed spec fn view(&self) -> JudgeView {
        JudgeView {
            combo: self.combo as int,
            score: self.score as int,
            best_grade: self.best_grade,
            grade_ticks: self.grade_ticks as int,
        }
    }
}

impl Judge {
    /// A fresh judge: combo 1, score 0, best grade 9 reached at tick 0.
    pub fn new() -> (j: Judge)
        ensures
            j@ == (JudgeView { combo: 1, score: 0, best_grade: Grade::Nine, grade_ticks: 0 }),
    {
        Judge { combo: 1, score: 0, best_grade: Grade::Nine, grade_ticks: 0 }
    }

    /// Scores one lock: a lock without clear resets the combo to 1; a clear
    /// raises the combo by `2 * lines - 2`, adds
    /// `((level + 3) / 4 + soft + 2 * sonic) * lines * combo * bravo`
    /// (bravo 4 when the playfield was cleared, else 1), and records the tick
    /// of the first crossing into a better grade.
    pub fn on_event(&mut self, event: &JudgeEvent)
        requires
            event_in_range(old(self)@, *event),
        ensures
            final(self)@ == spec_on_event(old(self)@, *event),
    {
        proof {
            use_type_invariant(&*self);
        }
        match *event {
            JudgeEvent::LockedWithoutClear => self.combo = 1,
            JudgeEvent::ClearedLines {
                level,
                cleared_playfield,
                num_lines,
                frames_soft_drop_held,
                sonic_drop_rows,
                ticks_elapsed,
            } => {
                self.combo = self.combo + (2 * num_lines - 2);
                let bravo: u32 = if cleared_playfield {
                    4
                } else {
                    1
                };
                let base = (level + 3) / 4 + frames_soft_drop_held + 2 * sonic_drop_rows;
                proof {
                    let c = self.combo as int;
                    let n = num_lines as int;
                    let b = base as int;
                    let v = bravo as int;
                    if b >= 1 {
                        assert(b * n <= b * n * c) by (nonlinear_arith)
                            requires
                                b >= 1,
                                n >= 1,
                                c >= 1,
                        ;
                        assert(b * n * c <= b * n * c * v) by (nonlinear_arith)
                            requires
                                b >= 1,
                                n >= 1,
                                c >= 1,
                                v >= 1,
                        ;
                    } else {
                        assert(b * n * c * v == 0) by (nonlinear_arith)
                            requires
                                b == 0,
                        ;
                        assert(b * n == 0) by (nonlinear_arith)
                            requires
                                b == 0,
                        ;
                        assert(b * n * c == 0) by (nonlinear_arith)
                            requires
                                b == 0,
                        ;
                    }
                }
                self.score = self.score + base * num_lines * self.combo * bravo;
                let new_grade = Grade::of_score(self.score);
                if new_grade.is_above(self.best_grade) {
                    self.best_grade = new_grade;
                    self.grade_ticks = ticks_elapsed;
                }
            },
        }
    }

    /// Sets the score directly, for the debug scene's preset screens.
    pub fn set_score_for_debug(&mut self, score: u32)
        ensures
            final(self)@ == (JudgeView { score: score as int, ..old(self)@ }),
    {
        proof {
            use_type_invariant(&*self);
        }
        self.score = score;
    }

    /// The score so far.
    pub fn score(&self) -> (s: u32)
        ensures
            s == self@.score,
    {
        self.score
    }

    /// The combo counter: one, plus the lines of the current run of clears
    /// beyond one per clear.
    pub fn combo(&self) -> (c: u32)
        ensures
            c == self@.combo,
    {
        self.combo
    }

    /// The grade the score earns now.
    pub fn grade(&self) -> (g: Grade)
        ensures
            g == spec_grade_of_score(self@.score),
    {
        Grade::of_score(self.score)
    }

    /// The best grade reached and the tick at which it was first reached.
    pub fn grade_entry(&self) -> (e: HiScoreEntry)
        ensures
            e.grade == self@.best_grade,
            e.ticks == self@.grade_ticks,
    {
        HiScoreEntry { grade: self.best_grade, ticks: self.grade_ticks }
    }

    #[verifier::type_invariant]
    spec fn inv(self) -> bool {
        self.combo >= 1
    }
}

impl Default for Judge {
    fn default() -> (j: Judge)
        ensures
            j@ == (JudgeView { combo: 1, score: 0, best_grade: Grade::Nine, grade_ticks: 0 }),
    {
        Judge::new()
    }
}


/// Judging an event never lowers the score or the best grade reached, and
/// keeps the combo at one or more.
pub proof fn law_judge_never_loses_ground(j: JudgeView, event: JudgeEvent)
    requires
        j.combo >= 1,
        event_in_range(j, event),
    ensures
        spec_on_event(j, event).score >= j.score,
        grade_rank(spec_on_event(j, event).best_grade) >= grade_rank(j.best_grade),
        spec_on_event(j, event).combo >= 1,
{
    match event {
        JudgeEvent::LockedWithoutClear => {},
        JudgeEvent::ClearedLines {
            level,
            cleared_playfield,
            num_lines,
            frames_soft_drop_held,
            sonic_drop_rows,
            ticks_elapsed,
        } => {
            let combo = j.combo + 2 * num_lines - 2;
            let bravo: int = if cleared_playfield {
                4
            } else {
                1
            };
            let base = (level + 3) / 4 + frames_soft_drop_held + 2 * sonic_drop_rows;
            assert(base >= 0);
            assert(combo >= 1);
            assert(base * num_lines * combo * bravo >= 0) by (nonlinear_arith)
                requires
                    base >= 0,
                    num_lines >= 1,
                    combo >= 1,
                    bravo >= 1,
            ;
        },
    }
}

} // verus!
