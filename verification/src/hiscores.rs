//! The hi-score tables: one per (game mode, rotation system), best first,
//! at most `MAX_ENTRIES` long.

use vstd::prelude::*;
use vstd::relations::{sorted_by, total_ordering};
use crate::data::{grade_rank, GameMode, HiScoreEntry, Kind};

verus! {

broadcast use vstd::seq_lib::group_to_multiset_ensures;

/// Length of each hi-score table.
pub const MAX_ENTRIES: usize = 5;

/// `a` ranks at or above `b`: a higher grade, or the same grade reached in
/// no more ticks.
pub open spec fn ranks_before(a: HiScoreEntry, b: HiScoreEntry) -> bool {
    grade_rank(a.grade) > grade_rank(b.grade) || (grade_rank(a.grade) == grade_rank(b.grade)
        && a.ticks <= b.ticks)
}

/// The hi-score order as a relation.
pub open spec fn hiscore_leq() -> spec_fn(HiScoreEntry, HiScoreEntry) -> bool {
    |a: HiScoreEntry, b: HiScoreEntry| ranks_before(a, b)
}

/// The table after inserting `entry` into `entries`: all of them, best
/// first, cut to `max` entries.
pub open spec fn spec_insert_entry(entries: Seq<HiScoreEntry>, entry: HiScoreEntry, max: int) -> Seq<
    HiScoreEntry,
> {
    let all = entries.push(entry).sort_by(hiscore_leq());
    if max < all.len() {
        all.take(max)
    } else {
        all
    }
}

/// The hi-score order is a total order.
pub proof fn lemma_hiscore_order_total()
    ensures
        total_ordering(hiscore_leq()),
{
    assert forall|a: HiScoreEntry, b: HiScoreEntry|
        #[trigger] hiscore_leq()(a, b) && #[trigger] hiscore_leq()(b, a) implies a == b by {
        assert(grade_rank(a.grade) == grade_rank(b.grade));
        assert(a.grade == b.grade);
    }
}

/// Whether `a` ranks at or above `b`.
fn ranks_at_or_above(a: &HiScoreEntry, b: &HiScoreEntry) -> (r: bool)
    ensures
        r == ranks_before(*a, *b),
{
    let ga = a.grade.index();
    let gb = b.grade.index();
    ga > gb || (ga == gb && a.ticks <= b.ticks)
}

/// Inserts `entry` into `entries` in sorted order (best first: higher
/// grade, ties broken by fewer ticks) and truncates to `max` entries.
pub fn insert_entry(entries: &mut Vec<HiScoreEntry>, entry: HiScoreEntry, max: usize)
    ensures
        final(entries)@ == spec_insert_entry(old(entries)@, entry, max as int),
{
    proof {
        lemma_hiscore_order_total();
    }
    let ghost all = old(entries)@.push(entry);
    entries.push(entry);
    let mut sorted: Vec<HiScoreEntry> = Vec::new();
    let mut i: usize = 0;
    while i < entries.len()
        invariant
            entries@ == all,
            i <= all.len(),
            total_ordering(hiscore_leq()),
            sorted_by(sorted@, hiscore_leq()),
            sorted@.to_multiset() == all.take(i as int).to_multiset(),
        decreases all.len() - i,
    {
        let e = entries[i];
        // Place `e` after every entry that ranks at or above it.
        let mut p: usize = 0;
        while p < sorted.len() && ranks_at_or_above(&sorted[p], &e)
            invariant
                p <= sorted@.len(),
                forall|k: int| 0 <= k < p ==> ranks_before(#[trigger] sorted@[k], e),
            decreases sorted@.len() - p,
        {
            p = p + 1;
        }
        proof {
            let s = sorted@;
            assert forall|k: int| p <= k < s.len() implies ranks_before(e, #[trigger] s[k]) by {
                assert(!ranks_before(s[p as int], e));
                assert(hiscore_leq()(e, s[p as int]));
                if k > p {
                    assert(hiscore_leq()(s[p as int], s[k]));
                }
            }
            let n = s.insert(p as int, e);
            assert forall|a: int, b: int| 0 <= a < b < n.len() implies #[trigger] hiscore_leq()(
                n[a],
                n[b],
            ) by {
                if b < p {
                    assert(hiscore_leq()(s[a], s[b]));
                } else if b == p {
                    assert(ranks_before(s[a], e));
                } else if a < p {
                    assert(hiscore_leq()(s[a], s[b - 1]));
                } else if a == p {
                    assert(ranks_before(e, s[b - 1]));
                } else {
                    assert(hiscore_leq()(s[a - 1], s[b - 1]));
                }
            }
            assert(all.take(i + 1) =~= all.take(i as int).push(e));
        }
        sorted.insert(p, e);
        i = i + 1;
    }
    proof {
        assert(all.take(all.len() as int) =~= all);
        all.lemma_sort_by_ensures(hiscore_leq());
        vstd::seq_lib::lemma_sorted_unique(sorted@, all.sort_by(hiscore_leq()), hiscore_leq());
    }
    sorted.truncate(max);
    *entries = sorted;
}

/// Storage key of the table of (`mode`, `rotation`).
pub fn storage_key(mode: GameMode, rotation: Kind) -> (k: &'static str)
    ensures
        k@ == spec_storage_key(mode, rotation),
{
    proof {
        reveal_strlit("hi_master_ars");
        reveal_strlit("hi_master_srs");
        reveal_strlit("hi_20g_ars");
        reveal_strlit("hi_20g_srs");
    }
    match (mode, rotation) {
        (GameMode::Master, Kind::Ars) => "hi_master_ars",
        (GameMode::Master, Kind::Srs) => "hi_master_srs",
        (GameMode::TwentyG, Kind::Ars) => "hi_20g_ars",
        (GameMode::TwentyG, Kind::Srs) => "hi_20g_srs",
    }
}

/// Storage key of each table: "hi_", the mode ("master" or "20g"), "_",
/// the rotation system ("ars" or "srs").
pub open spec fn spec_storage_key(mode: GameMode, rotation: Kind) -> Seq<char> {
    let m = match mode {
        GameMode::Master => seq!['m', 'a', 's', 't', 'e', 'r'],
        GameMode::TwentyG => seq!['2', '0', 'g'],
    };
    let r = match rotation {
        Kind::Ars => seq!['a', 'r', 's'],
        Kind::Srs => seq!['s', 'r', 's'],
    };
    seq!['h', 'i', '_'] + m + seq!['_'] + r
}

/// Position of the table of (`mode`, `kind`) among the four tables:
/// (Master, ARS), (Master, SRS), (20G, ARS), (20G, SRS).
pub fn slot_index(mode: GameMode, kind: Kind) -> (i: usize)
    ensures
        i == spec_slot_index(mode, kind),
        i < 4,
{
    match (mode, kind) {
        (GameMode::Master, Kind::Ars) => 0,
        (GameMode::Master, Kind::Srs) => 1,
        (GameMode::TwentyG, Kind::Ars) => 2,
        (GameMode::TwentyG, Kind::Srs) => 3,
    }
}

/// Position of the table of (`mode`, `kind`): two per mode, Master first,
/// ARS before SRS.
pub open spec fn spec_slot_index(mode: GameMode, kind: Kind) -> int {
    (if mode == GameMode::Master {
        0int
    } else {
        2int
    }) + (if kind == Kind::Ars {
        0int
    } else {
        1int
    })
}


/// A table after an insertion is ordered best first and holds one more
/// entry than before, but never more than `max`.
pub proof fn law_hiscore_table_sorted_and_bounded(
    entries: Seq<HiScoreEntry>,
    entry: HiScoreEntry,
    max: int,
)
    requires
        0 <= max,
    ensures
        sorted_by(spec_insert_entry(entries, entry, max), hiscore_leq()),
        spec_insert_entry(entries, entry, max).len() == (if entries.len() + 1 < max {
            entries.len() + 1int
        } else {
            max
        }),
{
    lemma_hiscore_order_total();
    let all = entries.push(entry);
    all.lemma_sort_by_ensures(hiscore_leq());
    let sorted = all.sort_by(hiscore_leq());
    assert(sorted.len() == all.len()) by {
        assert(sorted.to_multiset().len() == all.to_multiset().len());
    }
    if max < sorted.len() {
        let t = sorted.take(max);
        assert forall|i: int, j: int| 0 <= i < j < t.len() implies (hiscore_leq())(t[i], t[j]) by {
            assert(t[i] == sorted[i] && t[j] == sorted[j]);
        }
    }
}

} // verus!
