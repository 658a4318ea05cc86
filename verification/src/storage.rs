//! A small key-value store of strings, saved as a JSON object of strings.
//! The application reads the saved text from, and writes it back to,
//! wherever the platform keeps such data.

use vstd::prelude::*;

verus! {

/// The value stored under `key`, if any.
pub open spec fn lookup(entries: Seq<(Seq<char>, Seq<char>)>, key: Seq<char>) -> Option<Seq<char>> {
    if exists|i: int| 0 <= i < entries.len() && (#[trigger] entries[i]).0 == key {
        Some(entries[choose|i: int| 0 <= i < entries.len() && (#[trigger] entries[i]).0 == key].1)
    } else {
        None
    }
}

/// No key occurs twice.
pub open spec fn keys_unique(entries: Seq<(Seq<char>, Seq<char>)>) -> bool {
    forall|i: int, j: int|
        0 <= i < entries.len() && 0 <= j < entries.len() && i != j ==> (#[trigger] entries[i]).0
            != (#[trigger] entries[j]).0
}

/// `after` is `before` with `value` stored under `key`: a read of `key`
/// gives `value`, and every other key reads as before.
pub open spec fn stored(
    before: Seq<(Seq<char>, Seq<char>)>,
    after: Seq<(Seq<char>, Seq<char>)>,
    key: Seq<char>,
    value: Seq<char>,
) -> bool {
    &&& lookup(after, key) == Some(value)
    &&& forall|k: Seq<char>| k != key ==> lookup(after, k) == lookup(before, k)
}

/// The key-value pairs of a sequence of string pairs.
pub open spec fn pairs_view(v: Seq<(String, String)>) -> Seq<(Seq<char>, Seq<char>)> {
    v.map_values(|e: (String, String)| (e.0@, e.1@))
}

/// The pairs of the JSON object of string values that `serde_json` reads
/// from `text`, in the order of their keys; `None` when `text` holds no
/// such object.
pub uninterp spec fn json_object_of_strings(text: Seq<char>) -> Option<Seq<(Seq<char>, Seq<char>)>>;

/// The JSON text `serde_json` writes for the map of the pairs `pairs`;
/// `None` when it reports an error.
pub uninterp spec fn json_text_of_strings(pairs: Seq<(Seq<char>, Seq<char>)>) -> Option<Seq<char>>;

/// Trusted: `serde_json::from_str` into a `BTreeMap<String, String>`, whose
/// entries are then taken in key order. The pairs are what the name
/// `json_object_of_strings` gives for the text; a map holds each key once.
/// `None` when `serde_json` reports an error.
#[verifier::external_body]
fn parse_string_map(text: &str) -> (r: Option<Vec<(String, String)>>)
    ensures
        match r {
            Some(v) => json_object_of_strings(text@) == Some(pairs_view(v@)) && keys_unique(
                pairs_view(v@),
            ),
            None => json_object_of_strings(text@) is None,
        },
{
    match serde_json::from_str::<std::collections::BTreeMap<String, String>>(text) {
        Ok(m) => Some(m.into_iter().collect()),
        Err(_) => None,
    }
}

/// Trusted: `serde_json::to_string` of the `BTreeMap<String, String>`
/// holding `pairs`. The text is what the name `json_text_of_strings` gives
/// for the pairs; `None` when `serde_json` reports an error.
#[verifier::external_body]
fn write_string_map(pairs: &Vec<(String, String)>) -> (r: Option<String>)
    ensures
        match r {
            Some(t) => json_text_of_strings(pairs_view(pairs@)) == Some(t@),
            None => json_text_of_strings(pairs_view(pairs@)) is None,
        },
{
    let m: std::collections::BTreeMap<String, String> = pairs.iter().cloned().collect();
    match serde_json::to_string(&m) {
        Ok(t) => Some(t),
        Err(_) => None,
    }
}

/// Key-value pairs of strings, each key at most once.
pub struct Storage {
    entries: Vec<(String, String)>,
}

impl View for Storage {
    type V = Seq<(Seq<char>, Seq<char>)>;

    closed spec fn view(&self) -> Seq<(Seq<char>, Seq<char>)> {
        self.entries@.map_values(|e: (String, String)| (e.0@, e.1@))
    }
}

impl Storage {
    #[verifier::type_invariant]
    closed spec fn wf(self) -> bool {
        keys_unique(self.entries@.map_values(|e: (String, String)| (e.0@, e.1@)))
    }

    /// An empty store.
    pub fn new() -> (s: Storage)
        ensures
            s@.len() == 0,
    {
        let s = Storage { entries: Vec::new() };
        assert(s@ =~= Seq::<(Seq<char>, Seq<char>)>::empty());
        s
    }

    /// The store saved as `text`: the pairs of the JSON object of strings it
    /// holds, or an empty store when it holds no such object.
    pub fn from_json(text: &str) -> (s: Storage)
        ensures
            match json_object_of_strings(text@) {
                Some(m) => s@ == m,
                None => s@.len() == 0,
            },
    {
        match parse_string_map(text) {
            Some(v) => {
                assert(pairs_view(v@) =~= v@.map_values(|e: (String, String)| (e.0@, e.1@)));
                Storage { entries: v }
            },
            None => Storage::new(),
        }
    }

    /// The store as JSON text, for saving; `None` when it cannot be
    /// written.
    pub fn to_json(&self) -> (t: Option<String>)
        ensures
            match t {
                Some(x) => json_text_of_strings(self@) == Some(x@),
                None => json_text_of_strings(self@) is None,
            },
    {
        assert(pairs_view(self.entries@) =~= self@);
        write_string_map(&self.entries)
    }

    /// Position of `key` among the entries.
    fn find(&self, key: &str) -> (r: Option<usize>)
        ensures
            match r {
                Some(i) => i < self@.len() && self@[i as int].0 == key@,
                None => forall|i: int| 0 <= i < self@.len() ==> (#[trigger] self@[i]).0 != key@,
            },
    {
        let k = String::from_str(key);
        let mut i: usize = 0;
        while i < self.entries.len()
            invariant
                i <= self.entries@.len(),
                k@ == key@,
                self@ == self.entries@.map_values(|e: (String, String)| (e.0@, e.1@)),
                forall|j: int| 0 <= j < i ==> (#[trigger] self@[j]).0 != key@,
            decreases self.entries@.len() - i,
        {
            if self.entries[i].0 == k {
                return Some(i);
            }
            i = i + 1;
        }
        None
    }

    /// The value stored under `key`.
    pub fn get(&self, key: &str) -> (v: Option<String>)
        ensures
            match v {
                Some(s) => lookup(self@, key@) == Some(s@),
                None => lookup(self@, key@) is None,
            },
    {
        proof {
            use_type_invariant(self);
        }
        match self.find(key) {
            Some(i) => {
                proof {
                    let c = choose|j: int| 0 <= j < self@.len() && (#[trigger] self@[j]).0 == key@;
                    assert(c == i as int);
                }
                Some(self.entries[i].1.clone())
            },
            None => None,
        }
    }

    /// Stores `value` under `key`, replacing what was there.
    pub fn set(&mut self, key: &str, value: &str)
        ensures
            stored(old(self)@, final(self)@, key@, value@),
    {
        proof {
            use_type_invariant(&*self);
        }
        let ghost old_view = self@;
        let entry = (String::from_str(key), String::from_str(value));
        match self.find(key) {
            Some(i) => {
                let mut entries: Vec<(String, String)> = Vec::new();
                std::mem::swap(&mut entries, &mut self.entries);
                entries.set(i, entry);
                proof {
                    assert(entries@.map_values(|e: (String, String)| (e.0@, e.1@)) =~= old_view.update(
                        i as int,
                        (key@, value@),
                    ));
                }
                self.entries = entries;
                proof {
                    assert forall|k: Seq<char>| k != key@ implies lookup(self@, k) == lookup(old_view, k) by {
                        if exists|j: int| 0 <= j < self@.len() && (#[trigger] self@[j]).0 == k {
                            let j = choose|j: int| 0 <= j < self@.len() && (#[trigger] self@[j]).0 == k;
                            assert(old_view[j].0 == k);
                        }
                        if exists|j: int| 0 <= j < old_view.len() && (#[trigger] old_view[j]).0 == k {
                            let j = choose|j: int| 0 <= j < old_view.len() && (#[trigger] old_view[j]).0 == k;
                            assert(self@[j].0 == k);
                        }
                    }
                    assert(self@[i as int].0 == key@);
                }
            },
            None => {
                let mut entries: Vec<(String, String)> = Vec::new();
                std::mem::swap(&mut entries, &mut self.entries);
                entries.push(entry);
                proof {
                    assert(entries@.map_values(|e: (String, String)| (e.0@, e.1@)) =~= old_view.push(
                        (key@, value@),
                    ));
                }
                self.entries = entries;
                proof {
                    assert forall|k: Seq<char>| k != key@ implies lookup(self@, k) == lookup(old_view, k) by {
                        if exists|j: int| 0 <= j < self@.len() && (#[trigger] self@[j]).0 == k {
                            let j = choose|j: int| 0 <= j < self@.len() && (#[trigger] self@[j]).0 == k;
                            assert(old_view[j].0 == k);
                        }
                        if exists|j: int| 0 <= j < old_view.len() && (#[trigger] old_view[j]).0 == k {
                            let j = choose|j: int| 0 <= j < old_view.len() && (#[trigger] old_view[j]).0 == k;
                            assert(self@[j].0 == k);
                        }
                    }
                    assert(self@[self@.len() - 1].0 == key@);
                }
            },
        }
    }

    /// Every key-value pair, in the order in which keys were first stored.
    pub fn entries(&self) -> (e: Vec<(String, String)>)
        ensures
            e@.map_values(|p: (String, String)| (p.0@, p.1@)) == self@,
    {
        let mut out: Vec<(String, String)> = Vec::new();
        let mut i: usize = 0;
        while i < self.entries.len()
            invariant
                i <= self.entries@.len(),
                out@.len() == i,
                out@.map_values(|p: (String, String)| (p.0@, p.1@)) =~= self@.take(i as int),
                self@ == self.entries@.map_values(|e: (String, String)| (e.0@, e.1@)),
            decreases self.entries@.len() - i,
        {
            let k = self.entries[i].0.clone();
            let v = self.entries[i].1.clone();
            assert(k == self.entries@[i as int].0);
            assert(v == self.entries@[i as int].1);
            out.push((k, v));
            assert(out@[i as int].0@ == self@[i as int].0);
            assert(out@.map_values(|p: (String, String)| (p.0@, p.1@)) =~= self@.take(i + 1));
            i = i + 1;
        }
        assert(self@.take(i as int) =~= self@);
        out
    }
}

/// Step `i` of a run of stores: `values[i]` is stored under `keys[i]`, a
/// key other than `key`, taking `stores[i]` to `stores[i + 1]`.
pub open spec fn other_key_stored(
    stores: Seq<Seq<(Seq<char>, Seq<char>)>>,
    keys: Seq<Seq<char>>,
    values: Seq<Seq<char>>,
    key: Seq<char>,
    i: int,
) -> bool {
    keys[i] != key && stored(stores[i], stores[i + 1], keys[i], values[i])
}

/// Stores under other keys leave a key's reading as it was: after any
/// number of them (`keys[i]` with `values[i]`, from `stores[i]` to
/// `stores[i + 1]`, each key other than `key`), `key` reads as it did in
/// `stores[0]`, a value or nothing.
pub proof fn law_other_keys_keep_reads(
    stores: Seq<Seq<(Seq<char>, Seq<char>)>>,
    keys: Seq<Seq<char>>,
    values: Seq<Seq<char>>,
    key: Seq<char>,
)
    requires
        stores.len() == keys.len() + 1,
        values.len() == keys.len(),
        forall|i: int| 0 <= i < keys.len() ==> #[trigger] other_key_stored(stores, keys, values, key, i),
    ensures
        lookup(stores.last(), key) == lookup(stores[0], key),
    decreases keys.len(),
{
    if keys.len() > 0 {
        let n = keys.len() - 1;
        assert(other_key_stored(stores, keys, values, key, n));
        let s2 = stores.drop_last();
        let k2 = keys.drop_last();
        let v2 = values.drop_last();
        assert forall|i: int| 0 <= i < k2.len() implies #[trigger] other_key_stored(s2, k2, v2, key, i) by {
            assert(other_key_stored(stores, keys, values, key, i));
            assert(stores[i] == s2[i]);
            assert(stores[i + 1] == s2[i + 1]);
            assert(keys[i] == k2[i]);
            assert(values[i] == v2[i]);
        }
        law_other_keys_keep_reads(s2, k2, v2, key);
        assert(s2.last() == stores[n]);
        assert(s2[0] == stores[0]);
    }
}

/// A read gives back the last value written under its key: once `value`
/// is stored under `key` (in `stores[0]`), any number of later stores
/// under other keys leave it in place.
pub proof fn law_read_gives_last_write(
    stores: Seq<Seq<(Seq<char>, Seq<char>)>>,
    keys: Seq<Seq<char>>,
    values: Seq<Seq<char>>,
    key: Seq<char>,
    value: Seq<char>,
)
    requires
        stores.len() == keys.len() + 1,
        values.len() == keys.len(),
        lookup(stores[0], key) == Some(value),
        forall|i: int| 0 <= i < keys.len() ==> #[trigger] other_key_stored(stores, keys, values, key, i),
    ensures
        lookup(stores.last(), key) == Some(value),
{
    law_other_keys_keep_reads(stores, keys, values, key);
}

/// A store loaded from saved text reads each key as the saved object holds
/// it, and as absent when the text holds no such object; stores under other
/// keys keep that reading.
pub proof fn law_loaded_key_reads_as_saved(
    text: Seq<char>,
    stores: Seq<Seq<(Seq<char>, Seq<char>)>>,
    keys: Seq<Seq<char>>,
    values: Seq<Seq<char>>,
    key: Seq<char>,
)
    requires
        stores.len() == keys.len() + 1,
        values.len() == keys.len(),
        match json_object_of_strings(text) {
            Some(m) => stores[0] == m,
            None => stores[0].len() == 0,
        },
        forall|i: int| 0 <= i < keys.len() ==> #[trigger] other_key_stored(stores, keys, values, key, i),
    ensures
        lookup(stores.last(), key) == (match json_object_of_strings(text) {
            Some(m) => lookup(m, key),
            None => None,
        }),
{
    law_other_keys_keep_reads(stores, keys, values, key);
}

} // verus!
