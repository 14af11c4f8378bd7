//! The store of the most recent reading per sensor.
//!
//! Its model is a map from sensor-identifier character sequences to the
//! latest `(Reading, receipt time)` pair. `set` overwrites unconditionally
//! and never fails; `get` returns exactly the stored pair, or nothing for a
//! sensor that never reported. The surrounding program serialises access, so
//! one exclusive borrow at a time is all the interface asks for.

use vstd::prelude::*;
use crate::reading::Reading;

verus! {

/// One entry: the sensor identifier, its latest reading, and the logical
/// time (milliseconds) the reading was received.
type Entry = (String, Reading, i64);

/// Mapping from sensor identifier to its most recently received reading and
/// receipt timestamp. Entries persist; a newer reading for the same sensor
/// replaces the older one.
pub struct SensorStore {
    entries: Vec<Entry>,
}

/// The map a sequence of entries denotes: later entries shadow earlier ones
/// with the same key (the store itself keeps its keys distinct).
spec fn entries_map(s: Seq<Entry>) -> Map<Seq<char>, (Reading, i64)>
    decreases s.len(),
{
    if s.len() == 0 {
        Map::empty()
    } else {
        entries_map(s.drop_last()).insert(s.last().0@, (s.last().1, s.last().2))
    }
}

/// No two entries share a key.
spec fn distinct_keys(s: Seq<Entry>) -> bool {
    forall|i: int, j: int| 0 <= i < j < s.len() ==> (#[trigger] s[i]).0@ != (#[trigger] s[j]).0@
}

/// A key that occurs in no entry is absent from the denoted map.
proof fn lemma_map_no_key(s: Seq<Entry>, k: Seq<char>)
    requires
        forall|j: int| 0 <= j < s.len() ==> (#[trigger] s[j]).0@ != k,
    ensures
        !entries_map(s).contains_key(k),
    decreases s.len(),
{
    if s.len() > 0 {
        lemma_map_no_key(s.drop_last(), k);
    }
}

/// With distinct keys, the entry at position `i` is what the denoted map
/// binds its key to.
proof fn lemma_map_found(s: Seq<Entry>, i: int)
    requires
        distinct_keys(s),
        0 <= i < s.len(),
    ensures
        entries_map(s).contains_key(s[i].0@),
        entries_map(s)[s[i].0@] == (s[i].1, s[i].2),
    decreases s.len(),
{
    if i < s.len() - 1 {
        lemma_map_found(s.drop_last(), i);
    }
}

/// Overwriting the entry that holds a key is, on the denoted map, one
/// insertion at that key.
proof fn lemma_map_update(s: Seq<Entry>, i: int, e: Entry)
    requires
        distinct_keys(s),
        0 <= i < s.len(),
        e.0@ == s[i].0@,
    ensures
        entries_map(s.update(i, e)) == entries_map(s).insert(e.0@, (e.1, e.2)),
    decreases s.len(),
{
    let u = s.update(i, e);
    if i == s.len() - 1 {
        assert(u.drop_last() =~= s.drop_last());
        assert(entries_map(u) =~= entries_map(s).insert(e.0@, (e.1, e.2)));
    } else {
        assert(u.drop_last() =~= s.drop_last().update(i, e));
        lemma_map_update(s.drop_last(), i, e);
        assert(u.last() == s.last());
        assert(s.last().0@ != e.0@);
        assert(entries_map(u) =~= entries_map(s).insert(e.0@, (e.1, e.2)));
    }
}

/// Appending an entry is, on the denoted map, one insertion at its key.
proof fn lemma_map_push(s: Seq<Entry>, e: Entry)
    ensures
        entries_map(s.push(e)) == entries_map(s).insert(e.0@, (e.1, e.2)),
{
    assert(s.push(e).drop_last() =~= s);
    assert(s.push(e).last() == e);
}

impl View for SensorStore {
    type V = Map<Seq<char>, (Reading, i64)>;

    closed spec fn view(&self) -> Map<Seq<char>, (Reading, i64)> {
        entries_map(self.entries@)
    }
}

impl SensorStore {
    /// The store keeps one entry per sensor.
    pub closed spec fn wf(self) -> bool {
        distinct_keys(self.entries@)
    }

    /// An empty store: no sensor has reported.
    pub fn new() -> (r: SensorStore)
        ensures
            r.wf(),
            r@ == Map::<Seq<char>, (Reading, i64)>::empty(),
    {
        SensorStore { entries: Vec::new() }
    }

    /// Position of the entry holding `id`, if any.
    fn find(&self, id: &String) -> (r: Option<usize>)
        ensures
            match r {
                Some(i) => i < self.entries@.len() && self.entries@[i as int].0@ == id@,
                None => forall|j: int|
                    0 <= j < self.entries@.len() ==> (#[trigger] self.entries@[j]).0@ != id@,
            },
    {
        let n = self.entries.len();
        let mut i: usize = 0;
        while i < n
            invariant
                i <= n,
                n == self.entries@.len(),
                forall|j: int| 0 <= j < i ==> (#[trigger] self.entries@[j]).0@ != id@,
            decreases n - i,
        {
            if self.entries[i].0 == *id {
                return Some(i);
            }
            i = i + 1;
        }
        None
    }

    /// Records `reading` as the latest for `id`, tagged with `now`,
    /// overwriting any previous entry for the same sensor. Never fails; all
    /// other sensors' entries are untouched.
    pub fn set(&mut self, id: String, reading: Reading, now: i64)
        requires
            old(self).wf(),
        ensures
            final(self).wf(),
            final(self)@ == old(self)@.insert(id@, (reading, now)),
    {
        match self.find(&id) {
            Some(i) => {
                proof {
                    lemma_map_update(self.entries@, i as int, (id, reading, now));
                }
                self.entries.set(i, (id, reading, now));
            },
            None => {
                proof {
                    lemma_map_push(self.entries@, (id, reading, now));
                }
                self.entries.push((id, reading, now));
            },
        }
    }

    /// The latest entry for `id`: exactly what the last `set` for that
    /// sensor stored, or nothing when the sensor never reported.
    pub fn get(&self, id: &String) -> (r: Option<(Reading, i64)>)
        requires
            self.wf(),
        ensures
            match r {
                Some(p) => self@.contains_key(id@) && p == self@[id@],
                None => !self@.contains_key(id@),
            },
    {
        match self.find(id) {
            Some(i) => {
                proof {
                    lemma_map_found(self.entries@, i as int);
                }
                let e = &self.entries[i];
                Some((e.1.clone(), e.2))
            },
            None => {
                proof {
                    lemma_map_no_key(self.entries@, id@);
                }
                None
            },
        }
    }
}

/// The store law: on the map model, `get` after `set(id, r, t)` sees exactly
/// `(r, t)`; a key never inserted is absent (so a `get` for a sensor that
/// never reported returns nothing); and a `set` leaves every other key bound
/// as it was.
pub proof fn lemma_store_get_after_set(
    m: Map<Seq<char>, (Reading, i64)>,
    id: Seq<char>,
    r: Reading,
    t: i64,
    other: Seq<char>,
)
    ensures
        m.insert(id, (r, t)).contains_key(id),
        m.insert(id, (r, t))[id] == (r, t),
        !Map::<Seq<char>, (Reading, i64)>::empty().contains_key(other),
        other != id ==> (m.insert(id, (r, t)).contains_key(other) <==> m.contains_key(other)),
        other != id && m.contains_key(other) ==> m.insert(id, (r, t))[other] == m[other],
{
}

} // verus!
