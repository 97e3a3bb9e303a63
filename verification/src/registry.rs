//! The registry: what the engine remembers of every unit, by name.

use vstd::prelude::*;
use crate::task::UnitRecord;

verus! {

/// One unit's name and what is remembered of it.
struct Entry {
    name: String,
    record: UnitRecord,
}

/// A map from unit names to unit records that lives as long as the engine
/// does. Entries are made and overwritten, never removed.
pub struct Registry {
    entries: Vec<Entry>,
}

/// No name is filed twice.
spec fn distinct(entries: Seq<Entry>) -> bool {
    forall|a: int, b: int| 0 <= a < b < entries.len() ==> entries[a].name@ != entries[b].name@
}

/// Whether `name` is filed among `entries`.
spec fn filed(entries: Seq<Entry>, name: Seq<char>) -> bool {
    exists|i: int| 0 <= i < entries.len() && (#[trigger] entries[i]).name@ == name
}

/// The position at which `name` is filed among `entries`.
spec fn slot_of(entries: Seq<Entry>, name: Seq<char>) -> int {
    choose|i: int| 0 <= i < entries.len() && (#[trigger] entries[i]).name@ == name
}

/// The map that `entries` stand for.
spec fn map_of(entries: Seq<Entry>) -> Map<Seq<char>, UnitRecord> {
    Map::new(
        |name: Seq<char>| filed(entries, name),
        |name: Seq<char>| entries[slot_of(entries, name)].record,
    )
}

/// The record filed under `name` in `map`, or that of a unit seen for the
/// first time where there is none.
pub open spec fn record_of(map: Map<Seq<char>, UnitRecord>, name: Seq<char>) -> UnitRecord {
    if map.contains_key(name) {
        map[name]
    } else {
        UnitRecord::fresh()
    }
}

proof fn lemma_slot_unique(entries: Seq<Entry>, i: int)
    requires
        0 <= i < entries.len(),
        distinct(entries),
    ensures
        filed(entries, entries[i].name@),
        slot_of(entries, entries[i].name@) == i,
{
    let s = slot_of(entries, entries[i].name@);
    assert(0 <= s < entries.len() && entries[s].name@ == entries[i].name@);
    if s < i {
        assert(entries[s].name@ != entries[i].name@);
    } else if i < s {
        assert(entries[i].name@ != entries[s].name@);
    }
}

/// Overwriting the entry at `i` with one of the same name overwrites the
/// record filed under that name.
proof fn lemma_update(entries: Seq<Entry>, i: int, entry: Entry)
    requires
        0 <= i < entries.len(),
        distinct(entries),
        entries[i].name@ == entry.name@,
    ensures
        distinct(entries.update(i, entry)),
        map_of(entries.update(i, entry)) == map_of(entries).insert(entry.name@, entry.record),
{
    let after = entries.update(i, entry);
    assert(distinct(after)) by {
        assert forall|a: int, b: int| 0 <= a < b < after.len() implies after[a].name@
            != after[b].name@ by {
            assert(after[a].name@ == entries[a].name@);
            assert(after[b].name@ == entries[b].name@);
        }
    }
    assert forall|k: Seq<char>| filed(after, k) <==> filed(entries, k) by {
        if filed(after, k) {
            let s = slot_of(after, k);
            assert(entries[s].name@ == k);
        }
        if filed(entries, k) {
            let s = slot_of(entries, k);
            assert(after[s].name@ == k);
        }
    }
    assert forall|k: Seq<char>| filed(after, k) implies #[trigger] map_of(after)[k] == map_of(
        entries,
    ).insert(entry.name@, entry.record)[k] by {
        let s = slot_of(after, k);
        assert(0 <= s < after.len() && after[s].name@ == k);
        lemma_slot_unique(after, s);
        assert(entries[s].name@ == k);
        lemma_slot_unique(entries, s);
        lemma_slot_unique(entries, i);
    }
    lemma_slot_unique(entries, i);
    assert(map_of(after) =~= map_of(entries).insert(entry.name@, entry.record));
}

/// Appending an entry under a name that is not filed yet files its record.
proof fn lemma_append(entries: Seq<Entry>, entry: Entry)
    requires
        distinct(entries),
        !filed(entries, entry.name@),
    ensures
        distinct(entries.push(entry)),
        map_of(entries.push(entry)) == map_of(entries).insert(entry.name@, entry.record),
{
    let after = entries.push(entry);
    let n = entries.len() as int;
    assert(distinct(after)) by {
        assert forall|a: int, b: int| 0 <= a < b < after.len() implies after[a].name@
            != after[b].name@ by {
            assert(after[a] == entries[a]);
            if b < n {
                assert(after[b] == entries[b]);
            }
        }
    }
    assert(after[n].name@ == entry.name@);
    lemma_slot_unique(after, n);
    assert forall|k: Seq<char>| filed(after, k) implies filed(entries, k) || k == entry.name@ by {
        let s = slot_of(after, k);
        assert(0 <= s < after.len() && after[s].name@ == k);
        if s < n {
            assert(entries[s].name@ == k);
        }
    }
    assert forall|k: Seq<char>| filed(entries, k) implies filed(after, k) && after[slot_of(
        after,
        k,
    )].record == entries[slot_of(entries, k)].record by {
        let s = slot_of(entries, k);
        assert(0 <= s < entries.len() && entries[s].name@ == k);
        assert(after[s].name@ == k);
        lemma_slot_unique(after, s);
    }
    assert(map_of(after) =~= map_of(entries).insert(entry.name@, entry.record));
}

/// The set of names filed among `entries`.
spec fn keys_of(entries: Seq<Entry>) -> Set<Seq<char>> {
    Set::new(|name: Seq<char>| filed(entries, name))
}

proof fn lemma_keys_counted(entries: Seq<Entry>)
    requires
        distinct(entries),
    ensures
        keys_of(entries).finite(),
        keys_of(entries).len() == entries.len(),
    decreases entries.len(),
{
    if entries.len() == 0 {
        assert(keys_of(entries) =~= Set::<Seq<char>>::empty());
    } else {
        let rest = entries.drop_last();
        let last = entries.last().name@;
        lemma_keys_counted(rest);
        assert(!filed(rest, last)) by {
            if filed(rest, last) {
                let s = slot_of(rest, last);
                assert(0 <= s < rest.len() && rest[s].name@ == last);
                assert(entries[s].name@ != entries[entries.len() - 1].name@);
            }
        }
        assert(keys_of(entries) =~= keys_of(rest).insert(last)) by {
            assert forall|k: Seq<char>| filed(entries, k) implies filed(rest, k) || k == last by {
                let s = slot_of(entries, k);
                assert(0 <= s < entries.len() && entries[s].name@ == k);
                if s < rest.len() {
                    assert(rest[s].name@ == k);
                }
            }
            assert forall|k: Seq<char>| filed(rest, k) implies filed(entries, k) by {
                let s = slot_of(rest, k);
                assert(0 <= s < rest.len() && rest[s].name@ == k);
                assert(entries[s].name@ == k);
            }
            assert(entries[entries.len() - 1].name@ == last);
        }
    }
}

impl View for Registry {
    type V = Map<Seq<char>, UnitRecord>;

    closed spec fn view(&self) -> Map<Seq<char>, UnitRecord> {
        map_of(self.entries@)
    }
}

impl Registry {
    #[verifier::type_invariant]
    spec fn well_formed(&self) -> bool {
        distinct(self.entries@)
    }

    /// An empty registry.
    pub fn new() -> (registry: Registry)
        ensures
            registry@ == Map::<Seq<char>, UnitRecord>::empty(),
    {
        let registry = Registry { entries: Vec::new() };
        assert(registry@ =~= Map::<Seq<char>, UnitRecord>::empty());
        registry
    }

    /// How many units are on record.
    pub fn len(&self) -> (n: usize)
        ensures
            self@.dom().finite(),
            n == self@.dom().len(),
    {
        proof {
            use_type_invariant(self);
            lemma_keys_counted(self.entries@);
            assert(self@.dom() =~= keys_of(self.entries@));
        }
        self.entries.len()
    }

    /// How many entries are filed.
    pub(crate) closed spec fn slots(&self) -> nat {
        self.entries@.len()
    }

    /// The name filed at slot `i`.
    pub(crate) closed spec fn name_at(&self, i: int) -> Seq<char> {
        self.entries@[i].name@
    }

    /// The slot at which `name` is filed, found in one pass over the entries.
    pub(crate) fn find(&self, name: &String) -> (found: Option<usize>)
        ensures
            match found {
                Some(i) => i < self.slots() && self.name_at(i as int) == name@
                    && self@.contains_key(name@),
                None => !self@.contains_key(name@),
            },
    {
        proof {
            use_type_invariant(self);
        }
        let mut i: usize = 0;
        while i < self.entries.len()
            invariant
                distinct(self.entries@),
                i <= self.entries@.len(),
                forall|j: int| 0 <= j < i ==> self.entries@[j].name@ != name@,
            decreases self.entries@.len() - i,
        {
            if self.entries[i].name == *name {
                proof {
                    lemma_slot_unique(self.entries@, i as int);
                }
                return Some(i);
            }
            i += 1;
        }
        None
    }

    /// The record filed at slot `i`, without a search.
    pub(crate) fn record_at(&self, i: usize) -> (record: UnitRecord)
        requires
            i < self.slots(),
        ensures
            self@.contains_key(self.name_at(i as int)),
            record == self@[self.name_at(i as int)],
    {
        proof {
            use_type_invariant(self);
            lemma_slot_unique(self.entries@, i as int);
        }
        self.entries[i].record
    }

    /// Replaces the record filed at slot `i`, without a search.
    pub(crate) fn set_record_at(&mut self, i: usize, record: UnitRecord)
        requires
            i < old(self).slots(),
        ensures
            final(self)@ == old(self)@.insert(old(self).name_at(i as int), record),
    {
        proof {
            use_type_invariant(&*self);
        }
        let entry = Entry { name: self.entries[i].name.clone(), record };
        let mut entries: Vec<Entry> = Vec::new();
        core::mem::swap(&mut self.entries, &mut entries);
        proof {
            lemma_update(entries@, i as int, entry);
        }
        entries.set(i, entry);
        core::mem::swap(&mut self.entries, &mut entries);
    }

    /// Files `record` under a name that is not on record yet, without a
    /// search.
    pub(crate) fn file(&mut self, name: &String, record: UnitRecord)
        requires
            !old(self)@.contains_key(name@),
        ensures
            final(self)@ == old(self)@.insert(name@, record),
    {
        proof {
            use_type_invariant(&*self);
        }
        let entry = Entry { name: name.clone(), record };
        let mut entries: Vec<Entry> = Vec::new();
        core::mem::swap(&mut self.entries, &mut entries);
        proof {
            lemma_append(entries@, entry);
        }
        entries.push(entry);
        core::mem::swap(&mut self.entries, &mut entries);
    }

    /// The record filed under `name`, if there is one.
    pub fn get(&self, name: &String) -> (record: Option<UnitRecord>)
        ensures
            record == (if self@.contains_key(name@) {
                Some(self@[name@])
            } else {
                None
            }),
    {
        match self.find(name) {
            Some(i) => Some(self.record_at(i)),
            None => None,
        }
    }

    /// Files `record` under `name`, in place of whatever was there.
    pub fn insert(&mut self, name: &String, record: UnitRecord)
        ensures
            final(self)@ == old(self)@.insert(name@, record),
    {
        match self.find(name) {
            Some(i) => self.set_record_at(i, record),
            None => self.file(name, record),
        }
    }

    /// The record filed under `name`; a unit that is not on record yet is
    /// entered as a worker without a task.
    pub fn get_or_create(&mut self, name: &String) -> (record: UnitRecord)
        ensures
            record == record_of(old(self)@, name@),
            final(self)@ == old(self)@.insert(name@, record),
    {
        match self.find(name) {
            Some(i) => {
                let record = self.record_at(i);
                assert(self@ =~= old(self)@.insert(name@, record));
                record
            },
            None => {
                let record = UnitRecord::first_seen();
                self.file(name, record);
                record
            },
        }
    }
}

} // verus!
