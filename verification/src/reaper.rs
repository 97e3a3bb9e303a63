//! The reaper: which stored entries belong to units that are gone.
//!
//! The reaper only decides. It is handed the names of the living and the
//! names under which something is stored, and answers with the names whose
//! stored entries are to be deleted. It never touches the registry.

use vstd::prelude::*;

verus! {

/// The reaper runs on every tick that is a multiple of this interval.
pub const REAP_INTERVAL: u32 = 1000;

/// Whether the reaper runs on `tick`.
pub open spec fn reap_due(tick: u32) -> bool {
    tick % REAP_INTERVAL == 0
}

/// The names that `names` holds, as plain sequences of characters.
pub open spec fn names_view(names: Seq<String>) -> Seq<Seq<char>> {
    Seq::new(names.len(), |i: int| names[i]@)
}

/// The entries of `stored` that name no living unit, in the order of
/// `stored`.
pub open spec fn stale(stored: Seq<Seq<char>>, alive: Seq<Seq<char>>) -> Seq<Seq<char>>
    decreases stored.len(),
{
    if stored.len() == 0 {
        Seq::empty()
    } else if alive.contains(stored.last()) {
        stale(stored.drop_last(), alive)
    } else {
        stale(stored.drop_last(), alive).push(stored.last())
    }
}

/// Whether the reaper runs on `tick`: on every multiple of the interval.
pub fn reaper_due(tick: u32) -> (due: bool)
    ensures
        due == reap_due(tick),
{
    tick % REAP_INTERVAL == 0
}

/// Whether `name` is among `names`.
pub fn is_listed(names: &Vec<String>, name: &String) -> (listed: bool)
    ensures
        listed == names_view(names@).contains(name@),
{
    let mut i: usize = 0;
    while i < names.len()
        invariant
            i <= names@.len(),
            forall|j: int| 0 <= j < i ==> names@[j]@ != name@,
        decreases names@.len() - i,
    {
        if names[i] == *name {
            assert(names_view(names@)[i as int] == name@);
            return true;
        }
        i += 1;
    }
    false
}

/// The stored names that belong to no living unit, in stored order.
pub fn stale_entries(alive: &Vec<String>, stored: &Vec<String>) -> (doomed: Vec<String>)
    ensures
        names_view(doomed@) == stale(names_view(stored@), names_view(alive@)),
{
    let mut doomed: Vec<String> = Vec::new();
    let mut i: usize = 0;
    assert(names_view(stored@).take(0) =~= Seq::<Seq<char>>::empty());
    while i < stored.len()
        invariant
            i <= stored@.len(),
            names_view(doomed@) =~= stale(names_view(stored@).take(i as int), names_view(alive@)),
        decreases stored@.len() - i,
    {
        let ghost all = names_view(stored@);
        assert(all.take(i + 1).drop_last() =~= all.take(i as int));
        assert(all.take(i + 1).last() == stored@[i as int]@);
        if !is_listed(alive, &stored[i]) {
            let ghost before = names_view(doomed@);
            doomed.push(stored[i].clone());
            assert(names_view(doomed@) =~= before.push(stored@[i as int]@));
        }
        i += 1;
    }
    assert(names_view(stored@).take(stored@.len() as int) =~= names_view(stored@));
    doomed
}

/// The stored entries to delete on `tick`: the stale ones when the reaper is
/// due, none on any other tick.
pub fn reap(tick: u32, alive: &Vec<String>, stored: &Vec<String>) -> (doomed: Vec<String>)
    ensures
        names_view(doomed@) == (if reap_due(tick) {
            stale(names_view(stored@), names_view(alive@))
        } else {
            Seq::<Seq<char>>::empty()
        }),
{
    if reaper_due(tick) {
        stale_entries(alive, stored)
    } else {
        let doomed: Vec<String> = Vec::new();
        assert(names_view(doomed@) =~= Seq::<Seq<char>>::empty());
        doomed
    }
}

/// An entry is deleted exactly if it is stored and names no living unit.
pub proof fn lemma_stale_members(stored: Seq<Seq<char>>, alive: Seq<Seq<char>>, name: Seq<char>)
    ensures
        stale(stored, alive).contains(name) <==> stored.contains(name) && !alive.contains(name),
    decreases stored.len(),
{
    if stored.len() > 0 {
        let rest = stored.drop_last();
        let last = stored.last();
        lemma_stale_members(rest, alive, name);
        if stored.contains(name) {
            let i = choose|i: int| 0 <= i < stored.len() && stored[i] == name;
            if i < rest.len() {
                assert(rest[i] == name);
            }
        }
        if rest.contains(name) {
            let i = choose|i: int| 0 <= i < rest.len() && rest[i] == name;
            assert(stored[i] == name);
        }
        assert(stored[stored.len() - 1] == last);
        let kept = stale(rest, alive);
        if !alive.contains(last) {
            assert(kept.push(last)[kept.len() as int] == last);
            if kept.contains(name) {
                let i = choose|i: int| 0 <= i < kept.len() && kept[i] == name;
                assert(kept.push(last)[i] == name);
            }
            if kept.push(last).contains(name) {
                let i = choose|i: int| 0 <= i < kept.len() + 1 && kept.push(last)[i] == name;
                if i < kept.len() {
                    assert(kept[i] == name);
                }
            }
        }
    }
}

} // verus!
