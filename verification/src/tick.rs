//! A whole tick, as the sequence of things it does to the registry, and what
//! holds of the registry after any such sequence.

use vstd::prelude::*;
use crate::executor::{Observation, Outcome, record_after, record_settled};
use crate::registry::record_of;
use crate::role::{Role, role_of_sequence};
use crate::spawn::{lemma_label_tells_sequence, unit_label};
use crate::task::UnitRecord;

verus! {

/// One thing a tick does to the registry.
pub enum Pass {
    /// The first half of a unit's tick: the unit was observed.
    Observed { name: Seq<char>, obs: Observation },
    /// The second half of a unit's tick: the host answered its action.
    Answered { name: Seq<char>, outcome: Outcome },
    /// A spawn order was carried out, or refused.
    Spawned { name: Seq<char>, role: Role, created: bool },
}

/// The registry after one pass.
pub open spec fn registry_next(map: Map<Seq<char>, UnitRecord>, pass: Pass) -> Map<
    Seq<char>,
    UnitRecord,
> {
    match pass {
        Pass::Observed { name, obs } => if obs.spawning {
            map
        } else {
            map.insert(name, record_after(record_of(map, name), obs))
        },
        Pass::Answered { name, outcome } => if map.contains_key(name) {
            map.insert(name, record_settled(map[name], outcome))
        } else {
            map
        },
        Pass::Spawned { name, role, created } => if created {
            map.insert(name, UnitRecord { role, task: None })
        } else {
            map
        },
    }
}

/// The registry after a sequence of passes, oldest first.
pub open spec fn registry_replayed(map: Map<Seq<char>, UnitRecord>, passes: Seq<Pass>) -> Map<
    Seq<char>,
    UnitRecord,
>
    decreases passes.len(),
{
    if passes.len() == 0 {
        map
    } else {
        registry_next(registry_replayed(map, passes.drop_last()), passes.last())
    }
}

/// The names under which a unit was created in the course of `passes`.
pub open spec fn names_created(passes: Seq<Pass>) -> Set<Seq<char>>
    decreases passes.len(),
{
    if passes.len() == 0 {
        Set::empty()
    } else {
        match passes.last() {
            Pass::Spawned { name, role, created } => if created {
                names_created(passes.drop_last()).insert(name)
            } else {
                names_created(passes.drop_last())
            },
            _ => names_created(passes.drop_last()),
        }
    }
}

/// Whatever a tick is made of, a unit that was on record before it is on
/// record after it with the role it had, unless a unit was created under
/// its name in between.
pub proof fn lemma_roles_outlast_ticks(
    map: Map<Seq<char>, UnitRecord>,
    passes: Seq<Pass>,
    name: Seq<char>,
)
    requires
        map.contains_key(name),
        !names_created(passes).contains(name),
    ensures
        registry_replayed(map, passes).contains_key(name),
        registry_replayed(map, passes)[name].role == map[name].role,
    decreases passes.len(),
{
    if passes.len() > 0 {
        lemma_roles_outlast_ticks(map, passes.drop_last(), name);
    }
}

/// How many of the spawn commands succeeded.
pub open spec fn count_created(created: Seq<bool>) -> nat
    decreases created.len(),
{
    if created.len() == 0 {
        0
    } else if created.last() {
        count_created(created.drop_last()) + 1
    } else {
        count_created(created.drop_last())
    }
}

/// The registry after the spawn commands of one tick, `created` telling of
/// each command in turn whether the host carried it out. Every command is
/// issued under the sequence number that counts the successes before it.
pub open spec fn registry_spawned(
    map: Map<Seq<char>, UnitRecord>,
    tick: u32,
    created: Seq<bool>,
) -> Map<Seq<char>, UnitRecord>
    decreases created.len(),
{
    if created.len() == 0 {
        map
    } else {
        let sequence = count_created(created.drop_last());
        registry_next(
            registry_spawned(map, tick, created.drop_last()),
            Pass::Spawned {
                name: unit_label(tick, sequence as u32),
                role: role_of_sequence(sequence),
                created: created.last(),
            },
        )
    }
}

proof fn lemma_count_bounded(created: Seq<bool>)
    ensures
        count_created(created) <= created.len(),
    decreases created.len(),
{
    if created.len() > 0 {
        lemma_count_bounded(created.drop_last());
    }
}

/// After the spawn commands of a tick, each unit that was created is on
/// record under the tick and its sequence number, without a task, as a
/// builder if that number is even and as a worker if it is odd.
pub proof fn lemma_spawned_units_alternate(
    map: Map<Seq<char>, UnitRecord>,
    tick: u32,
    created: Seq<bool>,
    sequence: nat,
)
    requires
        created.len() <= u32::MAX,
        sequence < count_created(created),
    ensures
        registry_spawned(map, tick, created).contains_key(unit_label(tick, sequence as u32)),
        registry_spawned(map, tick, created)[unit_label(tick, sequence as u32)] == (UnitRecord {
            role: role_of_sequence(sequence),
            task: None,
        }),
    decreases created.len(),
{
    let before = created.drop_last();
    let reached = count_created(before);
    lemma_count_bounded(before);
    if sequence < reached {
        lemma_spawned_units_alternate(map, tick, before, sequence);
        if unit_label(tick, sequence as u32) == unit_label(tick, reached as u32) {
            lemma_label_tells_sequence(tick, sequence as u32, reached as u32);
        }
    }
}

} // verus!
