//! One unit's tick against the registry.

use vstd::prelude::*;
use crate::task::UnitRecord;
use crate::registry::{Registry, record_of};
use crate::tick::{Pass, registry_next};
use crate::executor::{
    Action, Command, Followup, Need, Observation, Outcome, advance, command_for, followup_for,
    need_for, need_of, settle,
};

verus! {

/// Says what the caller must find out about the unit `name` before
/// [`run_creep`] can advance it. The registry is only read.
pub fn creep_need(
    registry: &Registry,
    name: &String,
    spawning: bool,
    used: u32,
    free: i32,
) -> (need: Need)
    ensures
        need == need_for(record_of(registry@, name@), spawning, used, free),
{
    let record = match registry.get(name) {
        Some(r) => r,
        None => UnitRecord::first_seen(),
    };
    need_of(record, spawning, used, free)
}

/// The first half of the tick of the unit `name`.
///
/// A unit that is still materialising is skipped: nothing is recorded and
/// nothing is commanded. Any other unit is put on record if it was not, its
/// record moves on as [`registry_next`] says of an observation, and the
/// command is the one that [`command_for`] gives. No other unit's record
/// changes, and no role does. The name is looked up once.
pub fn run_creep(registry: &mut Registry, name: &String, obs: &Observation) -> (command: Command)
    ensures
        command == command_for(record_of(old(registry)@, name@), *obs),
        final(registry)@ == registry_next(
            old(registry)@,
            (Pass::Observed { name: name@, obs: *obs }),
        ),
        !obs.spawning ==> final(registry)@.contains_key(name@),
        forall|other: Seq<char>| #[trigger]
            old(registry)@.contains_key(other) ==> final(registry)@.contains_key(other)
                && final(registry)@[other].role == old(registry)@[other].role,
{
    if obs.spawning {
        return Command { announce: None, action: Action::Idle };
    }
    let found = registry.find(name);
    let record = match found {
        Some(slot) => registry.record_at(slot),
        None => UnitRecord::first_seen(),
    };
    let (next, command) = advance(record, obs);
    match found {
        Some(slot) => registry.set_record_at(slot, next),
        None => registry.file(name, next),
    }
    command
}

/// The second half of the tick of the unit `name`: books how the host
/// answered the action that [`run_creep`] commanded.
///
/// The unit's record moves on as [`registry_next`] says of an answer, and
/// the followup is the one that [`followup_for`] gives. A name that is not
/// on record leaves the registry as it was. The name is looked up once.
pub fn settle_creep(
    registry: &mut Registry,
    name: &String,
    outcome: Outcome,
) -> (followup: Followup)
    ensures
        followup == (if old(registry)@.contains_key(name@) {
            followup_for(old(registry)@[name@].task, outcome)
        } else {
            Followup::Keep
        }),
        final(registry)@ == registry_next(
            old(registry)@,
            (Pass::Answered { name: name@, outcome }),
        ),
        forall|other: Seq<char>| #[trigger]
            old(registry)@.contains_key(other) ==> final(registry)@.contains_key(other)
                && final(registry)@[other].role == old(registry)@[other].role,
{
    match registry.find(name) {
        Some(slot) => {
            let (next, followup) = settle(registry.record_at(slot), outcome);
            registry.set_record_at(slot, next);
            followup
        },
        None => Followup::Keep,
    }
}

} // verus!
