//! Tasks and the per-unit record.

use vstd::prelude::*;
use crate::role::Role;

verus! {

/// A unit's current goal. Each variant names its target by a packed
/// identifier: a weak reference that owns nothing and may no longer resolve.
#[derive(Clone, Copy, Debug, PartialEq, Eq, Structural)]
pub enum Task {
    Upgrade(u128),
    Harvest(u128),
    Build(u128),
    FillSpawn(u128),
}

impl Task {
    /// The identifier of the entity that the task is aimed at.
    pub open spec fn target_of(self) -> u128 {
        match self {
            Task::Upgrade(id) => id,
            Task::Harvest(id) => id,
            Task::Build(id) => id,
            Task::FillSpawn(id) => id,
        }
    }

    #[verifier::when_used_as_spec(target_of)]
    pub fn target(self) -> (id: u128)
        ensures
            id == self.target_of(),
    {
        match self {
            Task::Upgrade(id) => id,
            Task::Harvest(id) => id,
            Task::Build(id) => id,
            Task::FillSpawn(id) => id,
        }
    }

    /// Whether the task is still meaningful for a unit that carries `used`
    /// and has room for `free` more: harvesting needs room, everything else
    /// needs something to spend.
    pub open spec fn ready(self, used: u32, free: i32) -> bool {
        match self {
            Task::Harvest(_) => free > 0,
            _ => used > 0,
        }
    }

    #[verifier::when_used_as_spec(ready)]
    pub fn is_ready(self, used: u32, free: i32) -> (ok: bool)
        ensures
            ok == self.ready(used, free),
    {
        match self {
            Task::Harvest(_) => free > 0,
            _ => used > 0,
        }
    }
}

/// What the engine remembers of one unit between ticks.
#[derive(Clone, Copy, Debug, PartialEq, Eq, Structural)]
pub struct UnitRecord {
    pub role: Role,
    pub task: Option<Task>,
}

impl UnitRecord {
    /// The record of a unit seen for the first time: a worker with nothing to do.
    pub open spec fn fresh() -> UnitRecord {
        UnitRecord { role: Role::Worker, task: None }
    }

    pub fn first_seen() -> (record: UnitRecord)
        ensures
            record == UnitRecord::fresh(),
    {
        UnitRecord { role: Role::Worker, task: None }
    }
}

} // verus!
