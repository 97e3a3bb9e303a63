//! The task state machine of a single unit.
//!
//! A tick of one unit has two halves. In the first the engine looks at what
//! the caller observed and answers with a [`Command`]; in the second, if the
//! command asked for an action on the target, the caller reports how that
//! action went and the engine answers with a [`Followup`].

use vstd::prelude::*;
use crate::role::Role;
use crate::task::{Task, UnitRecord};
use crate::selector::{RoomScan, Wanted, choice, select_task, wanted_by, wanted_list};
use crate::place::{in_reach, is_near};

verus! {

/// What the caller saw of one unit and its surroundings this tick.
///
/// `target` is read only where the unit has a task that is ready, `at` only
/// where that task is a harvest, `room` only where a task has to be chosen;
/// a caller may leave the rest empty.
#[derive(Debug)]
pub struct Observation {
    /// The unit is still materialising.
    pub spawning: bool,
    /// Resource carried.
    pub used: u32,
    /// Room left for more, as the host reports it.
    pub free: i32,
    /// Where the unit stands, as a packed position.
    pub at: u32,
    /// Where the target of the recorded task stands, as a packed position;
    /// `None` where its identifier no longer resolves.
    pub target: Option<u32>,
    /// What the unit's room offers.
    pub room: RoomScan,
}

/// What the caller has to gather before a unit can be advanced.
#[derive(Clone, Copy, Debug, PartialEq, Eq, Structural)]
pub enum Need {
    /// Nothing: the unit is skipped.
    Nothing,
    /// Whether the target of the given task still exists, and where it is.
    Target(Task),
    /// A scan of the unit's room; of its lists only the one named is read.
    Room(Wanted),
}

/// One host action on the target of a task.
#[derive(Clone, Copy, Debug, PartialEq, Eq, Structural)]
pub enum Action {
    /// No host action.
    Idle,
    /// Do what the task names to its target: upgrade, harvest, build, or
    /// hand over resource.
    Perform(Task),
    /// Move toward the task's target.
    Approach(Task),
}

/// The engine's answer to an observation.
#[derive(Clone, Copy, Debug, PartialEq, Eq, Structural)]
pub struct Command {
    /// The role to announce, where the unit keeps or gets a task.
    pub announce: Option<Role>,
    pub action: Action,
}

/// How the host answered an action.
#[derive(Clone, Copy, Debug, PartialEq, Eq, Structural)]
pub enum Outcome {
    Success,
    NotInRange,
    /// Any other refusal.
    Failed,
}

/// The engine's answer to an outcome.
#[derive(Clone, Copy, Debug, PartialEq, Eq, Structural)]
pub enum Followup {
    /// Nothing more to do; the task stands.
    Keep,
    /// Move toward the target; the task stands.
    Approach(Task),
    /// The task was dropped; worth a warning.
    Dropped,
}

/// The recorded task is one the unit can work on right now.
pub open spec fn engaged(record: UnitRecord, used: u32, free: i32) -> bool {
    record.task.is_some() && record.task.unwrap().ready(used, free)
}

/// What has to be known of the world before `record` can be advanced.
pub open spec fn need_for(record: UnitRecord, spawning: bool, used: u32, free: i32) -> Need {
    if spawning {
        Need::Nothing
    } else if engaged(record, used, free) {
        Need::Target(record.task.unwrap())
    } else {
        Need::Room(wanted_by(record.role, used))
    }
}

/// The task on record after the first half of a tick.
///
/// A unit that is materialising is left alone. A ready task stands while its
/// target exists and is cleared when it does not. In every other case a task
/// is chosen afresh, and the old one stays only where nothing was found.
pub open spec fn task_after(record: UnitRecord, obs: Observation) -> Option<Task> {
    if obs.spawning {
        record.task
    } else if engaged(record, obs.used, obs.free) {
        if obs.target.is_some() {
            record.task
        } else {
            None
        }
    } else {
        match choice(record.role, obs.used, obs.room) {
            Some(t) => Some(t),
            None => record.task,
        }
    }
}

/// The record after the first half of a tick: the role as it was, the task
/// as [`task_after`] gives it.
pub open spec fn record_after(record: UnitRecord, obs: Observation) -> UnitRecord {
    UnitRecord { role: record.role, task: task_after(record, obs) }
}

/// The action owed to a ready task of a unit at `at` whose target was looked
/// up. Harvesting is only attempted from next to the source; everything else
/// is attempted at once and leaves it to the host to say that the target is
/// out of range.
pub open spec fn action_for(task: Task, at: u32, target: Option<u32>) -> Action {
    match target {
        None => Action::Idle,
        Some(place) => if (task is Harvest) && !in_reach(at, place) {
            Action::Approach(task)
        } else {
            Action::Perform(task)
        },
    }
}

/// The command that answers an observation.
pub open spec fn command_for(record: UnitRecord, obs: Observation) -> Command {
    if obs.spawning {
        Command { announce: None, action: Action::Idle }
    } else if engaged(record, obs.used, obs.free) {
        Command {
            announce: Some(record.role),
            action: action_for(record.task.unwrap(), obs.at, obs.target),
        }
    } else if choice(record.role, obs.used, obs.room).is_some() {
        Command { announce: Some(record.role), action: Action::Idle }
    } else {
        Command { announce: None, action: Action::Idle }
    }
}

/// The task on record after the host answered an action: it stands on
/// success and on "not in range", and is cleared on any other refusal.
pub open spec fn task_settled(task: Option<Task>, outcome: Outcome) -> Option<Task> {
    match outcome {
        Outcome::Failed => None,
        _ => task,
    }
}

/// The answer to an outcome.
pub open spec fn followup_for(task: Option<Task>, outcome: Outcome) -> Followup {
    match task {
        None => Followup::Keep,
        Some(t) => match outcome {
            Outcome::Success => Followup::Keep,
            Outcome::NotInRange => Followup::Approach(t),
            Outcome::Failed => Followup::Dropped,
        },
    }
}

/// The record after the second half of a tick.
pub open spec fn record_settled(record: UnitRecord, outcome: Outcome) -> UnitRecord {
    UnitRecord { role: record.role, task: task_settled(record.task, outcome) }
}

/// Says what the caller must find out before it can advance `record`.
pub fn need_of(record: UnitRecord, spawning: bool, used: u32, free: i32) -> (need: Need)
    ensures
        need == need_for(record, spawning, used, free),
{
    if spawning {
        return Need::Nothing;
    }
    match record.task {
        Some(t) => {
            if t.is_ready(used, free) {
                return Need::Target(t);
            }
        },
        None => {},
    }
    Need::Room(wanted_list(record.role, used))
}

/// The first half of a tick for one unit: from its record and what was
/// observed to its next record and the command to carry out.
pub fn advance(record: UnitRecord, obs: &Observation) -> (next: (UnitRecord, Command))
    ensures
        next.0 == record_after(record, *obs),
        next.1 == command_for(record, *obs),
{
    if obs.spawning {
        return (record, Command { announce: None, action: Action::Idle });
    }
    match record.task {
        Some(t) => {
            if t.is_ready(obs.used, obs.free) {
                let action = match obs.target {
                    None => {
                        return (
                            UnitRecord { role: record.role, task: None },
                            Command { announce: Some(record.role), action: Action::Idle },
                        );
                    },
                    Some(place) => {
                        let far_source = match t {
                            Task::Harvest(_) => !is_near(obs.at, place),
                            _ => false,
                        };
                        if far_source {
                            Action::Approach(t)
                        } else {
                            Action::Perform(t)
                        }
                    },
                };
                return (record, Command { announce: Some(record.role), action });
            }
        },
        None => {},
    }
    match select_task(record.role, obs.used, &obs.room) {
        Some(t) => (
            UnitRecord { role: record.role, task: Some(t) },
            Command { announce: Some(record.role), action: Action::Idle },
        ),
        None => (record, Command { announce: None, action: Action::Idle }),
    }
}

/// The second half of a tick for one unit: from its record and the host's
/// answer to its next record and what is left to do.
pub fn settle(record: UnitRecord, outcome: Outcome) -> (next: (UnitRecord, Followup))
    ensures
        next.0 == record_settled(record, outcome),
        next.1 == followup_for(record.task, outcome),
{
    match record.task {
        None => (record, Followup::Keep),
        Some(t) => match outcome {
            Outcome::Success => (record, Followup::Keep),
            Outcome::NotInRange => (record, Followup::Approach(t)),
            Outcome::Failed => (UnitRecord { role: record.role, task: None }, Followup::Dropped),
        },
    }
}

/// One thing that happens to a unit: an observation at the start of a tick,
/// or the host's answer to an action.
pub enum Event {
    Observed(Observation),
    Answered(Outcome),
}

/// The record after one event.
pub open spec fn record_next(record: UnitRecord, event: Event) -> UnitRecord {
    match event {
        Event::Observed(obs) => record_after(record, obs),
        Event::Answered(outcome) => record_settled(record, outcome),
    }
}

/// The record after a whole history of events, oldest first.
pub open spec fn record_replayed(record: UnitRecord, events: Seq<Event>) -> UnitRecord
    decreases events.len(),
{
    if events.len() == 0 {
        record
    } else {
        record_next(record_replayed(record, events.drop_last()), events.last())
    }
}

/// A unit's role is the same after any number of ticks, whatever was
/// observed and however the host answered.
pub proof fn lemma_role_is_permanent(record: UnitRecord, events: Seq<Event>)
    ensures
        record_replayed(record, events).role == record.role,
    decreases events.len(),
{
    if events.len() > 0 {
        lemma_role_is_permanent(record, events.drop_last());
    }
}

/// Where the recorded task is not ready, the tick either leaves it as it was
/// or replaces it by a freshly chosen one, and a freshly chosen one is ready
/// under the same observation. The unit must be able to carry something:
/// with neither load nor room a harvest would be chosen that is not ready.
pub proof fn lemma_stalled_task_is_kept_or_replaced(record: UnitRecord, obs: Observation)
    requires
        !obs.spawning,
        record.task.is_some(),
        !record.task.unwrap().ready(obs.used, obs.free),
        obs.used > 0 || obs.free > 0,
    ensures
        task_after(record, obs) == record.task || (task_after(record, obs) == choice(
            record.role,
            obs.used,
            obs.room,
        ) && engaged(record_after(record, obs), obs.used, obs.free)),
        choice(record.role, obs.used, obs.room).is_none() ==> task_after(record, obs)
            == record.task,
{
}

/// A task whose target has vanished is cleared without further action.
pub proof fn lemma_vanished_target_clears(record: UnitRecord, obs: Observation)
    requires
        !obs.spawning,
        engaged(record, obs.used, obs.free),
        obs.target.is_none(),
    ensures
        task_after(record, obs).is_none(),
        command_for(record, obs).action == Action::Idle,
{
}

} // verus!
