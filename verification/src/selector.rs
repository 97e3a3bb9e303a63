//! Choosing a task for a unit that has none worth pursuing.

use vstd::prelude::*;
use crate::role::Role;
use crate::task::Task;

verus! {

/// A spawn facility as the selector sees it.
#[derive(Clone, Copy, Debug, PartialEq, Eq, Structural)]
pub struct SpawnView {
    pub id: u128,
    /// Free storage, as the host reports it.
    pub free: i32,
}

/// What a unit's room offers, each list in the room's own enumeration order.
#[derive(Debug)]
pub struct RoomScan {
    /// Construction sites; `None` stands for a site that has no identifier yet.
    pub sites: Vec<Option<u128>>,
    /// The room's controller, if it has one.
    pub controller: Option<u128>,
    /// Owned spawn facilities.
    pub spawns: Vec<SpawnView>,
    /// Energy sources that are currently active.
    pub sources: Vec<u128>,
}

/// The one list of a room scan that a choice depends on.
#[derive(Clone, Copy, Debug, PartialEq, Eq, Structural)]
pub enum Wanted {
    /// Construction sites, and the controller.
    Sites,
    /// Spawn facilities, and the controller.
    Spawns,
    /// Active sources.
    Sources,
}

/// Which list the choice for a unit of `role` that carries `used` reads.
pub open spec fn wanted_by(role: Role, used: u32) -> Wanted {
    if used == 0 {
        Wanted::Sources
    } else if role == Role::Builder {
        Wanted::Sites
    } else {
        Wanted::Spawns
    }
}

/// Whether two scans agree in all that a choice under `wanted` reads.
pub open spec fn same_where_wanted(wanted: Wanted, a: RoomScan, b: RoomScan) -> bool {
    match wanted {
        Wanted::Sites => a.sites@ == b.sites@ && a.controller == b.controller,
        Wanted::Spawns => a.spawns@ == b.spawns@ && a.controller == b.controller,
        Wanted::Sources => a.sources@ == b.sources@,
    }
}

/// Upgrading the controller, where the room has one.
pub open spec fn upgrade_choice(controller: Option<u128>) -> Option<Task> {
    match controller {
        Some(id) => Some(Task::Upgrade(id)),
        None => None,
    }
}

/// Whether the facility at `i` has room and none before it has.
pub open spec fn opens_at(spawns: Seq<SpawnView>, i: int) -> bool {
    &&& 0 <= i < spawns.len()
    &&& spawns[i].free > 0
    &&& forall|j: int| 0 <= j < i ==> (#[trigger] spawns[j]).free <= 0
}

/// The first facility of the list that has room, if any has.
pub open spec fn first_open(spawns: Seq<SpawnView>) -> Option<SpawnView> {
    if exists|i: int| opens_at(spawns, i) {
        Some(spawns[choose|i: int| opens_at(spawns, i)])
    } else {
        None
    }
}

/// The facility at `i` is the first with room exactly if it has room and
/// none before it has.
pub proof fn lemma_first_open(spawns: Seq<SpawnView>, i: int)
    requires
        opens_at(spawns, i),
    ensures
        first_open(spawns) == Some(spawns[i]),
{
    let c = choose|c: int| opens_at(spawns, c);
    assert(opens_at(spawns, c));
    if c < i {
        assert(spawns[c].free <= 0);
    } else if i < c {
        assert(spawns[i].free <= 0);
    }
}

/// Where no facility has room, none is the first with room.
pub proof fn lemma_none_open(spawns: Seq<SpawnView>)
    requires
        forall|j: int| 0 <= j < spawns.len() ==> (#[trigger] spawns[j]).free <= 0,
    ensures
        first_open(spawns).is_none(),
{
    assert forall|c: int| !opens_at(spawns, c) by {
        if 0 <= c < spawns.len() {
            assert(spawns[c].free <= 0);
        }
    }
}

/// The task chosen for a unit of `role` that carries `used`.
///
/// A unit that carries something spends it: a builder on the first
/// construction site, else on the controller; a worker on the first spawn
/// facility that has room, else on the controller. A unit that carries
/// nothing goes to the first active source. Among equal candidates the
/// earliest in the room's order wins. A first site without an identifier
/// yields nothing.
pub open spec fn choice(role: Role, used: u32, room: RoomScan) -> Option<Task> {
    if used > 0 {
        match role {
            Role::Builder => if room.sites@.len() > 0 {
                match room.sites@[0] {
                    Some(id) => Some(Task::Build(id)),
                    None => None,
                }
            } else {
                upgrade_choice(room.controller)
            },
            Role::Worker => match first_open(room.spawns@) {
                Some(spawn) => Some(Task::FillSpawn(spawn.id)),
                None => upgrade_choice(room.controller),
            },
        }
    } else if room.sources@.len() > 0 {
        Some(Task::Harvest(room.sources@[0]))
    } else {
        None
    }
}

fn upgrade_target(controller: Option<u128>) -> (task: Option<Task>)
    ensures
        task == upgrade_choice(controller),
{
    match controller {
        Some(id) => Some(Task::Upgrade(id)),
        None => None,
    }
}

/// Walks the list for the first facility that has room.
fn find_open(spawns: &Vec<SpawnView>) -> (found: Option<SpawnView>)
    ensures
        found == first_open(spawns@),
{
    let mut i: usize = 0;
    while i < spawns.len()
        invariant
            i <= spawns@.len(),
            forall|j: int| 0 <= j < i ==> (#[trigger] spawns@[j]).free <= 0,
        decreases spawns@.len() - i,
    {
        if spawns[i].free > 0 {
            proof {
                lemma_first_open(spawns@, i as int);
            }
            return Some(spawns[i]);
        }
        i += 1;
    }
    proof {
        lemma_none_open(spawns@);
    }
    None
}

/// Selects a task for a unit of `role` that carries `used`, or `None` where
/// the room offers nothing suitable.
pub fn select_task(role: Role, used: u32, room: &RoomScan) -> (task: Option<Task>)
    ensures
        task == choice(role, used, *room),
{
    if used > 0 {
        match role {
            Role::Builder => {
                if room.sites.len() > 0 {
                    match room.sites[0] {
                        Some(id) => Some(Task::Build(id)),
                        None => None,
                    }
                } else {
                    upgrade_target(room.controller)
                }
            },
            Role::Worker => {
                match find_open(&room.spawns) {
                    Some(spawn) => Some(Task::FillSpawn(spawn.id)),
                    None => upgrade_target(room.controller),
                }
            },
        }
    } else if room.sources.len() > 0 {
        Some(Task::Harvest(room.sources[0]))
    } else {
        None
    }
}

/// Says which list of a room scan the choice for such a unit will read, so
/// that a caller need not gather the others.
pub fn wanted_list(role: Role, used: u32) -> (wanted: Wanted)
    ensures
        wanted == wanted_by(role, used),
{
    if used == 0 {
        Wanted::Sources
    } else {
        match role {
            Role::Builder => Wanted::Sites,
            Role::Worker => Wanted::Spawns,
        }
    }
}

/// A choice is the same on any two scans that agree in the wanted list (and,
/// for a loaded unit, in the controller): the rest may be left empty.
pub proof fn lemma_choice_reads_wanted_only(role: Role, used: u32, a: RoomScan, b: RoomScan)
    requires
        same_where_wanted(wanted_by(role, used), a, b),
    ensures
        choice(role, used, a) == choice(role, used, b),
{
}

/// A task that was just chosen is one its unit can start on, as long as the
/// unit can carry anything at all.
pub proof fn lemma_choice_is_ready(role: Role, used: u32, free: i32, room: RoomScan)
    requires
        used > 0 || free > 0,
        choice(role, used, room).is_some(),
    ensures
        choice(role, used, room).unwrap().ready(used, free),
{
}

} // verus!
