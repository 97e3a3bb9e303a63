use creep_engine::driver::{creep_need, run_creep, settle_creep};
use creep_engine::executor::{
    advance, need_of, settle, Action, Command, Followup, Need, Observation, Outcome,
};
use creep_engine::place::{is_near, is_on_grid};
use creep_engine::registry::Registry;
use creep_engine::role::Role;
use creep_engine::selector::{wanted_list, RoomScan, SpawnView, Wanted};
use creep_engine::task::{Task, UnitRecord};

fn room() -> RoomScan {
    RoomScan {
        sites: vec![Some(4)],
        controller: Some(9),
        spawns: vec![SpawnView { id: 2, free: 100 }],
        sources: vec![77],
    }
}

fn bare_room() -> RoomScan {
    RoomScan { sites: vec![], controller: None, spawns: vec![], sources: vec![] }
}

fn place(room: u32, column: u32, row: u32) -> u32 {
    room << 16 | column << 8 | row
}

fn seen(used: u32, free: i32, live: bool, near: bool, room: RoomScan) -> Observation {
    let target = if !live {
        None
    } else if near {
        Some(place(0x8080, 11, 9))
    } else {
        Some(place(0x8080, 12, 10))
    };
    Observation { spawning: false, used, free, at: place(0x8080, 10, 10), target, room }
}

fn name(s: &str) -> String {
    String::from(s)
}

#[test]
fn upgrade_out_of_range_moves_and_keeps_the_task() {
    let mut registry = Registry::new();
    let unit = name("u1");
    registry.insert(&unit, UnitRecord { role: Role::Builder, task: Some(Task::Upgrade(9)) });
    let command = run_creep(&mut registry, &unit, &seen(10, 40, true, false, room()));
    assert_eq!(
        command,
        Command { announce: Some(Role::Builder), action: Action::Perform(Task::Upgrade(9)) }
    );
    let followup = settle_creep(&mut registry, &unit, Outcome::NotInRange);
    assert_eq!(followup, Followup::Approach(Task::Upgrade(9)));
    assert_eq!(
        registry.get(&unit),
        Some(UnitRecord { role: Role::Builder, task: Some(Task::Upgrade(9)) })
    );
}

#[test]
fn success_keeps_the_task() {
    let record = UnitRecord { role: Role::Worker, task: Some(Task::FillSpawn(2)) };
    assert_eq!(settle(record, Outcome::Success), (record, Followup::Keep));
}

#[test]
fn other_failure_drops_the_task() {
    let record = UnitRecord { role: Role::Worker, task: Some(Task::FillSpawn(2)) };
    assert_eq!(
        settle(record, Outcome::Failed),
        (UnitRecord { role: Role::Worker, task: None }, Followup::Dropped)
    );
    let record = UnitRecord { role: Role::Builder, task: Some(Task::Harvest(7)) };
    assert_eq!(
        settle(record, Outcome::Failed),
        (UnitRecord { role: Role::Builder, task: None }, Followup::Dropped)
    );
}

#[test]
fn out_of_range_asks_for_a_move_whatever_the_task() {
    for task in [Task::Upgrade(1), Task::Harvest(2), Task::Build(3), Task::FillSpawn(4)] {
        let record = UnitRecord { role: Role::Worker, task: Some(task) };
        assert_eq!(settle(record, Outcome::NotInRange), (record, Followup::Approach(task)));
    }
}

#[test]
fn settling_without_a_task_changes_nothing() {
    let record = UnitRecord { role: Role::Builder, task: None };
    assert_eq!(settle(record, Outcome::Failed), (record, Followup::Keep));
    assert_eq!(settle(record, Outcome::NotInRange), (record, Followup::Keep));
    assert_eq!(settle(record, Outcome::Success), (record, Followup::Keep));
}

#[test]
fn vanished_target_clears_the_task_without_action() {
    let record = UnitRecord { role: Role::Builder, task: Some(Task::Build(4)) };
    let (next, command) = advance(record, &seen(10, 0, false, false, room()));
    assert_eq!(next, UnitRecord { role: Role::Builder, task: None });
    assert_eq!(command, Command { announce: Some(Role::Builder), action: Action::Idle });
}

#[test]
fn harvest_far_from_the_source_moves_instead() {
    let record = UnitRecord { role: Role::Worker, task: Some(Task::Harvest(77)) };
    let (next, command) = advance(record, &seen(0, 50, true, false, room()));
    assert_eq!(next, record);
    assert_eq!(
        command,
        Command { announce: Some(Role::Worker), action: Action::Approach(Task::Harvest(77)) }
    );
}

#[test]
fn harvest_next_to_the_source_harvests() {
    let record = UnitRecord { role: Role::Worker, task: Some(Task::Harvest(77)) };
    let (next, command) = advance(record, &seen(20, 30, true, true, room()));
    assert_eq!(next, record);
    assert_eq!(
        command,
        Command { announce: Some(Role::Worker), action: Action::Perform(Task::Harvest(77)) }
    );
}

#[test]
fn spending_tasks_act_at_once_even_from_afar() {
    for task in [Task::Upgrade(9), Task::Build(4), Task::FillSpawn(2)] {
        let record = UnitRecord { role: Role::Builder, task: Some(task) };
        let (next, command) = advance(record, &seen(5, 0, true, false, room()));
        assert_eq!(next, record);
        assert_eq!(
            command,
            Command { announce: Some(Role::Builder), action: Action::Perform(task) }
        );
    }
}

#[test]
fn full_harvester_is_given_a_spending_task_in_the_same_tick() {
    let record = UnitRecord { role: Role::Worker, task: Some(Task::Harvest(77)) };
    let (next, command) = advance(record, &seen(50, 0, true, true, room()));
    assert_eq!(next, UnitRecord { role: Role::Worker, task: Some(Task::FillSpawn(2)) });
    assert_eq!(command, Command { announce: Some(Role::Worker), action: Action::Idle });
}

#[test]
fn emptied_builder_goes_harvesting_in_the_same_tick() {
    let record = UnitRecord { role: Role::Builder, task: Some(Task::Build(4)) };
    let (next, command) = advance(record, &seen(0, 50, true, true, room()));
    assert_eq!(next, UnitRecord { role: Role::Builder, task: Some(Task::Harvest(77)) });
    assert_eq!(command, Command { announce: Some(Role::Builder), action: Action::Idle });
}

#[test]
fn stalled_task_stays_where_nothing_else_is_found() {
    let record = UnitRecord { role: Role::Builder, task: Some(Task::Build(4)) };
    let (next, command) = advance(record, &seen(0, 50, true, true, bare_room()));
    assert_eq!(next, record);
    assert_eq!(command, Command { announce: None, action: Action::Idle });
}

#[test]
fn unit_without_any_capacity_is_sent_to_a_source_it_cannot_use() {
    let record = UnitRecord { role: Role::Worker, task: Some(Task::Upgrade(9)) };
    let (next, _) = advance(record, &seen(0, 0, true, true, room()));
    assert_eq!(next.task, Some(Task::Harvest(77)));
    assert!(!Task::Harvest(77).is_ready(0, 0));
}

#[test]
fn idle_unit_selects_and_announces() {
    let record = UnitRecord { role: Role::Builder, task: None };
    let (next, command) = advance(record, &seen(10, 40, false, false, room()));
    assert_eq!(next, UnitRecord { role: Role::Builder, task: Some(Task::Build(4)) });
    assert_eq!(command, Command { announce: Some(Role::Builder), action: Action::Idle });
}

#[test]
fn materialising_unit_is_skipped() {
    let record = UnitRecord { role: Role::Builder, task: Some(Task::Build(4)) };
    let obs = Observation { spawning: true, ..seen(10, 40, false, false, room()) };
    assert_eq!(advance(record, &obs), (record, Command { announce: None, action: Action::Idle }));

    let mut registry = Registry::new();
    let unit = name("fresh");
    let command = run_creep(&mut registry, &unit, &obs);
    assert_eq!(command, Command { announce: None, action: Action::Idle });
    assert_eq!(registry.get(&unit), None);
    assert_eq!(registry.len(), 0);
}

#[test]
fn need_follows_the_record() {
    let busy = UnitRecord { role: Role::Worker, task: Some(Task::Harvest(77)) };
    assert_eq!(need_of(busy, true, 0, 50), Need::Nothing);
    assert_eq!(need_of(busy, false, 0, 50), Need::Target(Task::Harvest(77)));
    assert_eq!(need_of(busy, false, 50, 0), Need::Room(Wanted::Spawns));
    let idle = UnitRecord { role: Role::Worker, task: None };
    assert_eq!(need_of(idle, false, 0, 50), Need::Room(Wanted::Sources));
    let idle = UnitRecord { role: Role::Builder, task: None };
    assert_eq!(need_of(idle, false, 1, 50), Need::Room(Wanted::Sites));
}

#[test]
fn wanted_list_follows_load_and_role() {
    assert_eq!(wanted_list(Role::Builder, 0), Wanted::Sources);
    assert_eq!(wanted_list(Role::Worker, 0), Wanted::Sources);
    assert_eq!(wanted_list(Role::Builder, 1), Wanted::Sites);
    assert_eq!(wanted_list(Role::Worker, 1), Wanted::Spawns);
}

#[test]
fn unknown_unit_needs_a_room_scan() {
    let registry = Registry::new();
    assert_eq!(creep_need(&registry, &name("nobody"), false, 10, 10), Need::Room(Wanted::Spawns));
    assert_eq!(creep_need(&registry, &name("nobody"), true, 10, 10), Need::Nothing);
}

#[test]
fn first_observation_files_a_worker() {
    let mut registry = Registry::new();
    let unit = name("w");
    let command = run_creep(&mut registry, &unit, &seen(0, 50, false, false, room()));
    assert_eq!(command, Command { announce: Some(Role::Worker), action: Action::Idle });
    assert_eq!(
        registry.get(&unit),
        Some(UnitRecord { role: Role::Worker, task: Some(Task::Harvest(77)) })
    );
    assert_eq!(creep_need(&registry, &unit, false, 0, 50), Need::Target(Task::Harvest(77)));
}

#[test]
fn first_observation_with_nothing_to_do_still_files_the_unit() {
    let mut registry = Registry::new();
    let unit = name("w");
    run_creep(&mut registry, &unit, &seen(0, 50, false, false, bare_room()));
    assert_eq!(registry.get(&unit), Some(UnitRecord { role: Role::Worker, task: None }));
    assert_eq!(registry.len(), 1);
}

#[test]
fn role_survives_many_ticks() {
    let mut registry = Registry::new();
    let builder = name("b");
    let worker = name("w");
    registry.insert(&builder, UnitRecord { role: Role::Builder, task: None });
    registry.insert(&worker, UnitRecord { role: Role::Worker, task: None });
    let outcomes = [Outcome::Success, Outcome::NotInRange, Outcome::Failed];
    for tick in 0..60u32 {
        let used = if tick % 3 == 0 { 0 } else { 25 };
        let obs = seen(used, 50 - used as i32, tick % 5 != 0, tick % 2 == 0, room());
        for unit in [&builder, &worker] {
            let command = run_creep(&mut registry, unit, &obs);
            if let Action::Perform(_) = command.action {
                settle_creep(&mut registry, unit, outcomes[(tick % 3) as usize]);
            }
        }
        assert_eq!(registry.get(&builder).unwrap().role, Role::Builder);
        assert_eq!(registry.get(&worker).unwrap().role, Role::Worker);
    }
}

#[test]
fn settling_an_unknown_unit_changes_nothing() {
    let mut registry = Registry::new();
    let followup = settle_creep(&mut registry, &name("ghost"), Outcome::Failed);
    assert_eq!(followup, Followup::Keep);
    assert_eq!(registry.len(), 0);
}

#[test]
fn failure_clears_only_the_unit_concerned() {
    let mut registry = Registry::new();
    let a = name("a");
    let b = name("b");
    registry.insert(&a, UnitRecord { role: Role::Builder, task: Some(Task::Build(4)) });
    registry.insert(&b, UnitRecord { role: Role::Worker, task: Some(Task::FillSpawn(2)) });
    assert_eq!(settle_creep(&mut registry, &a, Outcome::Failed), Followup::Dropped);
    assert_eq!(registry.get(&a), Some(UnitRecord { role: Role::Builder, task: None }));
    assert_eq!(
        registry.get(&b),
        Some(UnitRecord { role: Role::Worker, task: Some(Task::FillSpawn(2)) })
    );
}

#[test]
fn registry_keeps_one_record_per_name() {
    let mut registry = Registry::new();
    let a = name("a");
    assert_eq!(registry.get_or_create(&a), UnitRecord { role: Role::Worker, task: None });
    assert_eq!(registry.len(), 1);
    registry.insert(&a, UnitRecord { role: Role::Worker, task: Some(Task::Upgrade(9)) });
    assert_eq!(
        registry.get_or_create(&a),
        UnitRecord { role: Role::Worker, task: Some(Task::Upgrade(9)) }
    );
    registry.insert(&a, UnitRecord { role: Role::Builder, task: None });
    assert_eq!(registry.len(), 1);
    registry.insert(&name("b"), UnitRecord { role: Role::Worker, task: Some(Task::Harvest(1)) });
    assert_eq!(registry.len(), 2);
    assert_eq!(
        registry.get(&name("b")),
        Some(UnitRecord { role: Role::Worker, task: Some(Task::Harvest(1)) })
    );
    assert_eq!(registry.get(&a), Some(UnitRecord { role: Role::Builder, task: None }));
    assert_eq!(registry.get(&name("c")), None);
}

#[test]
fn nearness_is_one_step_within_a_room() {
    let here = place(0x8080, 10, 10);
    for (column, row) in [(9, 9), (9, 10), (9, 11), (10, 9), (10, 10), (10, 11), (11, 9), (11, 10), (11, 11)] {
        assert!(is_near(here, place(0x8080, column, row)));
    }
    for (column, row) in [(8, 10), (12, 10), (10, 8), (10, 12), (12, 12), (0, 0), (49, 49)] {
        assert!(!is_near(here, place(0x8080, column, row)));
    }
    assert!(!is_near(here, place(0x8081, 10, 10)));
    assert!(!is_near(here, place(0x7f80, 10, 10)));
    assert!(is_near(place(0, 0, 0), place(0, 1, 1)));
    assert!(is_near(place(0xffff, 49, 49), place(0xffff, 48, 49)));
    assert!(!is_near(place(3, 49, 10), place(4, 0, 10)));
}

#[test]
fn positions_off_the_grid_are_near_nothing() {
    assert!(is_on_grid(place(1, 0, 0)));
    assert!(is_on_grid(place(1, 49, 49)));
    assert!(!is_on_grid(place(1, 50, 0)));
    assert!(!is_on_grid(place(1, 0, 50)));
    assert!(!is_on_grid(place(1, 255, 255)));
    assert!(!is_near(place(1, 50, 10), place(1, 49, 10)));
    assert!(!is_near(place(1, 49, 10), place(1, 50, 10)));
    assert!(!is_near(place(1, 50, 50), place(1, 50, 50)));
}

#[test]
fn harvest_nearness_is_measured_from_the_unit() {
    let record = UnitRecord { role: Role::Worker, task: Some(Task::Harvest(77)) };
    let mut obs = seen(0, 50, true, true, room());
    obs.at = place(0x8080, 30, 30);
    let (_, command) = advance(record, &obs);
    assert_eq!(command.action, Action::Approach(Task::Harvest(77)));
    obs.target = Some(place(0x8080, 31, 31));
    let (_, command) = advance(record, &obs);
    assert_eq!(command.action, Action::Perform(Task::Harvest(77)));
    obs.target = Some(place(0x8081, 31, 31));
    let (_, command) = advance(record, &obs);
    assert_eq!(command.action, Action::Approach(Task::Harvest(77)));
}

#[test]
fn loaded_worker_is_sent_past_a_full_spawn() {
    let mut registry = Registry::new();
    let unit = name("w");
    let scan = RoomScan {
        sites: vec![],
        controller: Some(9),
        spawns: vec![SpawnView { id: 2, free: 0 }, SpawnView { id: 3, free: 100 }],
        sources: vec![],
    };
    let command = run_creep(&mut registry, &unit, &seen(50, 0, false, false, scan));
    assert_eq!(command, Command { announce: Some(Role::Worker), action: Action::Idle });
    assert_eq!(
        registry.get(&unit),
        Some(UnitRecord { role: Role::Worker, task: Some(Task::FillSpawn(3)) })
    );
}

#[test]
fn roles_outlast_a_whole_tick() {
    let mut registry = Registry::new();
    let builder = name("5-0");
    let worker = name("5-1");
    registry.insert(&builder, UnitRecord { role: Role::Builder, task: Some(Task::Build(4)) });
    registry.insert(&worker, UnitRecord { role: Role::Worker, task: None });
    for unit in [&builder, &worker] {
        let command = run_creep(&mut registry, unit, &seen(10, 40, true, false, room()));
        if let Action::Perform(_) = command.action {
            settle_creep(&mut registry, unit, Outcome::Failed);
        }
    }
    let order = creep_engine::spawn::plan_spawn(300, 6, 0).expect("300 covers the standard body");
    creep_engine::spawn::record_spawn(&mut registry, &order, 0, true);
    assert_eq!(registry.get(&builder).unwrap().role, Role::Builder);
    assert_eq!(registry.get(&worker).unwrap().role, Role::Worker);
    assert_eq!(registry.len(), 3);
}
