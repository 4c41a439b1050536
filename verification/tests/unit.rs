use battlecode_engine::constants::{HEAT_LOSS_PER_ROUND, ROCKET_BLAST_DAMAGE};
use battlecode_engine::error::GameError;
use battlecode_engine::location::MapLocation;
use battlecode_engine::unit::rocket::RocketInfo;
use battlecode_engine::unit::{Unit, UnitInfo, UnitType};
use battlecode_engine::world::Team;

fn last_tier(unit_type: UnitType) -> usize {
    match unit_type {
        UnitType::Worker => 4,
        UnitType::Knight => 2,
        UnitType::Ranger => 2,
        UnitType::Mage => 3,
        UnitType::Healer => 2,
        UnitType::Factory => 1,
        UnitType::Rocket => 2,
    }
}

fn nominal_health(unit_type: UnitType) -> u32 {
    match unit_type {
        UnitType::Worker => 100,
        UnitType::Knight => 250,
        UnitType::Ranger => 200,
        UnitType::Mage => 80,
        UnitType::Healer => 100,
        UnitType::Factory => 300,
        UnitType::Rocket => 200,
    }
}

#[test]
fn worker_constructor_and_research() {
    let unit_a = Unit::new(1, Team::Red, UnitType::Worker, 0).unwrap();
    assert_eq!(unit_a.id(), 1);
    assert_eq!(unit_a.team(), Team::Red);
    assert_eq!(unit_a.unit_type(), UnitType::Worker);

    let mut info = match unit_a.unit_info() {
        UnitInfo::Worker(worker_info) => *worker_info,
        _ => panic!("expected Worker"),
    };

    assert_eq!(info.level, 0);
    assert_eq!(info.harvest_amount, 3);
    assert_eq!(info.build_repair_health, 5);

    info.research().unwrap();
    assert_eq!(info.level, 1);
    assert_eq!(info.harvest_amount, 4);
    assert_eq!(info.build_repair_health, 5);

    info.research().unwrap();
    assert_eq!(info.level, 2);
    assert_eq!(info.harvest_amount, 4);
    assert_eq!(info.build_repair_health, 6);

    let unit_b = Unit::new(2, Team::Red, UnitType::Worker, 2).unwrap();
    let info = match unit_b.unit_info() {
        UnitInfo::Worker(worker_info) => *worker_info,
        _ => panic!("expected Worker"),
    };

    assert_eq!(info.level, 2);
    assert_eq!(info.harvest_amount, 4);
    assert_eq!(info.build_repair_health, 6);
}

#[test]
fn all_lists_the_seven_types_in_order() {
    assert_eq!(
        UnitType::all(),
        vec![
            UnitType::Worker,
            UnitType::Knight,
            UnitType::Ranger,
            UnitType::Mage,
            UnitType::Healer,
            UnitType::Factory,
            UnitType::Rocket,
        ]
    );
}

#[test]
fn default_is_the_record_before_research() {
    for unit_type in UnitType::all() {
        let info = unit_type.default();
        assert_eq!(info.unit_type(), unit_type);
        assert_eq!(info.max_health(), nominal_health(unit_type));
        assert!(info.is_wf());
        let unit = Unit::new(9, Team::Blue, unit_type, 0).unwrap();
        assert_eq!(unit.unit_info(), &info);
    }
}

#[test]
fn new_unit_starts_off_the_map_and_cold() {
    let unit = Unit::new(7, Team::Blue, UnitType::Mage, 1).unwrap();
    assert_eq!(unit.id(), 7);
    assert_eq!(unit.team(), Team::Blue);
    assert_eq!(unit.unit_type(), UnitType::Mage);
    assert_eq!(unit.location(), None);
    assert_eq!(unit.health(), 80);
    assert_eq!(unit.movement_heat(), 0);
    assert_eq!(unit.attack_heat(), 0);
}

#[test]
fn new_rejects_a_level_beyond_the_last_tier() {
    for unit_type in UnitType::all() {
        let last = last_tier(unit_type);
        assert!(Unit::new(1, Team::Red, unit_type, last).is_ok());
        assert_eq!(
            Unit::new(1, Team::Red, unit_type, last + 1),
            Err(GameError::ResearchLimitExceeded)
        );
        assert_eq!(
            Unit::new(1, Team::Red, unit_type, usize::MAX),
            Err(GameError::ResearchLimitExceeded)
        );
    }
}

#[test]
fn the_worker_ceiling_is_above_the_factory_ceiling() {
    assert!(Unit::new(1, Team::Red, UnitType::Worker, 4).is_ok());
    assert!(Unit::new(1, Team::Red, UnitType::Worker, 5).is_err());
    assert!(Unit::new(1, Team::Red, UnitType::Factory, 1).is_ok());
    assert!(Unit::new(1, Team::Red, UnitType::Factory, 2).is_err());
}

#[test]
fn research_at_the_last_tier_fails_and_changes_nothing() {
    for unit_type in UnitType::all() {
        let mut unit = Unit::new(3, Team::Red, unit_type, last_tier(unit_type)).unwrap();
        let before = unit.clone();
        assert_eq!(unit.research(), Err(GameError::ResearchLimitExceeded));
        assert_eq!(unit, before);
    }
}

#[test]
fn research_replay_gives_the_unit_built_at_the_level() {
    for unit_type in UnitType::all() {
        for level in 0..=last_tier(unit_type) {
            let direct = Unit::new(5, Team::Blue, unit_type, level).unwrap();
            let mut replayed = Unit::new(5, Team::Blue, unit_type, 0).unwrap();
            for _ in 0..level {
                assert_eq!(replayed.research(), Ok(()));
            }
            assert_eq!(replayed, direct);
            assert_eq!(replayed.unit_info(), direct.unit_info());
        }
    }
}

fn stats(info: &UnitInfo) -> Vec<u64> {
    match info {
        UnitInfo::Worker(i) => vec![
            i.level as u64,
            i.max_health as u64,
            i.harvest_amount as u64,
            i.build_repair_health as u64,
        ],
        UnitInfo::Knight(i) => vec![
            i.level as u64,
            i.max_health as u64,
            i.damage as u64,
            i.attack_range as u64,
            i.defense as u64,
        ],
        UnitInfo::Ranger(i) => vec![
            i.level as u64,
            i.max_health as u64,
            i.damage as u64,
            i.attack_range as u64,
            i.vision_range as u64,
        ],
        UnitInfo::Mage(i) => vec![
            i.level as u64,
            i.max_health as u64,
            i.damage as u64,
            i.attack_range as u64,
        ],
        UnitInfo::Healer(i) => vec![
            i.level as u64,
            i.max_health as u64,
            i.heal_amount as u64,
            i.heal_range as u64,
        ],
        UnitInfo::Factory(i) => vec![i.level as u64, i.max_health as u64, i.build_speed as u64],
        UnitInfo::Rocket(i) => vec![
            i.level as u64,
            i.max_health as u64,
            i.max_capacity as u64,
            i.travel_time_reduction as u64,
        ],
    }
}

#[test]
fn research_never_lowers_a_stat() {
    for unit_type in UnitType::all() {
        let mut info = unit_type.default();
        for _ in 0..last_tier(unit_type) {
            let before = stats(&info);
            assert_eq!(info.research(), Ok(()));
            let after = stats(&info);
            assert_eq!(before.len(), after.len());
            for (old, new) in before.iter().zip(after.iter()) {
                assert!(new >= old);
            }
            assert_eq!(after[0], before[0] + 1);
            assert!(info.is_wf());
        }
        assert_eq!(info.research(), Err(GameError::ResearchLimitExceeded));
    }
}

#[test]
fn stat_tables_have_their_exact_values() {
    let at = |unit_type: UnitType, level: usize| -> Vec<u64> {
        stats(Unit::new(1, Team::Red, unit_type, level).unwrap().unit_info())
    };
    assert_eq!(at(UnitType::Worker, 0), vec![0, 100, 3, 5]);
    assert_eq!(at(UnitType::Worker, 1), vec![1, 100, 4, 5]);
    assert_eq!(at(UnitType::Worker, 2), vec![2, 100, 4, 6]);
    assert_eq!(at(UnitType::Worker, 3), vec![3, 100, 4, 7]);
    assert_eq!(at(UnitType::Worker, 4), vec![4, 100, 4, 10]);
    assert_eq!(at(UnitType::Knight, 0), vec![0, 250, 80, 2, 5]);
    assert_eq!(at(UnitType::Knight, 1), vec![1, 250, 80, 2, 10]);
    assert_eq!(at(UnitType::Knight, 2), vec![2, 250, 80, 2, 15]);
    assert_eq!(at(UnitType::Ranger, 0), vec![0, 200, 30, 50, 70]);
    assert_eq!(at(UnitType::Ranger, 1), vec![1, 200, 30, 60, 70]);
    assert_eq!(at(UnitType::Ranger, 2), vec![2, 200, 30, 60, 100]);
    assert_eq!(at(UnitType::Mage, 0), vec![0, 80, 60, 30]);
    assert_eq!(at(UnitType::Mage, 1), vec![1, 80, 75, 30]);
    assert_eq!(at(UnitType::Mage, 2), vec![2, 80, 90, 30]);
    assert_eq!(at(UnitType::Mage, 3), vec![3, 80, 105, 30]);
    assert_eq!(at(UnitType::Healer, 0), vec![0, 100, 10, 30]);
    assert_eq!(at(UnitType::Healer, 1), vec![1, 100, 12, 30]);
    assert_eq!(at(UnitType::Healer, 2), vec![2, 100, 17, 30]);
    assert_eq!(at(UnitType::Factory, 0), vec![0, 300, 1]);
    assert_eq!(at(UnitType::Factory, 1), vec![1, 300, 2]);
    assert_eq!(at(UnitType::Rocket, 0), vec![0, 200, 8, 0]);
    assert_eq!(at(UnitType::Rocket, 1), vec![1, 200, 8, 20]);
    assert_eq!(at(UnitType::Rocket, 2), vec![2, 200, 12, 20]);
}

#[test]
fn structures_spawn_at_a_quarter_of_their_health() {
    for unit_type in UnitType::all() {
        for level in 0..=last_tier(unit_type) {
            let unit = Unit::new(1, Team::Red, unit_type, level).unwrap();
            let max_health = unit.unit_info().max_health();
            match unit_type {
                UnitType::Factory | UnitType::Rocket => {
                    assert_eq!(unit.health() * 4, max_health)
                }
                _ => assert_eq!(unit.health(), max_health),
            }
        }
    }
    assert_eq!(Unit::new(1, Team::Red, UnitType::Factory, 0).unwrap().health(), 75);
    assert_eq!(Unit::new(1, Team::Red, UnitType::Rocket, 2).unwrap().health(), 50);
    assert_eq!(Unit::new(1, Team::Red, UnitType::Knight, 1).unwrap().health(), 250);
}

#[test]
fn the_type_of_a_unit_is_the_kind_of_its_record_all_its_life() {
    for unit_type in UnitType::all() {
        let mut unit = Unit::new(4, Team::Red, unit_type, 0).unwrap();
        assert_eq!(unit.unit_type(), unit_type);
        assert_eq!(unit.unit_info().unit_type(), unit_type);
        unit.move_to(Some(MapLocation { x: 3, y: -4 }));
        unit.take_damage(10);
        unit.next_round();
        let _ = unit.research();
        let _ = unit.research();
        unit.take_damage(u32::MAX);
        assert_eq!(unit.unit_type(), unit_type);
        assert_eq!(unit.unit_info().unit_type(), unit_type);
        assert!(unit.unit_info().is_wf());
        assert!(unit.health() <= unit.unit_info().max_health());
    }
}

#[test]
fn damage_saturates_at_zero() {
    let mut unit = Unit::new(1, Team::Red, UnitType::Knight, 0).unwrap();
    assert_eq!(unit.health(), 250);
    assert!(!unit.take_damage(0));
    assert_eq!(unit.health(), 250);
    assert!(!unit.take_damage(100));
    assert_eq!(unit.health(), 150);
    assert!(!unit.take_damage(149));
    assert_eq!(unit.health(), 1);
    assert!(unit.take_damage(ROCKET_BLAST_DAMAGE));
    assert_eq!(unit.health(), 0);
    assert!(unit.take_damage(0));
    assert!(unit.take_damage(u32::MAX));
    assert_eq!(unit.health(), 0);
}

#[test]
fn damage_equal_to_health_kills() {
    let mut unit = Unit::new(1, Team::Red, UnitType::Mage, 0).unwrap();
    assert!(unit.take_damage(80));
    assert_eq!(unit.health(), 0);
}

#[test]
fn damage_changes_health_only() {
    let mut unit = Unit::new(1, Team::Red, UnitType::Ranger, 1).unwrap();
    unit.move_to(Some(MapLocation { x: 1, y: 2 }));
    let before = unit.clone();
    unit.take_damage(30);
    assert_eq!(unit.id(), before.id());
    assert_eq!(unit.team(), before.team());
    assert_eq!(unit.unit_type(), before.unit_type());
    assert_eq!(unit.location(), before.location());
    assert_eq!(unit.movement_heat(), before.movement_heat());
    assert_eq!(unit.attack_heat(), before.attack_heat());
    assert_eq!(unit.unit_info(), before.unit_info());
    assert_eq!(unit.health(), 170);
}

fn heated(movement_heat: u32, attack_heat: u32) -> Unit {
    Unit::restore(
        11,
        Team::Blue,
        UnitType::Knight,
        Some(MapLocation { x: 0, y: 0 }),
        200,
        movement_heat,
        attack_heat,
        UnitType::Knight.default(),
    )
    .unwrap()
}

#[test]
fn heat_falls_by_ten_a_round_and_not_below_zero() {
    assert_eq!(HEAT_LOSS_PER_ROUND, 10);
    let mut unit = heated(25, 9);
    unit.next_round();
    assert_eq!(unit.movement_heat(), 15);
    assert_eq!(unit.attack_heat(), 0);
    unit.next_round();
    assert_eq!(unit.movement_heat(), 5);
    assert_eq!(unit.attack_heat(), 0);
    unit.next_round();
    assert_eq!(unit.movement_heat(), 0);
    assert_eq!(unit.attack_heat(), 0);

    let mut unit = heated(10, 11);
    unit.next_round();
    assert_eq!(unit.movement_heat(), 0);
    assert_eq!(unit.attack_heat(), 1);

    let mut unit = heated(u32::MAX, 0);
    unit.next_round();
    assert_eq!(unit.movement_heat(), u32::MAX - 10);
    assert_eq!(unit.attack_heat(), 0);
}

#[test]
fn a_round_changes_the_heats_only() {
    let mut unit = heated(40, 30);
    unit.next_round();
    assert_eq!(unit.id(), 11);
    assert_eq!(unit.team(), Team::Blue);
    assert_eq!(unit.unit_type(), UnitType::Knight);
    assert_eq!(unit.location(), Some(MapLocation { x: 0, y: 0 }));
    assert_eq!(unit.health(), 200);
    assert_eq!(unit.unit_info(), &UnitType::Knight.default());
}

#[test]
fn move_to_sets_the_location_without_any_check() {
    let mut unit = Unit::new(1, Team::Red, UnitType::Factory, 0).unwrap();
    assert_eq!(unit.location(), None);
    unit.move_to(Some(MapLocation { x: 20000, y: -20000 }));
    assert_eq!(unit.location(), Some(MapLocation { x: 20000, y: -20000 }));
    unit.move_to(None);
    assert_eq!(unit.location(), None);
    assert_eq!(unit.health(), 75);
}

#[test]
fn only_knights_are_move_ready() {
    for unit_type in UnitType::all() {
        let unit = Unit::new(1, Team::Red, unit_type, 0).unwrap();
        assert_eq!(unit.is_move_ready(), unit_type == UnitType::Knight);
    }
}

#[test]
fn only_rockets_have_a_garrison() {
    for unit_type in UnitType::all() {
        let unit = Unit::new(1, Team::Red, unit_type, 0).unwrap();
        match unit_type {
            UnitType::Rocket => assert_eq!(unit.garrisoned_units(), Some(vec![])),
            _ => assert_eq!(unit.garrisoned_units(), None),
        }
    }
}

fn loaded_rocket(passengers: Vec<Unit>) -> Option<Unit> {
    Unit::restore(
        20,
        Team::Red,
        UnitType::Rocket,
        None,
        200,
        0,
        0,
        UnitInfo::Rocket(RocketInfo {
            level: 0,
            max_health: 200,
            max_capacity: 8,
            travel_time_reduction: 0,
            garrison: passengers,
        }),
    )
}

#[test]
fn garrisoned_units_are_a_snapshot_of_the_passengers() {
    let worker = Unit::new(21, Team::Red, UnitType::Worker, 1).unwrap();
    let mut knight = Unit::new(22, Team::Red, UnitType::Knight, 2).unwrap();
    knight.take_damage(17);
    let mut rocket = loaded_rocket(vec![worker.clone(), knight.clone()]).unwrap();

    let snapshot = rocket.garrisoned_units().unwrap();
    assert_eq!(snapshot, vec![worker.clone(), knight.clone()]);
    assert_eq!(snapshot[1].health(), 233);

    assert_eq!(rocket.research(), Ok(()));
    assert_eq!(rocket.research(), Ok(()));
    rocket.take_damage(500);
    assert_eq!(snapshot, vec![worker.clone(), knight.clone()]);
    assert_eq!(rocket.garrisoned_units(), Some(vec![worker, knight]));
    match rocket.unit_info() {
        UnitInfo::Rocket(info) => {
            assert_eq!(info.level, 2);
            assert_eq!(info.max_capacity, 12);
            assert_eq!(info.travel_time_reduction, 20);
            assert_eq!(info.garrison.len(), 2);
        }
        _ => panic!("expected Rocket"),
    }
}

#[test]
fn a_copy_of_a_rocket_holds_copies_of_its_passengers() {
    let mage = Unit::new(31, Team::Red, UnitType::Mage, 3).unwrap();
    let inner = loaded_rocket(vec![mage.clone()]).unwrap();
    let mut passenger_rocket = inner.clone();
    passenger_rocket.move_to(None);
    let outer = loaded_rocket(vec![passenger_rocket.clone()]).unwrap();
    let copy = outer.clone();
    assert_eq!(copy, outer);
    let held = copy.garrisoned_units().unwrap();
    assert_eq!(held.len(), 1);
    assert_eq!(held[0].garrisoned_units(), Some(vec![mage]));
}

#[test]
fn restore_rebuilds_a_unit_from_its_parts() {
    let mut unit = Unit::new(40, Team::Blue, UnitType::Healer, 2).unwrap();
    unit.move_to(Some(MapLocation { x: -7, y: 12 }));
    unit.take_damage(60);
    let restored = Unit::restore(
        unit.id(),
        unit.team(),
        unit.unit_type(),
        unit.location(),
        unit.health(),
        unit.movement_heat(),
        unit.attack_heat(),
        unit.unit_info().clone(),
    );
    assert_eq!(restored, Some(unit));
}

#[test]
fn restore_refuses_parts_that_make_no_unit() {
    let worker = UnitType::Worker;
    // The type is not the kind of the record.
    assert_eq!(
        Unit::restore(1, Team::Red, UnitType::Knight, None, 10, 0, 0, worker.default()),
        None
    );
    // More health than the record allows.
    assert_eq!(Unit::restore(1, Team::Red, worker, None, 101, 0, 0, worker.default()), None);
    assert!(Unit::restore(1, Team::Red, worker, None, 100, 0, 0, worker.default()).is_some());
    assert!(Unit::restore(1, Team::Red, worker, None, 0, 0, 0, worker.default()).is_some());
    // A stat that is not the one of the tier.
    let mut info = match worker.default() {
        UnitInfo::Worker(info) => info,
        _ => panic!("expected Worker"),
    };
    info.harvest_amount = 4;
    assert!(!info.is_wf());
    assert_eq!(Unit::restore(1, Team::Red, worker, None, 10, 0, 0, UnitInfo::Worker(info)), None);
    // A tier that the kind does not have.
    info.harvest_amount = 4;
    info.build_repair_health = 10;
    info.level = 5;
    assert_eq!(Unit::restore(1, Team::Red, worker, None, 10, 0, 0, UnitInfo::Worker(info)), None);
    info.level = 4;
    assert!(Unit::restore(1, Team::Red, worker, None, 10, 0, 0, UnitInfo::Worker(info)).is_some());
}

#[test]
fn restore_refuses_an_ill_formed_garrison() {
    // A passenger that is on the map.
    let mut on_map = Unit::new(1, Team::Red, UnitType::Worker, 0).unwrap();
    on_map.move_to(Some(MapLocation { x: 1, y: 1 }));
    assert_eq!(loaded_rocket(vec![on_map]), None);
    // More passengers than the rocket can hold.
    let mut crowd = Vec::new();
    for id in 0..9 {
        crowd.push(Unit::new(id, Team::Red, UnitType::Knight, 0).unwrap());
    }
    assert_eq!(loaded_rocket(crowd.clone()), None);
    crowd.pop();
    assert_eq!(loaded_rocket(crowd.clone()).unwrap().garrisoned_units(), Some(crowd));
}

#[test]
fn research_on_a_record_recomputes_every_stat_from_the_new_tier() {
    let mut info = match UnitType::Mage.default() {
        UnitInfo::Mage(info) => info,
        _ => panic!("expected Mage"),
    };
    info.damage = 1;
    info.max_health = 7;
    assert_eq!(info.research(), Ok(()));
    assert_eq!(info.level, 1);
    assert_eq!(info.max_health, 80);
    assert_eq!(info.damage, 75);
    assert_eq!(info.attack_range, 30);
}
