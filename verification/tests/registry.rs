use spacetrade::entity::{Entity, EntityClass};
use spacetrade::entity_list::{EntityList, LoadError, Snapshot};
use spacetrade::entity_maker::{station, station_from};
use spacetrade::gm::GM;
use spacetrade::item_meta::base_val_of;
use spacetrade::item_name::{item_names, ItemName};
use spacetrade::jump_drive::JumpDrive;
use spacetrade::pos::Position;
use spacetrade::univ::{Univ, GAL_SIZE, STARTING_ENTITIES};

fn entity_at(name: &str, x: i32, y: i32) -> Entity {
    let mut e = Entity::new(name);
    e.set_pos(Position::new(x, y));
    e
}

fn dock_at(name: &str, x: i32, y: i32) -> Entity {
    let mut e = entity_at(name, x, y);
    e.class = EntityClass::Station;
    e.flags.has_dock = true;
    e
}

fn names_of(list: &[&Entity]) -> Vec<String> {
    list.iter().map(|e| e.name.clone()).collect()
}

fn small_universe() -> EntityList {
    let mut list = EntityList::new();
    list.add(entity_at("player", 5000, 5000));
    list.add(dock_at("near", 5000, 5001));
    list.add(dock_at("far", 5000, 5060));
    list.add(entity_at("drifter", 5000, 5000));
    list.add(dock_at("here", 5000, 5000));
    list
}

#[test]
fn new_registry_is_empty() {
    let list = EntityList::new();
    assert_eq!(list.len(), 0);
    assert_eq!(list.id_acc(), 0);
    assert!(list.get(0).is_none());
    assert!(list.get_player().is_none());
    assert!(list.get_by_id(0).is_none());
    assert!(list.list().is_empty());
    assert!(list.list_by_distance(Position::new(0, 0), i32::MAX).is_empty());
}

#[test]
fn added_entities_get_growing_ids() {
    let mut list = EntityList::new();
    let mut given = Vec::new();
    for i in 0..20 {
        let mut e = entity_at("e", i, i);
        e.id = 1000 - i;
        given.push(list.add(e));
    }
    assert_eq!(given, (0..20).collect::<Vec<i32>>());
    assert_eq!(list.len(), 20);
    assert_eq!(list.id_acc(), 20);
    for (place, e) in list.list().iter().enumerate() {
        assert_eq!(e.id, place as i32);
        assert_eq!(e.pos, Position::new(place as i32, place as i32));
    }
    for a in 0..20 {
        for b in (a + 1)..20 {
            assert!(given[a] < given[b]);
        }
    }
}

#[test]
fn entities_are_found_by_place_and_by_id() {
    let list = small_universe();
    assert_eq!(list.get(0).unwrap().name, "player");
    assert_eq!(list.get(4).unwrap().name, "here");
    assert!(list.get(5).is_none());
    assert!(list.get(-1).is_none());
    assert!(list.get(i32::MIN).is_none());
    assert_eq!(list.get_by_id(2).unwrap().name, "far");
    assert!(list.get_by_id(5).is_none());
    assert!(list.get_by_id(-1).is_none());
    assert_eq!(list.get_player().unwrap().name, "player");
    assert_eq!(list.get_player().unwrap().id, 0);
}

#[test]
fn entities_are_changed_in_place() {
    let mut list = small_universe();
    list.get_mut(1).unwrap().fin.credits = 5;
    assert_eq!(list.get(1).unwrap().fin.credits, 5);
    assert!(list.get_mut(5).is_none());
    list.get_by_id_mut(3).unwrap().name = "wanderer".to_string();
    assert_eq!(list.get(3).unwrap().name, "wanderer");
    assert!(list.get_by_id_mut(9).is_none());
    list.get_player_mut().unwrap().targeting_id = Some(4);
    assert_eq!(list.get_player().unwrap().targeting_id, Some(4));
    assert_eq!(list.len(), 5);
    assert_eq!(list.id_acc(), 5);
    let mut empty = EntityList::new();
    assert!(empty.get_player_mut().is_none());
}

#[test]
fn set_player_replaces_the_first_entity() {
    let mut list = small_universe();
    list.set_player(entity_at("second ship", 7, 8));
    assert_eq!(list.get_player().unwrap().name, "second ship");
    assert_eq!(list.get_player().unwrap().pos, Position::new(7, 8));
    assert_eq!(list.get(1).unwrap().name, "near");
    assert_eq!(list.len(), 5);
    let mut empty = EntityList::new();
    empty.set_player(entity_at("nobody", 0, 0));
    assert_eq!(empty.len(), 0);
}

#[test]
fn listing_by_distance_is_sorted_and_complete() {
    let list = small_universe();
    let origin = Position::new(5000, 5000);
    let all = list.list_by_distance(origin, 100);
    assert_eq!(names_of(&all), ["player", "drifter", "here", "near", "far"]);
    let close = list.list_by_distance(origin, 1);
    assert_eq!(names_of(&close), ["player", "drifter", "here", "near"]);
    let here = list.list_by_distance(origin, 0);
    assert_eq!(names_of(&here), ["player", "drifter", "here"]);
    let edge = list.list_by_distance(origin, 59);
    assert_eq!(edge.len(), 4);
    let edge = list.list_by_distance(origin, 60);
    assert_eq!(edge.len(), 5);
    assert!(list.list_by_distance(origin, -1).is_empty());
    let from_far = list.list_by_distance(Position::new(5000, 5060), 59);
    assert_eq!(names_of(&from_far), ["far", "near"]);
}

#[test]
fn listing_by_distance_keeps_equally_near_in_order_of_addition() {
    let mut list = EntityList::new();
    let spots = [(3, 4), (10, 0), (0, 5), (-5, 0), (1, 1), (4, -3), (0, 0), (1, 0), (0, -1)];
    for (i, (x, y)) in spots.iter().enumerate() {
        list.add(entity_at(&format!("e{}", i), *x, *y));
    }
    let near = list.list_by_distance(Position::new(0, 0), 5);
    assert_eq!(names_of(&near), ["e6", "e4", "e7", "e8", "e0", "e2", "e3", "e5"]);
    let mut last = 0;
    for e in &near {
        let d = Position::new(0, 0).distance(&e.pos);
        assert!(d <= 5);
        assert!(last <= d);
        last = d;
    }
    for e in list.list() {
        let within = Position::new(0, 0).distance(&e.pos) <= 5;
        assert_eq!(within, near.iter().any(|n| n.id == e.id));
    }
}

#[test]
fn dock_list_names_the_docks_in_reach() {
    let gm = GM::new();
    let list = small_universe();
    let res = gm.dock_list(list.get_player().unwrap(), &list);
    let names: Vec<String> = res.entities.iter().map(|e| e.name.clone()).collect();
    assert_eq!(names, ["here", "near"]);
    assert_eq!(res.entities[0].id, 4);
    assert_eq!(res.entities[1].id, 1);
    let elsewhere = entity_at("elsewhere", 0, 0);
    assert!(gm.dock_list(&elsewhere, &list).entities.is_empty());
}

#[test]
fn scenario_dock_to_craft_without_dock_fails() {
    let gm = GM::new();
    let mut list = small_universe();
    let res = gm.dock(&mut list, 3);
    assert!(!res.success);
    assert_eq!(res.message, "Entity ID 3 does not have docking capabilities.");
    let player = list.get_player().unwrap();
    assert_eq!(player.docked_id, None);
    assert_eq!(player.fin.credits, 10000);
    assert_eq!(player.pos, Position::new(5000, 5000));
}

#[test]
fn dock_within_reach_succeeds() {
    let gm = GM::new();
    let mut list = small_universe();
    let res = gm.dock(&mut list, 4);
    assert!(res.success);
    assert_eq!(res.message, "Docked with here.");
    assert_eq!(list.get_player().unwrap().docked_id, Some(4));
    let res = gm.dock(&mut list, 1);
    assert!(res.success);
    assert_eq!(res.message, "Docked with near.");
    assert_eq!(list.get_player().unwrap().docked_id, Some(1));
    assert_eq!(list.get(1).unwrap().docked_id, None);
    assert_eq!(list.len(), 5);
    assert_eq!(list.id_acc(), 5);
}

#[test]
fn dock_out_of_reach_fails() {
    let gm = GM::new();
    let mut list = small_universe();
    let res = gm.dock(&mut list, 2);
    assert!(!res.success);
    assert_eq!(res.message, "Docking failed: not close enough to far.");
    assert_eq!(list.get_player().unwrap().docked_id, None);
}

#[test]
fn dock_to_unknown_id_fails() {
    let gm = GM::new();
    let mut list = small_universe();
    let res = gm.dock(&mut list, 17);
    assert!(!res.success);
    assert_eq!(res.message, "No entity found with ID 17.");
    let res = gm.dock(&mut list, -2);
    assert_eq!(res.message, "No entity found with ID -2.");
    assert_eq!(list.get_player().unwrap().docked_id, None);
    let mut empty = EntityList::new();
    assert!(!gm.dock(&mut empty, 0).success);
}

#[test]
fn docked_player_of_the_registry_does_not_jump() {
    let mut gm = GM::new();
    let mut list = small_universe();
    assert!(gm.dock(&mut list, 4).success);
    let player = list.get_player_mut().unwrap();
    let res = gm.jump(player, &Position::new(5000, 5010));
    assert!(!res.success);
    assert_eq!(res.message, "Cannot jump while docked.");
    assert!(gm.undock(list.get_player_mut().unwrap()).success);
    let res = gm.jump(list.get_player_mut().unwrap(), &Position::new(5000, 5010));
    assert!(res.success);
    assert_eq!(list.get_player().unwrap().pos, Position::new(5000, 5010));
}

fn same_entity(a: &Entity, b: &Entity) {
    assert_eq!(a.name, b.name);
    assert_eq!(a.id, b.id);
    assert_eq!(a.class, b.class);
    assert_eq!(a.pos, b.pos);
    assert_eq!(a.fin.credits, b.fin.credits);
    assert_eq!(a.fin.profit_margin, b.fin.profit_margin);
    assert_eq!(a.fin.prices.items(), b.fin.prices.items());
    assert_eq!(a.hold.vol_max, b.hold.vol_max);
    assert_eq!(a.hold.vol, b.hold.vol);
    assert_eq!(a.hold.inv.items(), b.hold.inv.items());
    assert_eq!(a.jump_drive, b.jump_drive);
    assert_eq!(a.flags.has_dock, b.flags.has_dock);
    assert_eq!(a.docked_id, b.docked_id);
    assert_eq!(a.targeting_id, b.targeting_id);
}

#[test]
fn saved_registry_loads_again() {
    let mut gm = GM::new();
    let mut list = small_universe();
    list.get_player_mut().unwrap().hold.insert(ItemName::MetalLow, 20);
    list.get_player_mut().unwrap().fin.credits = 123;
    gm.jump(list.get_player_mut().unwrap(), &Position::new(5000, 5001));
    gm.dock(&mut list, 1);
    gm.set_target(list.get_player_mut().unwrap(), 2);
    let saved = gm.save(&list, "savegame.json");
    assert!(saved.success);
    assert_eq!(saved.message, "Saved to savegame.json");
    assert_eq!(saved.snapshot.id_acc, 5);
    assert_eq!(saved.snapshot.entities.len(), 5);
    let mut loaded = EntityList::new();
    loaded.add(entity_at("someone else", 1, 1));
    let res = gm.load(&mut loaded, saved.snapshot);
    assert!(res.success);
    assert_eq!(res.message, "loaded");
    assert_eq!(loaded.len(), list.len());
    assert_eq!(loaded.id_acc(), list.id_acc());
    for (a, b) in list.list().iter().zip(loaded.list().iter()) {
        same_entity(a, b);
    }
    let player = loaded.get_player().unwrap();
    assert_eq!(player.jump_drive.fuel_cur, 7990);
    assert_eq!(player.docked_id, Some(1));
    assert_eq!(player.targeting_id, Some(2));
    assert_eq!(player.hold.vol, 200);
    assert_eq!(loaded.add(entity_at("late", 0, 0)), 5);
}

#[test]
fn snapshot_with_ids_out_of_order_is_refused() {
    let gm = GM::new();
    let mut twice = small_universe().snapshot();
    twice.entities[3].id = 2;
    let mut list = small_universe();
    let res = gm.load(&mut list, twice);
    assert!(!res.success);
    assert_eq!(res.message, "Load failed: entity ids are not unique and increasing.");
    assert_eq!(list.len(), 5);
    assert_eq!(list.get(3).unwrap().id, 3);

    let mut low_counter = small_universe().snapshot();
    low_counter.id_acc = 4;
    assert_eq!(EntityList::restore(low_counter).unwrap_err(), LoadError::BadIds);
    let negative = Snapshot { id_acc: -1, entities: Vec::new() };
    assert_eq!(EntityList::restore(negative).unwrap_err(), LoadError::BadIds);
    let mut below_zero = small_universe().snapshot();
    below_zero.entities[0].id = -1;
    assert_eq!(EntityList::restore(below_zero).unwrap_err(), LoadError::BadIds);
}

#[test]
fn snapshot_with_a_broken_entity_is_refused() {
    let gm = GM::new();
    let mut snap = small_universe().snapshot();
    snap.entities[2].jump_drive.fuel_cur = 9000;
    let mut list = EntityList::new();
    let res = gm.load(&mut list, snap);
    assert!(!res.success);
    assert_eq!(res.message, "Load failed: an entity is not in order.");
    assert_eq!(list.len(), 0);
    let mut snap = small_universe().snapshot();
    snap.entities[1].hold.vol = 1;
    assert_eq!(EntityList::restore(snap).unwrap_err(), LoadError::BadEntity);
}

#[test]
fn snapshot_with_gaps_in_the_ids_is_a_registry() {
    let mut snap = small_universe().snapshot();
    snap.entities[4].id = 40;
    snap.id_acc = 41;
    let mut list = EntityList::restore(snap).unwrap();
    assert_eq!(list.get_by_id(40).unwrap().name, "here");
    assert!(list.get_by_id(4).is_none());
    assert_eq!(list.add(entity_at("next", 0, 0)), 41);
    let empty = EntityList::restore(Snapshot { id_acc: 0, entities: Vec::new() }).unwrap();
    assert_eq!(empty.len(), 0);
}

#[test]
fn station_from_draws_is_what_the_draws_say() {
    let names = vec!["Alpha".to_string(), "Beta".to_string(), "Gamma".to_string()];
    let markups = vec![-5, -4, 0, 1, 2, 3, 14, 13, 12];
    let e = station_from(&names, (2, 0, 2), &markups, Position::new(17, 9999));
    assert_eq!(e.name, "Gamma-Alpha-Gamma");
    assert_eq!(e.class, EntityClass::Station);
    assert!(e.flags.has_dock);
    assert_eq!(e.pos, Position::new(17, 9999));
    assert_eq!(e.id, 0);
    assert_eq!(e.fin.credits, 10000);
    assert_eq!(e.hold.vol_max, 1000);
    assert_eq!(e.jump_drive, JumpDrive::new(10, 100));
    assert_eq!(e.docked_id, None);
    assert_eq!(e.targeting_id, None);
    let expected = [5, 16, 30, 26, 37, 48, 34, 43, 52];
    for (i, kind) in item_names().iter().enumerate() {
        assert_eq!(e.fin.prices.get(kind), Some(&expected[i]));
        assert_eq!(e.hold.inv.get(kind), Some(&0));
    }
    assert!(e.is_valid());
}

#[test]
fn station_is_drawn_from_the_names_and_the_galaxy() {
    let names = vec!["Alpha".to_string(), "Beta".to_string(), "Gamma".to_string()];
    let mut distinct_names = Vec::new();
    for _ in 0..200 {
        let e = station(&names);
        let parts: Vec<&str> = e.name.split('-').collect();
        assert_eq!(parts.len(), 3);
        for part in parts {
            assert!(names.iter().any(|n| n == part));
        }
        assert!(0 <= e.pos.x && e.pos.x < GAL_SIZE);
        assert!(0 <= e.pos.y && e.pos.y < GAL_SIZE);
        assert_eq!(e.class, EntityClass::Station);
        assert!(e.flags.has_dock);
        for kind in item_names() {
            let price = *e.fin.prices.get(&kind).unwrap();
            assert!(base_val_of(kind) - 5 <= price && price < base_val_of(kind) + 15);
        }
        if !distinct_names.contains(&e.name) {
            distinct_names.push(e.name.clone());
        }
    }
    assert!(distinct_names.len() > 1);
    let only = station(&vec!["Solo".to_string()]);
    assert_eq!(only.name, "Solo-Solo-Solo");
}

#[test]
fn generated_stations_follow_the_player() {
    let names = vec!["Alpha".to_string(), "Beta".to_string()];
    let mut list = EntityList::new();
    list.add(entity_at("player", 5000, 5000));
    list.generate_entities(&names, 50);
    assert_eq!(list.len(), 51);
    assert_eq!(list.id_acc(), 51);
    assert_eq!(list.get_player().unwrap().name, "player");
    for (place, e) in list.list().iter().enumerate() {
        assert_eq!(e.id, place as i32);
        if place > 0 {
            assert_eq!(e.class, EntityClass::Station);
            assert!(e.flags.has_dock);
            assert!(0 <= e.pos.x && e.pos.x < GAL_SIZE);
        }
    }
    list.generate_entities(&Vec::new(), 0);
    assert_eq!(list.len(), 51);
}

#[test]
fn standard_universe_constants() {
    let univ = Univ::standard();
    assert_eq!(univ.gal_size, 10000);
    assert_eq!(univ.starting_entities, 10000);
    assert_eq!(GAL_SIZE, 10000);
    assert_eq!(STARTING_ENTITIES, 10000);
}
