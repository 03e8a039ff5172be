use spacetrade::entity::{entity_classes, Entity, EntityClass};
use spacetrade::gm::GM;
use spacetrade::item_name::item_names;
use spacetrade::jump_drive::{JumpDrive, JumpRes};
use spacetrade::pos::Position;

fn player_at(x: i32, y: i32) -> Entity {
    let mut player = Entity::new("Ferris 1");
    player.set_pos(Position::new(x, y));
    player
}

#[test]
fn new_jump_result_is_an_empty_failure() {
    let res = JumpRes::new();
    assert!(!res.success);
    assert_eq!(res.message, "");
    assert_eq!(res.distance, 0);
    assert_eq!(res.fuel_used, 0);
}

#[test]
fn new_drive_holds_eight_full_jumps() {
    let drive = JumpDrive::new(10, 100);
    assert_eq!(drive.fuel_per_ly, 10);
    assert_eq!(drive.max_range, 100);
    assert_eq!(drive.fuel_max, 8000);
    assert_eq!(drive.fuel_cur, 8000);
    assert!(drive.is_valid());
    let idle = JumpDrive::new(0, 0);
    assert_eq!(idle.fuel_max, 0);
    assert!(idle.is_valid());
    assert_eq!(drive.refuel_amt(), 0);
    assert_eq!(drive.fuel_str(), "8000/8000 g");
}

#[test]
fn drive_validity_sees_fuel_out_of_bounds() {
    let mut drive = JumpDrive::new(10, 100);
    drive.fuel_cur = 8001;
    assert!(!drive.is_valid());
    drive.fuel_cur = -1;
    assert!(!drive.is_valid());
    drive.fuel_cur = 0;
    assert!(drive.is_valid());
    drive.fuel_max = 7999;
    assert!(!drive.is_valid());
}

#[test]
fn drive_jump_takes_fuel_for_the_truncated_distance() {
    let mut drive = JumpDrive::new(10, 100);
    let res = drive.jump(&Position::new(0, 0), &Position::new(1, 1));
    assert!(res.success);
    assert_eq!(res.distance, 1);
    assert_eq!(res.fuel_used, 10);
    assert_eq!(drive.fuel_cur, 7990);
    assert_eq!(res.message, "Jump successful: traveled 1 light years, consumed 10 fuel");
    let res = drive.jump(&Position::new(0, 0), &Position::new(60, 80));
    assert!(res.success);
    assert_eq!(res.distance, 100);
    assert_eq!(res.fuel_used, 1000);
    assert_eq!(drive.fuel_cur, 6990);
    assert_eq!(drive.fuel_max, 8000);
}

#[test]
fn drive_jump_beyond_range_changes_nothing() {
    let mut drive = JumpDrive::new(10, 100);
    let res = drive.jump(&Position::new(0, 0), &Position::new(0, 101));
    assert!(!res.success);
    assert_eq!(res.distance, 0);
    assert_eq!(res.fuel_used, 0);
    assert_eq!(res.message, "Jump failed: distance 101 exceeds max range 100");
    assert_eq!(drive, JumpDrive::new(10, 100));
}

#[test]
fn drive_jump_without_fuel_changes_nothing() {
    let mut drive = JumpDrive::new(10, 100);
    drive.fuel_cur = 599;
    let res = drive.jump(&Position::new(5000, 5000), &Position::new(5000, 5060));
    assert!(!res.success);
    assert_eq!(res.distance, 0);
    assert_eq!(res.fuel_used, 0);
    assert_eq!(res.message, "Jump failed: not enough fuel (need 600, have 599)");
    assert_eq!(drive.fuel_cur, 599);
    drive.fuel_cur = 600;
    let res = drive.jump(&Position::new(5000, 5000), &Position::new(5000, 5060));
    assert!(res.success);
    assert_eq!(drive.fuel_cur, 0);
}

#[test]
fn drive_fuel_stays_between_nothing_and_capacity() {
    let mut drive = JumpDrive::new(10, 100);
    let a = Position::new(0, 0);
    let b = Position::new(0, 100);
    for _ in 0..12 {
        drive.jump(&a, &b);
        assert!(0 <= drive.fuel_cur && drive.fuel_cur <= drive.fuel_max);
    }
    assert_eq!(drive.fuel_cur, 0);
    assert_eq!(drive.refuel_amt(), 8000);
    drive.refuel(2500);
    assert_eq!(drive.fuel_cur, 2500);
    assert_eq!(drive.refuel_amt(), 5500);
    drive.refuel(i32::MAX);
    assert_eq!(drive.fuel_cur, 8000);
    drive.refuel(1);
    assert_eq!(drive.fuel_cur, 8000);
    drive.refuel(0);
    assert_eq!(drive.fuel_cur, 8000);
    assert_eq!(drive.fuel_max, 8000);
    drive.refuel(-3000);
    assert_eq!(drive.fuel_cur, 5000);
    assert_eq!(drive.fuel_str(), "5000/8000 g");
}

#[test]
fn refuel_that_takes_out_more_than_there_is_leaves_nothing() {
    let mut drive = JumpDrive::new(10, 100);
    drive.refuel(-9000);
    assert_eq!(drive.fuel_cur, 0);
    assert_eq!(drive.fuel_max, 8000);
    assert!(drive.is_valid());
    let res = drive.jump(&Position::new(0, 0), &Position::new(0, 1));
    assert!(!res.success);
    drive.refuel(10);
    assert_eq!(drive.fuel_cur, 10);
    drive.refuel(-11);
    assert_eq!(drive.fuel_cur, 0);
    drive.refuel(i32::MIN);
    assert_eq!(drive.fuel_cur, 0);
    drive.refuel(8000);
    drive.refuel(-8000);
    assert_eq!(drive.fuel_cur, 0);
    assert_eq!(drive.refuel_amt(), 8000);
    assert!(drive.is_valid());
}

#[test]
fn consume_takes_fuel_out_down_to_nothing() {
    let mut drive = JumpDrive::new(10, 100);
    drive.consume(600);
    assert_eq!(drive.fuel_cur, 7400);
    drive.consume(0);
    assert_eq!(drive.fuel_cur, 7400);
    drive.consume(7401);
    assert_eq!(drive.fuel_cur, 0);
    drive.consume(i32::MAX);
    assert_eq!(drive.fuel_cur, 0);
    assert_eq!(drive.fuel_max, 8000);
    assert_eq!(drive.fuel_per_ly, 10);
    assert_eq!(drive.max_range, 100);
    assert!(drive.is_valid());
}

#[test]
fn calc_fuel_is_distance_times_rate() {
    let drive = JumpDrive::new(10, 100);
    assert_eq!(drive.calc_fuel(0), 0);
    assert_eq!(drive.calc_fuel(60), 600);
    assert_eq!(drive.calc_fuel(200), 2000);
    assert_eq!(drive.calc_fuel(-3), -30);
}

#[test]
fn new_entity_is_a_craft_at_the_origin() {
    let e = Entity::new("Ferris 1");
    assert_eq!(e.name, "Ferris 1");
    assert_eq!(e.id, 0);
    assert_eq!(e.class, EntityClass::Craft);
    assert_eq!(e.pos, Position::new(0, 0));
    assert_eq!(e.fin.credits, 10000);
    assert_eq!(e.fin.profit_margin, 20);
    assert_eq!(e.hold.vol_max, 1000);
    assert_eq!(e.hold.vol, 0);
    for kind in item_names() {
        assert_eq!(e.hold.inv.get(&kind), Some(&0));
        assert_eq!(e.fin.prices.get(&kind), Some(&0));
    }
    assert_eq!(e.jump_drive, JumpDrive::new(10, 100));
    assert!(!e.flags.has_dock);
    assert_eq!(e.docked_id, None);
    assert_eq!(e.targeting_id, None);
    assert!(e.is_valid());
    let copy = e.duplicate();
    assert_eq!(copy.name, "Ferris 1");
    assert_eq!(copy.jump_drive, e.jump_drive);
}

#[test]
fn scenario_jump_within_range_succeeds() {
    let mut player = player_at(5000, 5000);
    assert_eq!(player.jump_drive.fuel_max, 8000);
    let res = player.jump(&Position::new(5000, 5060));
    assert!(res.success);
    assert_eq!(res.distance, 60);
    assert_eq!(res.fuel_used, 600);
    assert_eq!(player.jump_drive.fuel_cur, 7400);
    assert_eq!(player.pos, Position::new(5000, 5060));
    assert_eq!(res.message, "Jump successful: traveled 60 light years, consumed 600 fuel");
}

#[test]
fn scenario_jump_beyond_range_fails() {
    let mut player = player_at(5000, 5000);
    let res = player.jump(&Position::new(5000, 5200));
    assert!(!res.success);
    assert_eq!(player.pos, Position::new(5000, 5000));
    assert_eq!(player.jump_drive.fuel_cur, 8000);
    assert_eq!(res.message, "Jump failed: distance 200 exceeds max range 100");
    assert_eq!(res.distance, 0);
    assert_eq!(res.fuel_used, 0);
}

#[test]
fn docked_entity_does_not_jump() {
    let mut player = player_at(5000, 5000);
    player.docked_id = Some(3);
    for target in [Position::new(5000, 5000), Position::new(5000, 5060), Position::new(0, 0)] {
        let res = player.jump(&target);
        assert!(!res.success);
        assert_eq!(res.message, "Cannot jump while docked.");
        assert_eq!(res.distance, 0);
        assert_eq!(res.fuel_used, 0);
        assert_eq!(player.pos, Position::new(5000, 5000));
        assert_eq!(player.jump_drive.fuel_cur, 8000);
        assert_eq!(player.docked_id, Some(3));
    }
}

#[test]
fn jump_and_check_of_the_way_back_agree() {
    let gm = GM::new();
    let mut player = player_at(5000, 5000);
    let start = player.pos;
    let target = Position::new(5031, 4958);
    let before = player.jump_drive.fuel_cur;
    let res = player.jump(&target);
    assert!(res.success);
    assert_eq!(player.jump_drive.fuel_cur, before - res.fuel_used);
    assert!(gm.can_check(&player, &start));
    let check = gm.jump_check(&player, &start);
    assert_eq!(check.distance, res.distance);
    assert_eq!(check.fuel_needed, res.fuel_used);
    assert_eq!(check.distance, 52);
    assert_eq!(check.fuel_needed, 520);
}

#[test]
fn jump_check_reports_what_a_jump_would_take() {
    let gm = GM::new();
    let mut player = player_at(5000, 5000);
    let check = gm.jump_check(&player, &Position::new(5000, 5060));
    assert_eq!(check.distance, 60);
    assert_eq!(check.fuel_needed, 600);
    assert_eq!(check.fuel_cur, 8000);
    assert_eq!(check.fuel_after, 7400);
    assert!(check.can_jump);
    let far = gm.jump_check(&player, &Position::new(5000, 5200));
    assert_eq!(far.distance, 200);
    assert_eq!(far.fuel_needed, 2000);
    assert_eq!(far.fuel_after, 6000);
    assert!(!far.can_jump);
    player.jump_drive.fuel_cur = 100;
    let dry = gm.jump_check(&player, &Position::new(5000, 5060));
    assert_eq!(dry.fuel_after, -500);
    assert!(!dry.can_jump);
    assert_eq!(player.jump_drive.fuel_cur, 100);
}

#[test]
fn jump_check_does_not_look_at_docking() {
    let gm = GM::new();
    let mut player = player_at(5000, 5000);
    player.docked_id = Some(1);
    let check = gm.jump_check(&player, &Position::new(5000, 5060));
    assert!(check.can_jump);
    assert!(!player.jump(&Position::new(5000, 5060)).success);
}

#[test]
fn can_check_refuses_what_does_not_fit() {
    let gm = GM::new();
    let mut player = player_at(0, 0);
    assert!(gm.can_check(&player, &Position::new(i32::MAX, 0)) == false);
    assert!(gm.can_check(&player, &Position::new(214_748_364, 0)));
    assert!(!gm.can_check(&player, &Position::new(214_748_365, 0)));
    player.jump_drive.fuel_per_ly = 1;
    assert!(gm.can_check(&player, &Position::new(i32::MAX, 0)));
}

#[test]
fn manager_counts_every_jump_attempt() {
    let mut gm = GM::new();
    assert_eq!(gm.tick, 0);
    let mut player = player_at(5000, 5000);
    let ok = gm.jump(&mut player, &Position::new(5000, 5060));
    assert!(ok.success);
    assert_eq!(gm.tick, 1);
    let far = gm.jump(&mut player, &Position::new(0, 0));
    assert!(!far.success);
    assert_eq!(gm.tick, 2);
    player.docked_id = Some(9);
    let docked = gm.jump(&mut player, &Position::new(5000, 5061));
    assert!(!docked.success);
    assert_eq!(docked.message, "Cannot jump while docked.");
    assert_eq!(gm.tick, 3);
    assert_eq!(player.pos, Position::new(5000, 5060));
    assert_eq!(player.jump_drive.fuel_cur, 7400);
}

#[test]
fn set_target_records_any_id() {
    let gm = GM::new();
    let mut player = player_at(1, 2);
    assert!(gm.set_target(&mut player, 77).success);
    assert_eq!(player.targeting_id, Some(77));
    assert!(gm.set_target(&mut player, -4).success);
    assert_eq!(player.targeting_id, Some(-4));
    assert_eq!(player.pos, Position::new(1, 2));
}

#[test]
fn undock_clears_the_dock_or_says_why_not() {
    let gm = GM::new();
    let mut player = player_at(1, 2);
    let res = gm.undock(&mut player);
    assert!(!res.success);
    assert_eq!(res.message, "Not currently docked to any entity.");
    assert_eq!(player.docked_id, None);
    player.docked_id = Some(12);
    let res = gm.undock(&mut player);
    assert!(res.success);
    assert_eq!(res.message, "Undocked from entity ID 12.");
    assert_eq!(player.docked_id, None);
    assert_eq!(player.pos, Position::new(1, 2));
}

#[test]
fn rename_always_succeeds() {
    let gm = GM::new();
    let mut player = player_at(1, 2);
    let res = gm.name_ent(&mut player, "Corro Deep");
    assert!(res.success);
    assert_eq!(res.message, "Renamed to Corro Deep");
    assert_eq!(player.name, "Corro Deep");
    let res = gm.name_ent(&mut player, "");
    assert!(res.success);
    assert_eq!(player.name, "");
    assert_eq!(player.pos, Position::new(1, 2));
    assert_eq!(player.fin.credits, 10000);
}

#[test]
fn entity_classes_are_station_and_craft() {
    assert_eq!(entity_classes(), [EntityClass::Station, EntityClass::Craft]);
}
