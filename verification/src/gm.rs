//! The galaxy manager: the operations that reach across entities.

use crate::entity::Entity;
use crate::entity_list::{
    is_listing, lemma_place_of_id, lemma_update_keeps_ids, place_of_id, snapshot_fault, EntityList,
    LoadError, Snapshot,
};
use crate::jump_drive::JumpRes;
use crate::pos::{lemma_distance_symmetric, lemma_distance_truncates, Position};
use crate::text::{decimal, push_decimal};
use vstd::prelude::*;
use vstd::string::*;

verus! {

/// How near the player must be to dock.
pub const DOCK_RANGE: i32 = 1;

/// The message of a docking refused because the target has no dock.
pub open spec fn msg_no_dock(ent_id: int) -> Seq<char> {
    "Entity ID "@ + decimal(ent_id) + " does not have docking capabilities."@
}

/// The message of a docking refused because no entity has the id.
pub open spec fn msg_not_found(ent_id: int) -> Seq<char> {
    "No entity found with ID "@ + decimal(ent_id) + "."@
}

/// The message of a docking that took place.
pub open spec fn msg_docked_with(name: Seq<char>) -> Seq<char> {
    "Docked with "@ + name + "."@
}

/// The message of a docking refused for distance.
pub open spec fn msg_too_far(name: Seq<char>) -> Seq<char> {
    "Docking failed: not close enough to "@ + name + "."@
}

/// The message of an undocking that took place.
pub open spec fn msg_undocked(ent_id: int) -> Seq<char> {
    "Undocked from entity ID "@ + decimal(ent_id) + "."@
}

/// The message of an undocking refused because the entity is not docked.
pub open spec fn msg_not_docked() -> Seq<char> {
    "Not currently docked to any entity."@
}

/// The message of a renaming.
pub open spec fn msg_renamed(name: Seq<char>) -> Seq<char> {
    "Renamed to "@ + name
}

/// The message of a saving.
pub open spec fn msg_saved(filename: Seq<char>) -> Seq<char> {
    "Saved to "@ + filename
}

/// The message of a loading that took place.
pub open spec fn msg_loaded() -> Seq<char> {
    "loaded"@
}

/// The message of a loading refused for the fault `fault`.
pub open spec fn msg_load_failed(fault: LoadError) -> Seq<char> {
    match fault {
        LoadError::BadIds => "Load failed: entity ids are not unique and increasing."@,
        LoadError::BadEntity => "Load failed: an entity is not in order."@,
    }
}

/// An outcome without a message.
#[derive(Debug, Clone, Copy)]
pub struct GMRes {
    pub success: bool,
}

/// An outcome with a message.
#[derive(Debug, Clone)]
pub struct GMResMsg {
    pub success: bool,
    pub message: String,
}

/// What a jump would take, and whether range and fuel allow it.
#[derive(Debug, Clone, Copy)]
pub struct GMResJumpCheck {
    pub distance: i32,
    pub fuel_needed: i32,
    pub fuel_cur: i32,
    pub fuel_after: i32,
    pub can_jump: bool,
}

/// The outcome of a jump.
pub type GMResJump = JumpRes;

/// A list of entities.
#[derive(Debug)]
pub struct GMResEntList {
    pub entities: Vec<Entity>,
}

/// The outcome of a saving: the message, and what is to be written.
#[derive(Debug)]
pub struct GMResSave {
    pub success: bool,
    pub message: String,
    pub snapshot: Snapshot,
}

/// The galaxy manager. `tick` counts the jump attempts.
#[derive(Debug)]
pub struct GM {
    pub tick: i32,
}

impl GM {
    /// The fuel of the jump and what would be left after it both fit in an
    /// `i32`.
    pub open spec fn check_fits(player: Entity, target: Position) -> bool {
        let cost = player.jump_drive.cost(player.pos, target);
        &&& i32::MIN <= cost <= i32::MAX
        &&& i32::MIN <= player.jump_drive.fuel_cur - cost <= i32::MAX
    }

    /// The entity that the player docks to with `dock(_, ent_id)`, by its
    /// place: the first with that id, if it has a dock and the player is
    /// within `DOCK_RANGE` of it.
    pub open spec fn dock_target(entities: Seq<Entity>, ent_id: i32) -> Option<int> {
        match place_of_id(entities, ent_id) {
            Some(t) => if entities[t].flags.has_dock && entities[0].pos.dist(entities[t].pos)
                <= DOCK_RANGE {
                Some(t)
            } else {
                None
            },
            None => None,
        }
    }

    /// The message that `dock(_, ent_id)` reports.
    pub open spec fn dock_message(entities: Seq<Entity>, ent_id: i32) -> Seq<char> {
        match place_of_id(entities, ent_id) {
            Some(t) => if !entities[t].flags.has_dock {
                msg_no_dock(ent_id as int)
            } else if entities[0].pos.dist(entities[t].pos) <= DOCK_RANGE {
                msg_docked_with(entities[t].name@)
            } else {
                msg_too_far(entities[t].name@)
            },
            None => msg_not_found(ent_id as int),
        }
    }

    /// A manager that has seen no jump.
    pub fn new() -> (gm: GM)
        ensures
            gm.tick == 0,
    {
        GM { tick: 0 }
    }

    /// Records `ent_id` as the target of `player`. Nothing asks whether such
    /// an entity exists.
    pub fn set_target(&self, player: &mut Entity, ent_id: i32) -> (res: GMRes)
        ensures
            res.success,
            *final(player) == (Entity { targeting_id: Some(ent_id), ..*old(player) }),
    {
        player.targeting_id = Some(ent_id);
        GMRes { success: true }
    }

    /// Whether `check_fits` holds of `player` and `target`.
    pub fn can_check(&self, player: &Entity, target: &Position) -> (fits: bool)
        ensures
            fits == GM::check_fits(*player, *target),
    {
        let distance: i64 = player.pos.distance(target) as i64;
        let rate: i64 = player.jump_drive.fuel_per_ly as i64;
        assert(-0x8000_0000 * 0x8000_0000 <= distance * rate <= 0x8000_0000 * 0x8000_0000)
            by (nonlinear_arith)
            requires
                0 <= distance <= 0x8000_0000,
                -0x8000_0000 <= rate <= 0x8000_0000,
        ;
        let cost: i64 = distance * rate;
        let left: i64 = player.jump_drive.fuel_cur as i64 - cost;
        -0x8000_0000 <= cost && cost <= 0x7fff_ffff && -0x8000_0000 <= left && left
            <= 0x7fff_ffff
    }

    /// What the jump of `player` to `target` would take. Docking is not
    /// looked at: a docked entity may be told that it can jump.
    pub fn jump_check(&self, player: &Entity, target: &Position) -> (res: GMResJumpCheck)
        requires
            GM::check_fits(*player, *target),
        ensures
            res.distance == player.pos.dist(*target),
            res.fuel_needed == player.jump_drive.cost(player.pos, *target),
            res.fuel_cur == player.jump_drive.fuel_cur,
            res.fuel_after == res.fuel_cur - res.fuel_needed,
            res.can_jump == player.jump_drive.can_jump(player.pos, *target),
    {
        let distance: i32 = player.pos.distance(target);
        let fuel_needed: i32 = player.jump_drive.calc_fuel(distance);
        let fuel_cur: i32 = player.jump_drive.fuel_cur;
        let fuel_after: i32 = fuel_cur - fuel_needed;
        let can_jump = distance <= player.jump_drive.max_range && fuel_needed <= fuel_cur;
        GMResJumpCheck { distance, fuel_needed, fuel_cur, fuel_after, can_jump }
    }

    /// Counts the attempt, then lets `player` try the jump to `destination`.
    pub fn jump(&mut self, player: &mut Entity, destination: &Position) -> (res: GMResJump)
        requires
            old(self).tick < i32::MAX,
            old(player).jump_drive.wf(),
        ensures
            final(self).tick == old(self).tick + 1,
            final(player).jump_drive.wf(),
            old(player).wf() ==> final(player).wf(),
            *final(player) == old(player).after_jump(*destination),
            res.success == old(player).can_jump(*destination),
            res.message@ == old(player).jump_message(*destination),
            res.success ==> {
                &&& res.distance == old(player).pos.dist(*destination)
                &&& res.fuel_used == old(player).jump_drive.cost(old(player).pos, *destination)
                &&& final(player).jump_drive.fuel_cur == old(player).jump_drive.fuel_cur
                    - res.fuel_used
                &&& final(player).pos == *destination
            },
            !res.success ==> res.distance == 0 && res.fuel_used == 0,
            old(player).docked_id is Some ==> !res.success && *final(player) == *old(player),
    {
        self.tick = self.tick + 1;
        player.jump(destination)
    }

    /// The entities with a dock within `DOCK_RANGE` of `player`, the nearer
    /// first, as copies.
    pub fn dock_list(&self, player: &Entity, ent_list: &EntityList) -> (res: GMResEntList)
        ensures
            exists|order: Seq<int>|
                is_listing(ent_list@, player.pos, DOCK_RANGE as int, true, order)
                    && res.entities@.len() == order.len() && forall|k: int|
                    0 <= k < order.len() ==> res.entities@[k] == ent_list@[#[trigger] order[k]],
    {
        let near = ent_list.listing(player.pos, DOCK_RANGE, true);
        let mut entities: Vec<Entity> = Vec::new();
        let mut i: usize = 0;
        while i < near.len()
            invariant
                i <= near@.len(),
                entities@.len() == i,
                forall|k: int| 0 <= k < i ==> entities@[k] == *near@[k],
            decreases near@.len() - i,
        {
            entities.push(near[i].duplicate());
            i += 1;
        }
        GMResEntList { entities }
    }

    /// Docks the player, the entity at place 0, to the first entity with the
    /// id `ent_id`, if that entity has a dock and the player is within
    /// `DOCK_RANGE` of it. A player that was docked elsewhere is docked anew.
    pub fn dock(&self, ent_list: &mut EntityList, ent_id: i32) -> (res: GMResMsg)
        ensures
            final(ent_list).next_id() == old(ent_list).next_id(),
            res.success == (GM::dock_target(old(ent_list)@, ent_id) is Some),
            res.message@ == GM::dock_message(old(ent_list)@, ent_id),
            final(ent_list)@ == if res.success {
                old(ent_list)@.update(
                    0,
                    Entity { docked_id: Some(ent_id), ..old(ent_list)@[0] },
                )
            } else {
                old(ent_list)@
            },
            old(ent_list).wf() ==> final(ent_list).wf(),
    {
        proof {
            lemma_place_of_id(ent_list@, ent_id);
        }
        let found: Option<(bool, Position, String)> = match ent_list.get_by_id(ent_id) {
            Some(target) => Some((target.flags.has_dock, target.pos, target.name.clone())),
            None => None,
        };
        match found {
            Some((has_dock, target_pos, target_name)) => {
                if !has_dock {
                    return GMResMsg { success: false, message: text_no_dock(ent_id) };
                }
                match ent_list.get_player_mut() {
                    Some(ship) => {
                        if ship.pos.distance(&target_pos) <= DOCK_RANGE {
                            ship.docked_id = Some(ent_id);
                            proof {
                                lemma_update_keeps_ids(
                                    old(ent_list)@,
                                    0,
                                    *ship,
                                    old(ent_list).next_id() as int,
                                );
                            }
                            GMResMsg { success: true, message: text_docked_with(&target_name) }
                        } else {
                            GMResMsg { success: false, message: text_too_far(&target_name) }
                        }
                    },
                    None => GMResMsg { success: false, message: String::new() },
                }
            },
            None => GMResMsg { success: false, message: text_not_found(ent_id) },
        }
    }

    /// Undocks `player`, if it is docked.
    pub fn undock(&self, player: &mut Entity) -> (res: GMResMsg)
        ensures
            res.success == (old(player).docked_id is Some),
            *final(player) == (Entity { docked_id: None, ..*old(player) }),
            res.message@ == match old(player).docked_id {
                Some(docked_id) => msg_undocked(docked_id as int),
                None => msg_not_docked(),
            },
    {
        let mut res = GMResMsg { success: false, message: String::new() };
        match player.docked_id {
            Some(docked_id) => {
                let mut message = String::from_str("Undocked from entity ID ");
                push_decimal(&mut message, docked_id);
                message.append(".");
                res.message = message;
                res.success = true;
                player.docked_id = None;
            },
            None => {
                res.message = String::from_str("Not currently docked to any entity.");
            },
        }
        res
    }

    /// Gives `ent` the name `new_name`.
    pub fn name_ent(&self, ent: &mut Entity, new_name: &str) -> (res: GMResMsg)
        ensures
            res.success,
            res.message@ == msg_renamed(new_name@),
            final(ent).name@ == new_name@,
            (Entity { name: old(ent).name, ..*final(ent) }) == *old(ent),
    {
        ent.name = String::from_str(new_name);
        let mut message = String::from_str("Renamed to ");
        message.append(ent.name.as_str());
        GMResMsg { success: true, message }
    }

    /// Prepares the saving of the registry under `filename`: the whole state
    /// as plain values, for the caller to write, and the message.
    pub fn save(&self, entities: &EntityList, filename: &str) -> (res: GMResSave)
        ensures
            res.success,
            res.message@ == msg_saved(filename@),
            res.snapshot.id_acc == entities.next_id(),
            res.snapshot.entities@ == entities@,
    {
        let mut message = String::from_str("Saved to ");
        message.append(filename);
        GMResSave { success: true, message, snapshot: entities.snapshot() }
    }

    /// Replaces the registry by the one that `snapshot` describes. A snapshot
    /// that describes none is refused, and the registry stays as it is.
    pub fn load(&self, entities: &mut EntityList, snapshot: Snapshot) -> (res: GMResMsg)
        ensures
            res.success == (snapshot_fault(snapshot.entities@, snapshot.id_acc) is None),
            match snapshot_fault(snapshot.entities@, snapshot.id_acc) {
                None => final(entities)@ == snapshot.entities@ && final(entities).next_id()
                    == snapshot.id_acc && final(entities).wf() && res.message@ == msg_loaded(),
                Some(fault) => final(entities)@ == old(entities)@ && final(entities).next_id()
                    == old(entities).next_id() && res.message@ == msg_load_failed(fault),
            },
    {
        match EntityList::restore(snapshot) {
            Ok(list) => {
                *entities = list;
                GMResMsg { success: true, message: String::from_str("loaded") }
            },
            Err(LoadError::BadIds) => GMResMsg {
                success: false,
                message: String::from_str("Load failed: entity ids are not unique and increasing."),
            },
            Err(LoadError::BadEntity) => GMResMsg {
                success: false,
                message: String::from_str("Load failed: an entity is not in order."),
            },
        }
    }
}

fn text_no_dock(ent_id: i32) -> (message: String)
    ensures
        message@ == msg_no_dock(ent_id as int),
{
    let mut message = String::from_str("Entity ID ");
    push_decimal(&mut message, ent_id);
    message.append(" does not have docking capabilities.");
    message
}

fn text_not_found(ent_id: i32) -> (message: String)
    ensures
        message@ == msg_not_found(ent_id as int),
{
    let mut message = String::from_str("No entity found with ID ");
    push_decimal(&mut message, ent_id);
    message.append(".");
    message
}

fn text_docked_with(name: &String) -> (message: String)
    ensures
        message@ == msg_docked_with(name@),
{
    let mut message = String::from_str("Docked with ");
    message.append(name.as_str());
    message.append(".");
    message
}

fn text_too_far(name: &String) -> (message: String)
    ensures
        message@ == msg_too_far(name@),
{
    let mut message = String::from_str("Docking failed: not close enough to ");
    message.append(name.as_str());
    message.append(".");
    message
}

/// A jump that takes place takes its cost out of the fuel, and a check of the
/// way back then reports the same distance and the same cost.
pub proof fn lemma_jump_round_trip(e: Entity, destination: Position)
    requires
        e.jump_drive.wf(),
        e.can_jump(destination),
    ensures
        ({
            let after = e.after_jump(destination);
            let cost = e.jump_drive.cost(e.pos, destination);
            &&& after.pos == destination
            &&& after.jump_drive.fuel_cur == e.jump_drive.fuel_cur - cost
            &&& GM::check_fits(after, e.pos)
            &&& after.pos.dist(e.pos) == e.pos.dist(destination)
            &&& after.jump_drive.cost(after.pos, e.pos) == cost
        }),
{
    lemma_distance_symmetric(e.pos, destination);
    lemma_distance_truncates(e.pos, destination);
    e.jump_drive.lemma_cost_in_range(e.pos.dist(destination));
}

} // verus!
