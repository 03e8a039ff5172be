//! An entity of the universe: a craft or a station.

use crate::cargo_hold::CargoHold;
use crate::inv_store::InvStore;
use crate::item_name::ItemName;
use crate::jump_drive::{JumpDrive, JumpRes};
use crate::pos::Position;
use vstd::prelude::*;
use vstd::string::*;

verus! {

/// What an entity can do.
#[derive(Debug, Clone, Copy)]
pub struct EntityFlags {
    pub has_dock: bool,
}

impl EntityFlags {
    /// No capability.
    pub fn new() -> (flags: EntityFlags)
        ensures
            !flags.has_dock,
    {
        EntityFlags { has_dock: false }
    }
}

/// The money of an entity and the prices it asks per unit.
#[derive(Debug, Clone, Copy)]
pub struct EntityFinance {
    pub credits: i32,
    pub prices: InvStore,
    pub profit_margin: i32,
}

impl EntityFinance {
    /// The finances that every entity starts with.
    pub fn new() -> (fin: EntityFinance)
        ensures
            fin.credits == 10000,
            fin.profit_margin == 20,
            forall|kind: ItemName| fin.prices.qty(kind) == 0,
    {
        EntityFinance { credits: 10000, prices: InvStore::new(), profit_margin: 20 }
    }
}

/// The class of an entity.
#[derive(Hash, Eq, PartialEq, Debug, Clone, Copy, Structural)]
pub enum EntityClass {
    Station,
    Craft,
}

/// Every class, stations first.
pub fn entity_classes() -> (classes: Vec<EntityClass>)
    ensures
        classes@ == seq![EntityClass::Station, EntityClass::Craft],
{
    let mut classes: Vec<EntityClass> = Vec::new();
    classes.push(EntityClass::Station);
    classes.push(EntityClass::Craft);
    assert(classes@ =~= seq![EntityClass::Station, EntityClass::Craft]);
    classes
}

/// The message of a jump refused because the entity is docked.
pub open spec fn msg_docked() -> Seq<char> {
    "Cannot jump while docked."@
}

/// A craft or a station. `docked_id` and `targeting_id` name other entities
/// by id; nothing says that such an entity exists.
#[derive(Debug, Clone)]
pub struct Entity {
    pub name: String,
    pub id: i32,
    pub class: EntityClass,
    pub pos: Position,
    pub fin: EntityFinance,
    pub hold: CargoHold,
    pub jump_drive: JumpDrive,
    pub flags: EntityFlags,
    pub docked_id: Option<i32>,
    pub targeting_id: Option<i32>,
}

impl Entity {
    /// The hold and the drive are in order.
    pub open spec fn wf(&self) -> bool {
        self.hold.wf() && self.jump_drive.wf()
    }

    /// A jump to `destination` takes place: the entity is not docked, the
    /// destination is within range and the fuel suffices.
    pub open spec fn can_jump(&self, destination: Position) -> bool {
        self.docked_id is None && self.jump_drive.can_jump(self.pos, destination)
    }

    /// The entity after an attempt to jump to `destination`.
    pub open spec fn after_jump(&self, destination: Position) -> Entity {
        if self.can_jump(destination) {
            Entity {
                pos: destination,
                jump_drive: self.jump_drive.after_jump(self.pos, destination),
                ..*self
            }
        } else {
            *self
        }
    }

    /// The message that an attempt to jump to `destination` reports.
    pub open spec fn jump_message(&self, destination: Position) -> Seq<char> {
        if self.docked_id is Some {
            msg_docked()
        } else {
            self.jump_drive.jump_message(self.pos, destination)
        }
    }

    /// A craft at the origin with the starting finances, an empty hold of
    /// capacity 1000 and a full drive of 10 fuel per light year and range 100.
    pub fn new(name: &str) -> (entity: Entity)
        ensures
            entity.wf(),
            entity.name@ == name@,
            entity.id == 0,
            entity.class == EntityClass::Craft,
            entity.pos == (Position { x: 0, y: 0 }),
            entity.fin.credits == 10000,
            entity.fin.profit_margin == 20,
            forall|kind: ItemName| entity.fin.prices.qty(kind) == 0,
            entity.hold.vol_max == 1000,
            entity.hold.vol == 0,
            forall|kind: ItemName| entity.hold.inv.qty(kind) == 0,
            entity.jump_drive == (JumpDrive {
                fuel_per_ly: 10,
                max_range: 100,
                fuel_max: 8000,
                fuel_cur: 8000,
            }),
            !entity.flags.has_dock,
            entity.docked_id is None,
            entity.targeting_id is None,
    {
        Entity {
            name: String::from_str(name),
            id: 0,
            class: EntityClass::Craft,
            pos: Position::new(0, 0),
            fin: EntityFinance::new(),
            hold: CargoHold::new(1000),
            jump_drive: JumpDrive::new(10, 100),
            flags: EntityFlags::new(),
            docked_id: None,
            targeting_id: None,
        }
    }

    /// Whether the hold and the drive are in order.
    pub fn is_valid(&self) -> (valid: bool)
        ensures
            valid == self.wf(),
    {
        self.hold.is_valid() && self.jump_drive.is_valid()
    }

    /// A copy of this entity.
    pub fn duplicate(&self) -> (copy: Entity)
        ensures
            copy == *self,
    {
        Entity {
            name: self.name.clone(),
            id: self.id,
            class: self.class,
            pos: self.pos,
            fin: self.fin,
            hold: self.hold,
            jump_drive: self.jump_drive,
            flags: self.flags,
            docked_id: self.docked_id,
            targeting_id: self.targeting_id,
        }
    }

    /// Puts the entity at `position`.
    pub fn set_pos(&mut self, position: Position)
        ensures
            *final(self) == (Entity { pos: position, ..*old(self) }),
    {
        self.pos = position;
    }

    /// Attempts to jump to `destination`. A docked entity does not jump, and
    /// its drive is not asked; otherwise the drive decides, and a jump that
    /// takes place moves the entity.
    pub fn jump(&mut self, destination: &Position) -> (res: JumpRes)
        requires
            old(self).jump_drive.wf(),
        ensures
            final(self).jump_drive.wf(),
            old(self).wf() ==> final(self).wf(),
            *final(self) == old(self).after_jump(*destination),
            res.success == old(self).can_jump(*destination),
            res.message@ == old(self).jump_message(*destination),
            res.success ==> {
                &&& res.distance == old(self).pos.dist(*destination)
                &&& res.fuel_used == old(self).jump_drive.cost(old(self).pos, *destination)
                &&& final(self).jump_drive.fuel_cur == old(self).jump_drive.fuel_cur
                    - res.fuel_used
                &&& final(self).pos == *destination
            },
            !res.success ==> res.distance == 0 && res.fuel_used == 0,
            old(self).docked_id is Some ==> !res.success && *final(self) == *old(self)
                && res.message@ == msg_docked(),
    {
        if self.docked_id.is_some() {
            let mut res = JumpRes::new();
            res.message = String::from_str("Cannot jump while docked.");
            return res;
        }
        let from = self.pos;
        let res = self.jump_drive.jump(&from, destination);
        if res.success {
            self.pos = *destination;
        }
        res
    }
}

} // verus!
