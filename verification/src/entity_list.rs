//! The registry: the entities of the universe in the order in which they were
//! added, and the counter that gives each its id.

use crate::entity::Entity;
use crate::entity_maker::{is_station_of, station};
use crate::pos::Position;
use vstd::prelude::*;

verus! {

/// The first place in `entities` that holds an entity with the id `id`.
#[verifier::opaque]
pub open spec fn place_of_id(entities: Seq<Entity>, id: i32) -> Option<int> {
    if exists|i: int| 0 <= i < entities.len() && entities[i].id == id {
        Some(
            choose|i: int|
                0 <= i < entities.len() && entities[i].id == id && forall|j: int|
                    0 <= j < i ==> entities[j].id != id,
        )
    } else {
        None
    }
}

/// What `place_of_id` gives: the first place with the id, or nothing where
/// no entity has it.
pub proof fn lemma_place_of_id(entities: Seq<Entity>, id: i32)
    ensures
        match place_of_id(entities, id) {
            Some(t) => 0 <= t < entities.len() && entities[t].id == id && forall|j: int|
                0 <= j < t ==> entities[j].id != id,
            None => forall|j: int| 0 <= j < entities.len() ==> entities[j].id != id,
        },
{
    reveal(place_of_id);
    if exists|i: int| 0 <= i < entities.len() && entities[i].id == id {
        let w = choose|i: int| 0 <= i < entities.len() && entities[i].id == id;
        lemma_first_with_id(entities, id, w);
    }
}

proof fn lemma_first_with_id(entities: Seq<Entity>, id: i32, w: int)
    requires
        0 <= w < entities.len(),
        entities[w].id == id,
    ensures
        exists|i: int|
            0 <= i < entities.len() && entities[i].id == id && forall|j: int|
                0 <= j < i ==> entities[j].id != id,
    decreases w,
{
    if exists|j: int| 0 <= j < w && entities[j].id == id {
        let j = choose|j: int| 0 <= j < w && entities[j].id == id;
        lemma_first_with_id(entities, id, j);
    } else {
        assert(0 <= w < entities.len() && entities[w].id == id && forall|j: int|
            0 <= j < w ==> entities[j].id != id);
    }
}

/// The ids of `entities` grow strictly along the sequence and lie in
/// `0..next_id`.
pub open spec fn ids_in_order(entities: Seq<Entity>, next_id: int) -> bool {
    &&& 0 <= next_id
    &&& forall|i: int| 0 <= i < entities.len() ==> 0 <= (#[trigger] entities[i]).id < next_id
    &&& forall|i: int, j: int|
        0 <= i < j < entities.len() ==> (#[trigger] entities[i]).id < (#[trigger] entities[j]).id
}

/// In a listing by distance from `origin`, the entity at place `i` comes
/// before the one at place `j`: it is nearer, or as near and added earlier.
pub open spec fn listed_before(entities: Seq<Entity>, origin: Position, i: int, j: int) -> bool {
    let di = origin.dist(entities[i].pos);
    let dj = origin.dist(entities[j].pos);
    di < dj || (di == dj && i < j)
}

/// `e` belongs in a listing around `origin`: it is within `max_distance`,
/// and has a dock where only docks are listed.
pub open spec fn is_listed(e: Entity, origin: Position, max_distance: int, docks_only: bool) -> bool {
    origin.dist(e.pos) <= max_distance && (docks_only ==> e.flags.has_dock)
}

/// `order` is the listing of `entities` by distance from `origin` up to
/// `max_distance`: it names, by place, exactly the entities that belong in
/// it, the nearer first, and those equally near in the order of addition.
pub open spec fn is_listing(
    entities: Seq<Entity>,
    origin: Position,
    max_distance: int,
    docks_only: bool,
    order: Seq<int>,
) -> bool {
    &&& forall|k: int|
        0 <= k < order.len() ==> 0 <= (#[trigger] order[k]) < entities.len() && is_listed(
            entities[order[k]],
            origin,
            max_distance,
            docks_only,
        )
    &&& forall|i: int|
        0 <= i < entities.len() && is_listed(
            #[trigger] entities[i],
            origin,
            max_distance,
            docks_only,
        ) ==> exists|k: int| 0 <= k < order.len() && order[k] == i
    &&& forall|k: int, l: int|
        0 <= k < l < order.len() ==> listed_before(
            entities,
            origin,
            #[trigger] order[k],
            #[trigger] order[l],
        )
}

/// `order` is the listing of all the entities within `max_distance` of
/// `origin`.
pub open spec fn is_radius_order(
    entities: Seq<Entity>,
    origin: Position,
    max_distance: int,
    order: Seq<int>,
) -> bool {
    is_listing(entities, origin, max_distance, false, order)
}

/// `near` holds the entities that `order` names, in that order.
pub open spec fn follows_order(near: Seq<&Entity>, entities: Seq<Entity>, order: Seq<int>) -> bool {
    &&& near.len() == order.len()
    &&& forall|k: int| 0 <= k < near.len() ==> *near[k] == entities[#[trigger] order[k]]
}

/// Why a snapshot is not a registry.
#[derive(Debug, Clone, Copy, PartialEq, Eq, Structural)]
pub enum LoadError {
    /// The ids do not grow strictly, or are not in `0..id_acc`.
    BadIds,
    /// The hold or the drive of an entity is not in order.
    BadEntity,
}

/// What is wrong with a snapshot, if anything: first the ids are looked at,
/// then the entities.
pub open spec fn snapshot_fault(entities: Seq<Entity>, id_acc: i32) -> Option<LoadError> {
    if !ids_in_order(entities, id_acc as int) {
        Some(LoadError::BadIds)
    } else if exists|i: int| 0 <= i < entities.len() && !(#[trigger] entities[i]).wf() {
        Some(LoadError::BadEntity)
    } else {
        None
    }
}

/// The whole state of a registry as plain values: what is written when the
/// universe is saved, and read when it is loaded.
#[derive(Debug)]
pub struct Snapshot {
    pub id_acc: i32,
    pub entities: Vec<Entity>,
}

/// The registry. The entity at place 0 is the player's, by convention.
#[derive(Debug)]
pub struct EntityList {
    id_acc: i32,
    entities: Vec<Entity>,
}

impl EntityList {
    /// The entities, in the order in which they were added.
    pub closed spec fn view(&self) -> Seq<Entity> {
        self.entities@
    }

    /// The id that the next added entity gets.
    pub closed spec fn next_id(&self) -> i32 {
        self.id_acc
    }

    /// Ids are unique, grow in the order of addition and are below `next_id`.
    pub open spec fn wf(&self) -> bool {
        ids_in_order(self@, self.next_id() as int)
    }

    /// An empty registry whose first id is 0.
    pub fn new() -> (list: EntityList)
        ensures
            list.wf(),
            list@.len() == 0,
            list.next_id() == 0,
    {
        EntityList { entities: Vec::new(), id_acc: 0 }
    }

    /// Adds `entity` at the end under the next id, whatever id it came with,
    /// and returns that id. No id is given twice.
    pub fn add(&mut self, entity: Entity) -> (id: i32)
        requires
            old(self).wf(),
            old(self).next_id() < i32::MAX,
        ensures
            final(self).wf(),
            id == old(self).next_id(),
            final(self).next_id() == old(self).next_id() + 1,
            final(self)@ == old(self)@.push(Entity { id, ..entity }),
    {
        let id = self.id_acc;
        let mut entity = entity;
        entity.id = id;
        self.entities.push(entity);
        self.id_acc = self.id_acc + 1;
        id
    }

    /// The state of the registry as plain values.
    pub fn snapshot(&self) -> (snap: Snapshot)
        ensures
            snap.id_acc == self.next_id(),
            snap.entities@ == self@,
    {
        let mut entities: Vec<Entity> = Vec::new();
        let mut i: usize = 0;
        while i < self.entities.len()
            invariant
                i <= self.entities@.len(),
                entities@.len() == i,
                forall|j: int| 0 <= j < i ==> entities@[j] == self.entities@[j],
            decreases self.entities@.len() - i,
        {
            entities.push(self.entities[i].duplicate());
            i += 1;
        }
        assert(entities@ =~= self.entities@);
        Snapshot { id_acc: self.id_acc, entities }
    }

    /// The registry that a snapshot describes, if it describes one: the ids
    /// must be in order and every entity in order.
    pub fn restore(snap: Snapshot) -> (res: Result<EntityList, LoadError>)
        ensures
            match res {
                Ok(list) => snapshot_fault(snap.entities@, snap.id_acc) is None && list@
                    == snap.entities@ && list.next_id() == snap.id_acc && list.wf(),
                Err(fault) => snapshot_fault(snap.entities@, snap.id_acc) == Some(fault),
            },
    {
        if !ids_ok(&snap.entities, snap.id_acc) {
            return Err(LoadError::BadIds);
        }
        let mut n: usize = 0;
        while n < snap.entities.len()
            invariant
                n <= snap.entities@.len(),
                ids_in_order(snap.entities@, snap.id_acc as int),
                forall|j: int| 0 <= j < n ==> (#[trigger] snap.entities@[j]).wf(),
            decreases snap.entities@.len() - n,
        {
            if !snap.entities[n].is_valid() {
                return Err(LoadError::BadEntity);
            }
            n += 1;
        }
        Ok(EntityList { id_acc: snap.id_acc, entities: snap.entities })
    }

    /// Whether the ids are in order.
    pub fn is_valid(&self) -> (valid: bool)
        ensures
            valid == self.wf(),
    {
        ids_ok(&self.entities, self.id_acc)
    }

    /// The number of entities.
    pub fn len(&self) -> (n: usize)
        ensures
            n == self@.len(),
    {
        self.entities.len()
    }

    /// The id that the next added entity gets.
    pub fn id_acc(&self) -> (id: i32)
        ensures
            id == self.next_id(),
    {
        self.id_acc
    }

    /// The entity at place `index`.
    pub fn get(&self, index: i32) -> (found: Option<&Entity>)
        ensures
            found == if 0 <= index < self@.len() {
                Some(&self@[index as int])
            } else {
                None
            },
    {
        if index >= 0 && (index as usize) < self.entities.len() {
            Some(&self.entities[index as usize])
        } else {
            None
        }
    }

    /// The entity at place `index`, to be changed in place.
    pub fn get_mut(&mut self, index: usize) -> (found: Option<&mut Entity>)
        ensures
            final(self).next_id() == old(self).next_id(),
            match found {
                Some(entity) => index < old(self)@.len() && *entity == old(self)@[index as int]
                    && final(self)@ == old(self)@.update(index as int, *final(entity)),
                None => index >= old(self)@.len() && final(self)@ == old(self)@,
            },
    {
        if index < self.entities.len() {
            Some(&mut self.entities[index])
        } else {
            None
        }
    }

    fn find_id(&self, id: i32) -> (found: Option<usize>)
        ensures
            match found {
                Some(i) => place_of_id(self@, id) == Some(i as int) && i < self@.len(),
                None => place_of_id(self@, id) is None,
            },
    {
        let mut i: usize = 0;
        while i < self.entities.len()
            invariant
                i <= self.entities@.len(),
                forall|j: int| 0 <= j < i ==> self.entities@[j].id != id,
            decreases self.entities@.len() - i,
        {
            if self.entities[i].id == id {
                proof {
                    lemma_place_of_id(self@, id);
                }
                return Some(i);
            }
            i += 1;
        }
        proof {
            lemma_place_of_id(self@, id);
        }
        None
    }

    /// The first entity with the id `id`.
    pub fn get_by_id(&self, id: i32) -> (found: Option<&Entity>)
        ensures
            found == match place_of_id(self@, id) {
                Some(i) => Some(&self@[i]),
                None => None,
            },
    {
        match self.find_id(id) {
            Some(i) => Some(&self.entities[i]),
            None => None,
        }
    }

    /// The first entity with the id `id`, to be changed in place.
    pub fn get_by_id_mut(&mut self, id: i32) -> (found: Option<&mut Entity>)
        ensures
            final(self).next_id() == old(self).next_id(),
            match (found, place_of_id(old(self)@, id)) {
                (Some(entity), Some(i)) => *entity == old(self)@[i] && final(self)@ == old(
                    self,
                )@.update(i, *final(entity)),
                (None, None) => final(self)@ == old(self)@,
                _ => false,
            },
    {
        match self.find_id(id) {
            Some(i) => Some(&mut self.entities[i]),
            None => None,
        }
    }

    /// Adds `count` new stations, each made by `station` from `name_list`.
    pub fn generate_entities(&mut self, name_list: &Vec<String>, count: usize)
        requires
            old(self).wf(),
            0 < count ==> 0 < name_list@.len(),
            old(self).next_id() + count <= i32::MAX,
        ensures
            final(self).wf(),
            final(self).next_id() == old(self).next_id() + count,
            final(self)@.len() == old(self)@.len() + count,
            forall|i: int| 0 <= i < old(self)@.len() ==> final(self)@[i] == old(self)@[i],
            forall|i: int|
                old(self)@.len() <= i < final(self)@.len() ==> (#[trigger] final(self)@[i]).id
                    == old(self).next_id() + (i - old(self)@.len()) && is_station_of(
                    Entity { id: 0, ..final(self)@[i] },
                    name_list@,
                ),
    {
        let mut made: usize = 0;
        while made < count
            invariant
                made <= count,
                self.wf(),
                0 < count ==> 0 < name_list@.len(),
                old(self).next_id() + count <= i32::MAX,
                self.next_id() == old(self).next_id() + made,
                self@.len() == old(self)@.len() + made,
                forall|i: int| 0 <= i < old(self)@.len() ==> self@[i] == old(self)@[i],
                forall|i: int|
                    old(self)@.len() <= i < self@.len() ==> (#[trigger] self@[i]).id == old(
                        self,
                    ).next_id() + (i - old(self)@.len()) && is_station_of(
                        Entity { id: 0, ..self@[i] },
                        name_list@,
                    ),
            decreases count - made,
        {
            let e = station(name_list);
            assert((Entity { id: 0, ..e }) == e);
            self.add(e);
            made += 1;
        }
    }

    /// The player's entity: the one at place 0.
    pub fn get_player(&self) -> (found: Option<&Entity>)
        ensures
            found == if self@.len() > 0 {
                Some(&self@[0])
            } else {
                None
            },
    {
        self.get(0)
    }

    /// The player's entity, to be changed in place.
    pub fn get_player_mut(&mut self) -> (found: Option<&mut Entity>)
        ensures
            final(self).next_id() == old(self).next_id(),
            match found {
                Some(entity) => 0 < old(self)@.len() && *entity == old(self)@[0] && final(self)@
                    == old(self)@.update(0, *final(entity)),
                None => old(self)@.len() == 0 && final(self)@ == old(self)@,
            },
    {
        self.get_mut(0)
    }

    /// Puts `ship` in the player's place, as it is. An empty registry stays
    /// empty.
    pub fn set_player(&mut self, ship: Entity)
        ensures
            final(self).next_id() == old(self).next_id(),
            final(self)@ == if old(self)@.len() > 0 {
                old(self)@.update(0, ship)
            } else {
                old(self)@
            },
            old(self).wf() && (old(self)@.len() > 0 ==> ship.id == old(self)@[0].id)
                ==> final(self).wf(),
    {
        if self.entities.len() > 0 {
            proof {
                if ship.id == self@[0].id {
                    lemma_update_keeps_ids(self@, 0, ship, self.next_id() as int);
                }
            }
            self.entities[0] = ship;
        }
    }

    /// Every entity, in the order of addition.
    pub fn list(&self) -> (all: Vec<&Entity>)
        ensures
            all@.len() == self@.len(),
            forall|i: int| 0 <= i < all@.len() ==> *all@[i] == self@[i],
    {
        let mut all: Vec<&Entity> = Vec::new();
        let mut i: usize = 0;
        while i < self.entities.len()
            invariant
                i <= self.entities@.len(),
                all@.len() == i,
                forall|j: int| 0 <= j < i ==> *all@[j] == self.entities@[j],
            decreases self.entities@.len() - i,
        {
            all.push(&self.entities[i]);
            i += 1;
        }
        all
    }

    /// The entities within `max_distance` of `origin`, the nearer first;
    /// entities equally near stay in the order of addition.
    pub fn list_by_distance(&self, origin: Position, max_distance: i32) -> (near: Vec<&Entity>)
        ensures
            exists|order: Seq<int>|
                is_radius_order(self@, origin, max_distance as int, order) && follows_order(
                    near@,
                    self@,
                    order,
                ),
            forall|k: int|
                0 <= k < near@.len() ==> origin.dist((#[trigger] near@[k]).pos) <= max_distance,
            forall|k: int, l: int|
                0 <= k < l < near@.len() ==> origin.dist((#[trigger] near@[k]).pos) <= origin.dist(
                    (#[trigger] near@[l]).pos,
                ),
            forall|i: int|
                0 <= i < self@.len() && origin.dist((#[trigger] self@[i]).pos) <= max_distance
                    ==> exists|k: int| 0 <= k < near@.len() && *near@[k] == self@[i],
    {
        let near = self.listing(origin, max_distance, false);
        proof {
            let order = choose|order: Seq<int>|
                is_listing(self@, origin, max_distance as int, false, order) && follows_order(
                    near@,
                    self@,
                    order,
                );
            assert forall|k: int| 0 <= k < near@.len() implies origin.dist(
                (#[trigger] near@[k]).pos,
            ) <= max_distance by {
                assert(*near@[k] == self@[order[k]]);
            }
            assert forall|k: int, l: int| 0 <= k < l < near@.len() implies origin.dist(
                (#[trigger] near@[k]).pos,
            ) <= origin.dist((#[trigger] near@[l]).pos) by {
                assert(listed_before(self@, origin, order[k], order[l]));
            }
            assert forall|j: int|
                0 <= j < self@.len() && origin.dist((#[trigger] self@[j]).pos)
                    <= max_distance implies exists|k: int|
                0 <= k < near@.len() && *near@[k] == self@[j] by {
                assert(is_listed(self@[j], origin, max_distance as int, false));
                let k0 = choose|k: int| 0 <= k < order.len() && order[k] == j;
                assert(*near@[k0] == self@[j]);
            }
        }
        near
    }

    /// The listing around `origin` up to `max_distance`, of all entities or
    /// of those with a dock.
    pub(crate) fn listing(&self, origin: Position, max_distance: i32, docks_only: bool) -> (near:
        Vec<&Entity>)
        ensures
            exists|order: Seq<int>|
                is_listing(self@, origin, max_distance as int, docks_only, order)
                    && follows_order(near@, self@, order),
    {
        let mut near: Vec<&Entity> = Vec::new();
        let mut dists: Vec<i32> = Vec::new();
        let ghost mut order: Seq<int> = Seq::empty();
        let ghost all = self.entities@;
        let mut i: usize = 0;
        while i < self.entities.len()
            invariant
                i <= all.len(),
                all == self.entities@,
                near@.len() == order.len(),
                dists@.len() == order.len(),
                forall|k: int|
                    0 <= k < order.len() ==> 0 <= (#[trigger] order[k]) < i && *near@[k]
                        == all[order[k]] && dists@[k] == origin.dist(all[order[k]].pos)
                        && is_listed(all[order[k]], origin, max_distance as int, docks_only),
                forall|j: int|
                    0 <= j < i && is_listed(
                        #[trigger] all[j],
                        origin,
                        max_distance as int,
                        docks_only,
                    ) ==> exists|k: int| 0 <= k < order.len() && order[k] == j,
                forall|k: int, l: int|
                    0 <= k < l < order.len() ==> listed_before(
                        all,
                        origin,
                        #[trigger] order[k],
                        #[trigger] order[l],
                    ),
            decreases all.len() - i,
        {
            let entity = &self.entities[i];
            let d: i32 = origin.distance(&entity.pos);
            if d <= max_distance && (!docks_only || entity.flags.has_dock) {
                let mut p: usize = near.len();
                while p > 0 && dists[p - 1] > d
                    invariant
                        p <= dists@.len(),
                        forall|k: int| p <= k < dists@.len() ==> dists@[k] > d,
                    decreases p,
                {
                    p -= 1;
                }
                let ghost before = order;
                proof {
                    assert forall|k: int| 0 <= k < p implies dists@[k] <= d by {
                        if k < p - 1 {
                            assert(listed_before(all, origin, before[k], before[p - 1]));
                        }
                    }
                    order = before.insert(p as int, i as int);
                }
                near.insert(p, entity);
                dists.insert(p, d);
                proof {
                    old_places_stay(before, i as int, p as int);
                    assert forall|j: int|
                        0 <= j < i + 1 && is_listed(
                            #[trigger] all[j],
                            origin,
                            max_distance as int,
                            docks_only,
                        ) implies exists|k: int| 0 <= k < order.len() && order[k] == j by {
                        if j < i {
                            let k0 = choose|k: int| 0 <= k < before.len() && before[k] == j;
                            if k0 < p {
                                assert(order[k0] == j);
                            } else {
                                assert(order[k0 + 1] == j);
                            }
                        } else {
                            assert(order[p as int] == j);
                        }
                    }
                    assert forall|k: int, l: int| 0 <= k < l < order.len() implies listed_before(
                        all,
                        origin,
                        #[trigger] order[k],
                        #[trigger] order[l],
                    ) by {
                        let bk = if k < p { k } else { k - 1 };
                        let bl = if l < p { l } else { l - 1 };
                        if k != p && l != p {
                            assert(listed_before(all, origin, before[bk], before[bl]));
                        } else if k == p {
                            assert(dists@[l] == origin.dist(all[order[l]].pos));
                        } else {
                            assert(dists@[k] == origin.dist(all[order[k]].pos));
                        }
                    }
                }
            }
            i += 1;
        }
        proof {
            assert(is_listing(self@, origin, max_distance as int, docks_only, order));
            assert(follows_order(near@, self@, order));
        }
        near
    }
}

fn ids_ok(entities: &Vec<Entity>, id_acc: i32) -> (ok: bool)
    ensures
        ok == ids_in_order(entities@, id_acc as int),
{
    if id_acc < 0 {
        return false;
    }
    let mut i: usize = 0;
    while i < entities.len()
        invariant
            i <= entities@.len(),
            0 <= id_acc,
            forall|j: int| 0 <= j < i ==> 0 <= (#[trigger] entities@[j]).id < id_acc,
            forall|a: int, b: int|
                0 <= a < b < i ==> (#[trigger] entities@[a]).id < (#[trigger] entities@[b]).id,
        decreases entities@.len() - i,
    {
        let id: i32 = entities[i].id;
        if id < 0 || id >= id_acc {
            return false;
        }
        if i > 0 && entities[i - 1].id >= id {
            return false;
        }
        proof {
            assert forall|a: int, b: int| 0 <= a < b < i + 1 implies (#[trigger] entities@[a]).id < (
            #[trigger] entities@[b]).id by {
                if b == i && a < i - 1 {
                    assert(entities@[a].id < entities@[i - 1].id);
                }
            }
        }
        i += 1;
    }
    true
}

/// After `value` is put in at place `p`, what stood before `p` stands where it
/// stood and what stood from `p` on stands one place further.
proof fn old_places_stay(before: Seq<int>, value: int, p: int)
    requires
        0 <= p <= before.len(),
    ensures
        before.insert(p, value).len() == before.len() + 1,
        before.insert(p, value)[p] == value,
        forall|k: int| 0 <= k < p ==> before.insert(p, value)[k] == before[k],
        forall|k: int| p < k <= before.len() ==> before.insert(p, value)[k] == before[k - 1],
{
}

/// Replacing an entity by one with the same id keeps the ids in order.
pub proof fn lemma_update_keeps_ids(entities: Seq<Entity>, place: int, e: Entity, next_id: int)
    requires
        0 <= place < entities.len(),
        e.id == entities[place].id,
    ensures
        ids_in_order(entities, next_id) ==> ids_in_order(entities.update(place, e), next_id),
{
    if ids_in_order(entities, next_id) {
        let after = entities.update(place, e);
        assert forall|i: int| 0 <= i < after.len() implies 0 <= (#[trigger] after[i]).id
            < next_id by {
            assert(after[i].id == entities[i].id);
        }
        assert forall|i: int, j: int| 0 <= i < j < after.len() implies (#[trigger] after[i]).id < (
        #[trigger] after[j]).id by {
            assert(after[i].id == entities[i].id);
            assert(after[j].id == entities[j].id);
        }
    }
}

proof fn lemma_listing_prefix(
    entities: Seq<Entity>,
    origin: Position,
    max_distance: int,
    docks_only: bool,
    a: Seq<int>,
    b: Seq<int>,
    k: int,
)
    requires
        is_listing(entities, origin, max_distance, docks_only, a),
        is_listing(entities, origin, max_distance, docks_only, b),
        0 <= k <= a.len(),
        k <= b.len(),
    ensures
        forall|j: int| 0 <= j < k ==> a[j] == b[j],
    decreases k,
{
    if k > 0 {
        lemma_listing_prefix(entities, origin, max_distance, docks_only, a, b, k - 1);
        let x = a[k - 1];
        let y = b[k - 1];
        assert(is_listed(entities[x], origin, max_distance, docks_only));
        assert(is_listed(entities[y], origin, max_distance, docks_only));
        let l = choose|l: int| 0 <= l < b.len() && b[l] == x;
        let m = choose|m: int| 0 <= m < a.len() && a[m] == y;
        if l < k - 1 {
            assert(listed_before(entities, origin, a[l], a[k - 1]));
        }
        if m < k - 1 {
            assert(listed_before(entities, origin, b[m], b[k - 1]));
        }
        if l > k - 1 && m > k - 1 {
            assert(listed_before(entities, origin, b[k - 1], b[l]));
            assert(listed_before(entities, origin, a[k - 1], a[m]));
        }
    }
}

/// What a listing lists determines the listing: of given entities, around a
/// given origin and up to a given distance, there is one listing only.
pub proof fn lemma_listing_unique(
    entities: Seq<Entity>,
    origin: Position,
    max_distance: int,
    docks_only: bool,
    a: Seq<int>,
    b: Seq<int>,
)
    requires
        is_listing(entities, origin, max_distance, docks_only, a),
        is_listing(entities, origin, max_distance, docks_only, b),
    ensures
        a == b,
{
    let k = if a.len() <= b.len() {
        a.len() as int
    } else {
        b.len() as int
    };
    lemma_listing_prefix(entities, origin, max_distance, docks_only, a, b, k);
    if a.len() < b.len() {
        let y = b[k];
        assert(is_listed(entities[y], origin, max_distance, docks_only));
        let m = choose|m: int| 0 <= m < a.len() && a[m] == y;
        assert(listed_before(entities, origin, b[m], b[k]));
    }
    if b.len() < a.len() {
        let x = a[k];
        assert(is_listed(entities[x], origin, max_distance, docks_only));
        let l = choose|l: int| 0 <= l < b.len() && b[l] == x;
        assert(listed_before(entities, origin, a[l], a[k]));
    }
    assert(a =~= b);
}

/// The entities after each of `new` is added in turn to `entities`, the first
/// of them under the id `next_id`.
pub open spec fn added_all(entities: Seq<Entity>, next_id: int, new: Seq<Entity>) -> Seq<Entity>
    decreases new.len(),
{
    if new.len() == 0 {
        entities
    } else {
        added_all(entities, next_id, new.drop_last()).push(
            Entity { id: (next_id + new.len() - 1) as i32, ..new.last() },
        )
    }
}

/// However many entities are added, each gets the id after the one before
/// it, and what was in the registry stays as it was. The ids of the whole
/// registry are then in order still: pairwise distinct, and growing strictly
/// in the order of addition.
pub proof fn lemma_added_ids(entities: Seq<Entity>, next_id: int, new: Seq<Entity>)
    requires
        ids_in_order(entities, next_id),
        next_id + new.len() <= i32::MAX,
    ensures
        added_all(entities, next_id, new).len() == entities.len() + new.len(),
        ids_in_order(added_all(entities, next_id, new), next_id + new.len()),
        forall|i: int|
            0 <= i < entities.len() ==> (#[trigger] added_all(entities, next_id, new)[i])
                == entities[i],
        forall|k: int|
            0 <= k < new.len() ==> (#[trigger] added_all(entities, next_id, new)[entities.len()
                + k]) == (Entity { id: (next_id + k) as i32, ..new[k] }),
    decreases new.len(),
{
    if new.len() > 0 {
        lemma_added_ids(entities, next_id, new.drop_last());
        let before = added_all(entities, next_id, new.drop_last());
        let after = added_all(entities, next_id, new);
        assert forall|k: int| 0 <= k < new.len() implies (#[trigger] after[entities.len() + k]) == (
        Entity { id: (next_id + k) as i32, ..new[k] }) by {
            if k < new.len() - 1 {
                assert(after[entities.len() + k] == before[entities.len() + k]);
                assert(new.drop_last()[k] == new[k]);
            }
        }
        assert forall|i: int| 0 <= i < after.len() implies 0 <= (#[trigger] after[i]).id < next_id
            + new.len() by {
            if i < before.len() {
                assert(after[i] == before[i]);
            }
        }
        assert forall|i: int, j: int| 0 <= i < j < after.len() implies (#[trigger] after[i]).id < (
        #[trigger] after[j]).id by {
            assert(after[i] == before[i]);
            if j < before.len() {
                assert(after[j] == before[j]);
            }
        }
    }
}

/// What a registry in order saves, it loads again: its snapshot has no
/// fault, so that `restore` gives a registry with the same entities, in the
/// same order, and the same counter.
pub proof fn lemma_snapshot_restores(list: EntityList)
    requires
        list.wf(),
        forall|i: int| 0 <= i < list@.len() ==> (#[trigger] list@[i]).wf(),
    ensures
        snapshot_fault(list@, list.next_id()) is None,
{
}

} // verus!
