//! Making stations.

use crate::chance::{random_below, random_between};
use crate::entity::{Entity, EntityClass};
use crate::inv_store::InvStore;
use crate::item_meta::{base_val_of, base_value};
use crate::item_name::{lemma_catalog_order, ItemName, ITEM_COUNT};
use crate::jump_drive::JumpDrive;
use crate::pos::Position;
use crate::univ::GAL_SIZE;
use vstd::prelude::*;
use vstd::string::*;

verus! {

/// The least and the bound of what a station adds to a base value to make its
/// ask price: the addition lies in `PRICE_LOW..PRICE_HIGH`.
pub const PRICE_LOW: i32 = -5;

pub const PRICE_HIGH: i32 = 15;

/// A station name: three names joined by hyphens.
pub open spec fn station_name(first: Seq<char>, second: Seq<char>, third: Seq<char>) -> Seq<char> {
    first + "-"@ + second + "-"@ + third
}

/// What every new station has, whatever chance gave it: the class, a dock,
/// and otherwise what a new entity has.
pub open spec fn station_shape(e: Entity) -> bool {
    &&& e.wf()
    &&& e.id == 0
    &&& e.class == EntityClass::Station
    &&& e.flags.has_dock
    &&& e.fin.credits == 10000
    &&& e.fin.profit_margin == 20
    &&& e.hold.vol_max == 1000
    &&& e.hold.vol == 0
    &&& (forall|kind: ItemName| e.hold.inv.qty(kind) == 0)
    &&& e.jump_drive == (JumpDrive { fuel_per_ly: 10, max_range: 100, fuel_max: 8000, fuel_cur: 8000 })
    &&& e.docked_id is None
    &&& e.targeting_id is None
}

/// `e` is a station that `station` can have made from `names`: its name
/// joins three of them, it lies in the galaxy, and each ask price is the
/// base value plus something in `PRICE_LOW..PRICE_HIGH`.
pub open spec fn is_station_of(e: Entity, names: Seq<String>) -> bool {
    &&& station_shape(e)
    &&& exists|i: int, j: int, k: int|
        0 <= i < names.len() && 0 <= j < names.len() && 0 <= k < names.len() && e.name@
            == station_name(#[trigger] names[i]@, #[trigger] names[j]@, #[trigger] names[k]@)
    &&& 0 <= e.pos.x < GAL_SIZE
    &&& 0 <= e.pos.y < GAL_SIZE
    &&& forall|kind: ItemName|
        base_value(kind) + PRICE_LOW <= (#[trigger] e.fin.prices.qty(kind)) < base_value(kind)
            + PRICE_HIGH
}

/// The station that the draws make: `picks` are the places of the three
/// names, `markups[i]` is what the kind at place `i` of the catalog order asks
/// above its base value, and `pos` is where the station lies.
pub fn station_from(
    name_list: &Vec<String>,
    picks: (usize, usize, usize),
    markups: &Vec<i32>,
    pos: Position,
) -> (e: Entity)
    requires
        picks.0 < name_list@.len(),
        picks.1 < name_list@.len(),
        picks.2 < name_list@.len(),
        markups@.len() == ITEM_COUNT,
        forall|i: int| 0 <= i < ITEM_COUNT ==> PRICE_LOW <= #[trigger] markups@[i] < PRICE_HIGH,
    ensures
        station_shape(e),
        e.name@ == station_name(
            name_list@[picks.0 as int]@,
            name_list@[picks.1 as int]@,
            name_list@[picks.2 as int]@,
        ),
        e.pos == pos,
        forall|kind: ItemName|
            (#[trigger] e.fin.prices.qty(kind)) == base_value(kind) + markups@[kind.ord()],
{
    let mut name = String::from_str(name_list[picks.0].as_str());
    name.append("-");
    name.append(name_list[picks.1].as_str());
    name.append("-");
    name.append(name_list[picks.2].as_str());
    let mut prices = InvStore::new();
    let mut i: usize = 0;
    while i < ITEM_COUNT
        invariant
            i <= ITEM_COUNT,
            markups@.len() == ITEM_COUNT,
            forall|j: int| 0 <= j < ITEM_COUNT ==> PRICE_LOW <= #[trigger] markups@[j] < PRICE_HIGH,
            forall|kind: ItemName|
                kind.ord() < i ==> (#[trigger] prices.qty(kind)) == base_value(kind)
                    + markups@[kind.ord()],
        decreases ITEM_COUNT - i,
    {
        let kind = ItemName::from_index(i);
        let ghost before = prices;
        prices.set(kind, base_val_of(kind) + markups[i]);
        proof {
            assert forall|k: ItemName| k.ord() < i + 1 implies (#[trigger] prices.qty(k))
                == base_value(k) + markups@[k.ord()] by {
                lemma_catalog_order(k, i as int);
                if k != kind {
                    assert(prices.qty(k) == before.qty(k));
                }
            }
        }
        i += 1;
    }
    let mut e = Entity::new("");
    e.name = name;
    e.fin.prices = prices;
    e.class = EntityClass::Station;
    e.flags.has_dock = true;
    e.set_pos(pos);
    proof {
        assert forall|kind: ItemName|
            (#[trigger] e.fin.prices.qty(kind)) == base_value(kind) + markups@[kind.ord()] by {
            lemma_catalog_order(kind, 0);
        }
    }
    e
}

/// A new station: a name joined from three names drawn from `name_list`, a
/// place drawn from the galaxy, and an ask price for each kind drawn around
/// its base value.
pub fn station(name_list: &Vec<String>) -> (e: Entity)
    requires
        0 < name_list@.len(),
    ensures
        is_station_of(e, name_list@),
{
    let first = random_below(name_list.len());
    let second = random_below(name_list.len());
    let third = random_below(name_list.len());
    let mut markups: Vec<i32> = Vec::new();
    let mut i: usize = 0;
    while i < ITEM_COUNT
        invariant
            i <= ITEM_COUNT,
            markups@.len() == i,
            forall|j: int| 0 <= j < i ==> PRICE_LOW <= #[trigger] markups@[j] < PRICE_HIGH,
        decreases ITEM_COUNT - i,
    {
        markups.push(random_between(PRICE_LOW, PRICE_HIGH));
        i += 1;
    }
    let pos = Position::random(GAL_SIZE);
    let e = station_from(name_list, (first, second, third), &markups, pos);
    proof {
        assert(e.name@ == station_name(
            name_list@[first as int]@,
            name_list@[second as int]@,
            name_list@[third as int]@,
        ));
        assert forall|kind: ItemName|
            base_value(kind) + PRICE_LOW <= (#[trigger] e.fin.prices.qty(kind)) < base_value(kind)
                + PRICE_HIGH by {
            lemma_catalog_order(kind, 0);
        }
    }
    e
}

} // verus!
