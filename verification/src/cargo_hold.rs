//! A cargo hold: stock per kind, a capacity, and the volume the stock takes.

use crate::inv_store::{modified, InvStore};
use crate::item_meta::{unit_volume, vol_per_unit};
use crate::item_name::{lemma_catalog_order, ItemName, ITEM_COUNT};
use vstd::prelude::*;

verus! {

/// The volume taken by the first `n` kinds of the catalog order.
pub open spec fn load_upto(inv: InvStore, n: int) -> int
    decreases n,
{
    if n <= 0 {
        0
    } else {
        load_upto(inv, n - 1) + unit_volume(ItemName::at(n - 1)) * inv.qty(ItemName::at(n - 1))
    }
}

/// The volume that a stock takes: the sum over all kinds of unit volume times
/// quantity.
pub open spec fn load(inv: InvStore) -> int {
    load_upto(inv, ITEM_COUNT as int)
}

/// `v`, held at the nearest `i32` where it is none.
pub open spec fn held_in_i32(v: int) -> int {
    if v < i32::MIN {
        i32::MIN as int
    } else if v > i32::MAX {
        i32::MAX as int
    } else {
        v
    }
}

/// The occupied volume that a hold with the stock `inv` shows: the volume of
/// the stock, held at the nearest `i32` where it is none.
pub open spec fn occupied(inv: InvStore) -> int {
    held_in_i32(load(inv))
}

/// What a stock of `v` units is held as: nothing where `v` is negative, and
/// `i32::MAX` units where `v` is more than that.
pub open spec fn stock_level(v: int) -> int {
    if v < 0 {
        0
    } else if v > i32::MAX {
        i32::MAX as int
    } else {
        v
    }
}

/// A hold. `vol_max` is advisory: nothing refuses stock beyond it.
#[derive(Debug, Clone, Copy)]
pub struct CargoHold {
    pub vol_max: i32,
    pub vol: i32,
    pub inv: InvStore,
}

impl CargoHold {
    /// No quantity is negative.
    pub open spec fn stock_ok(&self) -> bool {
        forall|kind: ItemName| 0 <= self.inv.qty(kind)
    }

    /// No quantity is negative and `vol` is the occupied volume of the stock.
    pub open spec fn wf(&self) -> bool {
        &&& self.stock_ok()
        &&& self.vol == occupied(self.inv)
    }

    /// The quantity of `item` after `delta` is added to it.
    pub open spec fn qty_after(&self, item: ItemName, delta: int) -> int {
        stock_level(self.inv.qty(item) + delta)
    }

    /// Whether the hold is in order.
    pub fn is_valid(&self) -> (valid: bool)
        ensures
            valid == self.wf(),
    {
        let mut i: usize = 0;
        while i < ITEM_COUNT
            invariant
                i <= ITEM_COUNT,
                forall|kind: ItemName| kind.ord() < i ==> 0 <= self.inv.qty(kind),
            decreases ITEM_COUNT - i,
        {
            let kind = ItemName::from_index(i);
            if held_of(&self.inv, kind) < 0 {
                return false;
            }
            proof {
                assert forall|k: ItemName| k.ord() < i + 1 implies 0 <= self.inv.qty(k) by {
                    lemma_catalog_order(k, i as int);
                }
            }
            i += 1;
        }
        proof {
            assert forall|k: ItemName| 0 <= self.inv.qty(k) by {
                lemma_catalog_order(k, 0);
            }
        }
        self.vol == shown_load(&self.inv)
    }

    /// An empty hold of the given capacity.
    pub fn new(vol_max: i32) -> (hold: CargoHold)
        ensures
            hold.wf(),
            hold.vol_max == vol_max,
            hold.vol == 0,
            forall|kind: ItemName| hold.inv.qty(kind) == 0,
    {
        let hold = CargoHold { vol_max, vol: 0, inv: InvStore::new() };
        proof {
            lemma_load_zero(hold.inv, ITEM_COUNT as int);
        }
        hold
    }

    /// Adds `quantity` units of `item`; the stock of a kind never goes below
    /// zero. The occupied volume follows. Nothing is refused: what an `i32`
    /// cannot hold is held at `i32::MAX`.
    pub fn insert(&mut self, item: ItemName, quantity: i32)
        ensures
            final(self).vol_max == old(self).vol_max,
            final(self).inv.qty(item) == old(self).qty_after(item, quantity as int),
            0 <= final(self).inv.qty(item),
            forall|kind: ItemName|
                kind != item ==> final(self).inv.qty(kind) == old(self).inv.qty(kind),
            final(self).vol == occupied(final(self).inv),
            old(self).stock_ok() ==> final(self).wf(),
            old(self).inv.qty(item) + quantity <= i32::MAX ==> final(self).inv@ == modified(
                old(self).inv@,
                item,
                quantity as int,
            ),
    {
        self.change(item, quantity as i64);
    }

    /// Takes `quantity` units of `item` out; the same as inserting
    /// `-quantity`.
    pub fn remove(&mut self, item: ItemName, quantity: i32)
        ensures
            final(self).vol_max == old(self).vol_max,
            final(self).inv.qty(item) == old(self).qty_after(item, -(quantity as int)),
            0 <= final(self).inv.qty(item),
            forall|kind: ItemName|
                kind != item ==> final(self).inv.qty(kind) == old(self).inv.qty(kind),
            final(self).vol == occupied(final(self).inv),
            old(self).stock_ok() ==> final(self).wf(),
            old(self).inv.qty(item) - quantity <= i32::MAX ==> final(self).inv@ == modified(
                old(self).inv@,
                item,
                -(quantity as int),
            ),
    {
        self.change(item, -(quantity as i64));
    }

    fn change(&mut self, item: ItemName, delta: i64)
        requires
            -0x8000_0000 <= delta <= 0x8000_0000,
        ensures
            final(self).vol_max == old(self).vol_max,
            final(self).inv.qty(item) == old(self).qty_after(item, delta as int),
            forall|kind: ItemName|
                kind != item ==> final(self).inv.qty(kind) == old(self).inv.qty(kind),
            final(self).vol == occupied(final(self).inv),
            old(self).inv.qty(item) + delta <= i32::MAX ==> final(self).inv@ == modified(
                old(self).inv@,
                item,
                delta as int,
            ),
    {
        if held_of(&self.inv, item) as i64 + delta > 0x7fff_ffff {
            self.inv.set(item, 0x7fff_ffff);
        } else {
            self.inv.adjust(item, delta);
        }
        self.calc_vol();
    }

    fn calc_vol(&mut self)
        ensures
            final(self).inv == old(self).inv,
            final(self).vol_max == old(self).vol_max,
            final(self).vol == occupied(old(self).inv),
    {
        self.vol = shown_load(&self.inv);
    }
}

fn held_of(inv: &InvStore, kind: ItemName) -> (q: i32)
    ensures
        q == inv.qty(kind),
{
    match inv.get(&kind) {
        Some(q) => *q,
        None => 0,
    }
}

fn shown_load(inv: &InvStore) -> (vol: i32)
    ensures
        vol == occupied(*inv),
{
    let mut total: i64 = 0;
    let mut i: usize = 0;
    while i < ITEM_COUNT
        invariant
            i <= ITEM_COUNT,
            total == load_upto(*inv, i as int),
            -(i * 0x18_0000_0000) <= total <= i * 0x18_0000_0000,
        decreases ITEM_COUNT - i,
    {
        let kind = ItemName::from_index(i);
        let qty: i32 = held_of(inv, kind);
        assert(-0x18_0000_0000 <= unit_volume(kind) * qty <= 0x18_0000_0000) by (nonlinear_arith)
            requires
                0 <= unit_volume(kind) <= 35,
                -0x8000_0000 <= qty <= 0x7fff_ffff,
        ;
        total = total + (vol_per_unit(kind) as i64) * (qty as i64);
        i += 1;
    }
    if total > 0x7fff_ffff {
        0x7fff_ffff
    } else if total < -0x8000_0000 {
        -0x8000_0000
    } else {
        total as i32
    }
}

proof fn lemma_load_zero(inv: InvStore, n: int)
    requires
        0 <= n <= ITEM_COUNT,
        forall|kind: ItemName| inv.qty(kind) == 0,
    ensures
        load_upto(inv, n) == 0,
    decreases n,
{
    if n > 0 {
        lemma_load_zero(inv, n - 1);
    }
}

} // verus!
