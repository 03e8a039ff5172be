//! A quantity for every trade-good kind: stock in a hold, or a price list.

use crate::item_name::{ItemName, ITEM_COUNT};
use vstd::prelude::*;

verus! {

/// `v`, or zero where `v` is negative.
pub open spec fn floor_zero(v: int) -> int {
    if v < 0 {
        0
    } else {
        v
    }
}

/// The quantities `stock` after `delta` is added to the quantity of `item`,
/// with zero as the floor.
pub open spec fn modified(stock: Map<ItemName, int>, item: ItemName, delta: int) -> Map<
    ItemName,
    int,
> {
    stock.insert(item, floor_zero(stock[item] + delta))
}

/// The quantities `stock` after each of `changes`, a kind and what is added to
/// it, is made in turn.
pub open spec fn modified_by_all(stock: Map<ItemName, int>, changes: Seq<(ItemName, int)>) -> Map<
    ItemName,
    int,
>
    decreases changes.len(),
{
    if changes.len() == 0 {
        stock
    } else {
        modified(modified_by_all(stock, changes.drop_last()), changes.last().0, changes.last().1)
    }
}

/// Whatever is added to or taken from a stock, in whatever order, no quantity
/// goes below zero: a kind that was changed holds zero or more, and a kind
/// that held zero or more still does.
pub proof fn lemma_stock_floor(stock: Map<ItemName, int>, changes: Seq<(ItemName, int)>)
    ensures
        forall|kind: ItemName|
            0 <= stock[kind] ==> 0 <= #[trigger] modified_by_all(stock, changes)[kind],
        forall|i: int|
            0 <= i < changes.len() ==> 0 <= #[trigger] modified_by_all(stock, changes)[changes[i].0],
    decreases changes.len(),
{
    if changes.len() > 0 {
        let first = changes.drop_last();
        lemma_stock_floor(stock, first);
        assert forall|i: int| 0 <= i < changes.len() implies 0 <= #[trigger] modified_by_all(
            stock,
            changes,
        )[changes[i].0] by {
            if i < first.len() {
                assert(first[i] == changes[i]);
                assert(0 <= modified_by_all(stock, first)[first[i].0]);
            }
        }
    }
}

/// One integer per kind. No kind is ever absent.
#[derive(Debug, Clone, Copy)]
pub struct InvStore([i32; 9]);

impl InvStore {
    /// The quantity held for `kind`.
    pub closed spec fn qty(&self, kind: ItemName) -> i32 {
        self.0@[kind.ord()]
    }

    /// The store as a total map from kinds to quantities.
    pub open spec fn view(&self) -> Map<ItemName, int> {
        Map::new(|kind: ItemName| true, |kind: ItemName| self.qty(kind) as int)
    }

    /// A store with quantity zero for every kind.
    pub fn new() -> (store: InvStore)
        ensures
            forall|kind: ItemName| store.qty(kind) == 0,
            store@ == Map::new(|kind: ItemName| true, |kind: ItemName| 0int),
    {
        let store = InvStore([0i32; 9]);
        assert(store@ =~= Map::new(|kind: ItemName| true, |kind: ItemName| 0int));
        store
    }

    /// Sets the quantity of `item`, whatever it was.
    pub fn set(&mut self, item: ItemName, quantity: i32)
        ensures
            final(self).qty(item) == quantity,
            forall|kind: ItemName| kind != item ==> final(self).qty(kind) == old(self).qty(kind),
            final(self)@ == old(self)@.insert(item, quantity as int),
    {
        let i = item.index();
        self.0[i] = quantity;
        assert(self@ =~= old(self)@.insert(item, quantity as int));
    }

    /// The quantity of `item`. Every kind has one.
    pub fn get(&self, item: &ItemName) -> (found: Option<&i32>)
        ensures
            found matches Some(q) && *q == self.qty(*item),
    {
        let i = item.index();
        Some(&self.0[i])
    }

    /// Adds `delta` to the quantity of `item`; a result below zero becomes
    /// zero.
    pub fn modify(&mut self, item: ItemName, delta: i32)
        requires
            old(self).qty(item) + delta <= i32::MAX,
        ensures
            final(self).qty(item) == floor_zero(old(self).qty(item) + delta),
            forall|kind: ItemName| kind != item ==> final(self).qty(kind) == old(self).qty(kind),
            final(self)@ == modified(old(self)@, item, delta as int),
    {
        self.adjust(item, delta as i64);
    }

    /// `modify` for a change that need not fit in an `i32`.
    pub(crate) fn adjust(&mut self, item: ItemName, delta: i64)
        requires
            -0x8000_0000 <= delta <= 0x8000_0000,
            old(self).qty(item) + delta <= i32::MAX,
        ensures
            final(self).qty(item) == floor_zero(old(self).qty(item) + delta),
            forall|kind: ItemName| kind != item ==> final(self).qty(kind) == old(self).qty(kind),
            final(self)@ == modified(old(self)@, item, delta as int),
    {
        let i = item.index();
        let sum: i64 = self.0[i] as i64 + delta;
        if sum < 0 {
            self.0[i] = 0;
        } else {
            self.0[i] = sum as i32;
        }
        assert(self@ =~= modified(old(self)@, item, delta as int));
    }

    /// Every kind with its quantity, in catalog order.
    pub fn items(&self) -> (list: Vec<(ItemName, i32)>)
        ensures
            list@.len() == ITEM_COUNT,
            forall|i: int|
                0 <= i < ITEM_COUNT ==> (#[trigger] list@[i]).0 == ItemName::at(i) && list@[i].1
                    == self.qty(ItemName::at(i)),
    {
        let mut list: Vec<(ItemName, i32)> = Vec::new();
        let mut i: usize = 0;
        while i < ITEM_COUNT
            invariant
                i <= ITEM_COUNT,
                list@.len() == i,
                forall|j: int|
                    0 <= j < i ==> (#[trigger] list@[j]).0 == ItemName::at(j) && list@[j].1
                        == self.qty(ItemName::at(j)),
            decreases ITEM_COUNT - i,
        {
            let kind = ItemName::from_index(i);
            list.push((kind, self.0[i]));
            i += 1;
        }
        list
    }
}

} // verus!
