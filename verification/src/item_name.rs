//! The closed set of trade-good kinds.

use vstd::prelude::*;

verus! {

/// A kind of trade good: one of three materials in one of three grades.
#[derive(Hash, Eq, PartialEq, Debug, Clone, Copy, Structural)]
pub enum ItemName {
    MetalLow,
    MetalMid,
    MetalHigh,
    CompositeLow,
    CompositeMid,
    CompositeHigh,
    PolymerLow,
    PolymerMid,
    PolymerHigh,
}

/// How many kinds there are.
pub const ITEM_COUNT: usize = 9;

impl ItemName {
    /// The place of a kind in the catalog order.
    pub open spec fn ord(self) -> int {
        match self {
            ItemName::MetalLow => 0,
            ItemName::MetalMid => 1,
            ItemName::MetalHigh => 2,
            ItemName::CompositeLow => 3,
            ItemName::CompositeMid => 4,
            ItemName::CompositeHigh => 5,
            ItemName::PolymerLow => 6,
            ItemName::PolymerMid => 7,
            ItemName::PolymerHigh => 8,
        }
    }

    /// The kind at a place of the catalog order.
    pub open spec fn at(i: int) -> ItemName {
        if i == 0 {
            ItemName::MetalLow
        } else if i == 1 {
            ItemName::MetalMid
        } else if i == 2 {
            ItemName::MetalHigh
        } else if i == 3 {
            ItemName::CompositeLow
        } else if i == 4 {
            ItemName::CompositeMid
        } else if i == 5 {
            ItemName::CompositeHigh
        } else if i == 6 {
            ItemName::PolymerLow
        } else if i == 7 {
            ItemName::PolymerMid
        } else {
            ItemName::PolymerHigh
        }
    }

    /// The canonical token of a kind: its name as written in the source.
    pub open spec fn token_text(self) -> Seq<char> {
        match self {
            ItemName::MetalLow => "MetalLow"@,
            ItemName::MetalMid => "MetalMid"@,
            ItemName::MetalHigh => "MetalHigh"@,
            ItemName::CompositeLow => "CompositeLow"@,
            ItemName::CompositeMid => "CompositeMid"@,
            ItemName::CompositeHigh => "CompositeHigh"@,
            ItemName::PolymerLow => "PolymerLow"@,
            ItemName::PolymerMid => "PolymerMid"@,
            ItemName::PolymerHigh => "PolymerHigh"@,
        }
    }

    /// The place of this kind in the catalog order.
    pub fn index(&self) -> (i: usize)
        ensures
            i == self.ord(),
            i < ITEM_COUNT,
    {
        match self {
            ItemName::MetalLow => 0,
            ItemName::MetalMid => 1,
            ItemName::MetalHigh => 2,
            ItemName::CompositeLow => 3,
            ItemName::CompositeMid => 4,
            ItemName::CompositeHigh => 5,
            ItemName::PolymerLow => 6,
            ItemName::PolymerMid => 7,
            ItemName::PolymerHigh => 8,
        }
    }

    /// The kind at place `i` of the catalog order.
    pub fn from_index(i: usize) -> (kind: ItemName)
        requires
            i < ITEM_COUNT,
        ensures
            kind == ItemName::at(i as int),
            kind.ord() == i,
    {
        if i == 0 {
            ItemName::MetalLow
        } else if i == 1 {
            ItemName::MetalMid
        } else if i == 2 {
            ItemName::MetalHigh
        } else if i == 3 {
            ItemName::CompositeLow
        } else if i == 4 {
            ItemName::CompositeMid
        } else if i == 5 {
            ItemName::CompositeHigh
        } else if i == 6 {
            ItemName::PolymerLow
        } else if i == 7 {
            ItemName::PolymerMid
        } else {
            ItemName::PolymerHigh
        }
    }

    /// The canonical token of this kind.
    pub fn token(&self) -> (s: &'static str)
        ensures
            s@ == self.token_text(),
    {
        match self {
            ItemName::MetalLow => "MetalLow",
            ItemName::MetalMid => "MetalMid",
            ItemName::MetalHigh => "MetalHigh",
            ItemName::CompositeLow => "CompositeLow",
            ItemName::CompositeMid => "CompositeMid",
            ItemName::CompositeHigh => "CompositeHigh",
            ItemName::PolymerLow => "PolymerLow",
            ItemName::PolymerMid => "PolymerMid",
            ItemName::PolymerHigh => "PolymerHigh",
        }
    }
}

/// The catalog order names every kind once: `ord` and `at` are inverse to each
/// other on the places `0..ITEM_COUNT`.
pub proof fn lemma_catalog_order(kind: ItemName, i: int)
    ensures
        0 <= kind.ord() < ITEM_COUNT,
        ItemName::at(kind.ord()) == kind,
        0 <= i < ITEM_COUNT ==> ItemName::at(i).ord() == i,
{
}

/// Every kind, in catalog order.
pub fn item_names() -> (names: Vec<ItemName>)
    ensures
        names@.len() == ITEM_COUNT,
        forall|i: int| 0 <= i < ITEM_COUNT ==> names@[i] == ItemName::at(i),
{
    let mut names: Vec<ItemName> = Vec::new();
    let mut i: usize = 0;
    while i < ITEM_COUNT
        invariant
            i <= ITEM_COUNT,
            names@.len() == i,
            forall|j: int| 0 <= j < i ==> names@[j] == ItemName::at(j),
        decreases ITEM_COUNT - i,
    {
        names.push(ItemName::from_index(i));
        i += 1;
    }
    names
}

} // verus!
