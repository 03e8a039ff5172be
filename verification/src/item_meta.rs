//! The item catalog: static metadata of every trade-good kind.

use crate::item_name::{lemma_catalog_order, ItemName, ITEM_COUNT};
use vstd::prelude::*;
use vstd::string::*;

verus! {

/// The volume that one unit of a kind takes in a hold.
pub open spec fn unit_volume(kind: ItemName) -> int {
    match kind {
        ItemName::MetalLow => 10,
        ItemName::MetalMid => 20,
        ItemName::MetalHigh => 30,
        ItemName::CompositeLow => 15,
        ItemName::CompositeMid => 25,
        ItemName::CompositeHigh => 35,
        ItemName::PolymerLow => 12,
        ItemName::PolymerMid => 22,
        ItemName::PolymerHigh => 32,
    }
}

/// The base value of one unit of a kind.
pub open spec fn base_value(kind: ItemName) -> int {
    match kind {
        ItemName::MetalLow => 10,
        ItemName::MetalMid => 20,
        ItemName::MetalHigh => 30,
        ItemName::CompositeLow => 25,
        ItemName::CompositeMid => 35,
        ItemName::CompositeHigh => 45,
        ItemName::PolymerLow => 20,
        ItemName::PolymerMid => 30,
        ItemName::PolymerHigh => 40,
    }
}

/// The rarity of a kind, on a scale of 1 to 100.
pub open spec fn rarity_of(kind: ItemName) -> int {
    match kind {
        ItemName::MetalLow => 1,
        ItemName::MetalMid => 2,
        ItemName::MetalHigh => 3,
        ItemName::CompositeLow => 10,
        ItemName::CompositeMid => 20,
        ItemName::CompositeHigh => 30,
        ItemName::PolymerLow => 10,
        ItemName::PolymerMid => 20,
        ItemName::PolymerHigh => 30,
    }
}

/// The display name of a kind.
pub open spec fn display_name(kind: ItemName) -> Seq<char> {
    match kind {
        ItemName::MetalLow => "Metals (low grade)"@,
        ItemName::MetalMid => "Metals (mid grade)"@,
        ItemName::MetalHigh => "Metals (high grade)"@,
        ItemName::CompositeLow => "Composites (low grade)"@,
        ItemName::CompositeMid => "Composites (mid grade)"@,
        ItemName::CompositeHigh => "Composites (high grade)"@,
        ItemName::PolymerLow => "Polymers (low grade)"@,
        ItemName::PolymerMid => "Polymers (mid grade)"@,
        ItemName::PolymerHigh => "Polymers (high grade)"@,
    }
}

/// The volume that one unit of `kind` takes in a hold.
pub fn vol_per_unit(kind: ItemName) -> (v: i32)
    ensures
        v == unit_volume(kind),
        0 < v <= 35,
{
    match kind {
        ItemName::MetalLow => 10,
        ItemName::MetalMid => 20,
        ItemName::MetalHigh => 30,
        ItemName::CompositeLow => 15,
        ItemName::CompositeMid => 25,
        ItemName::CompositeHigh => 35,
        ItemName::PolymerLow => 12,
        ItemName::PolymerMid => 22,
        ItemName::PolymerHigh => 32,
    }
}

/// The base value of one unit of `kind`.
pub fn base_val_of(kind: ItemName) -> (v: i32)
    ensures
        v == base_value(kind),
        0 < v <= 45,
{
    match kind {
        ItemName::MetalLow => 10,
        ItemName::MetalMid => 20,
        ItemName::MetalHigh => 30,
        ItemName::CompositeLow => 25,
        ItemName::CompositeMid => 35,
        ItemName::CompositeHigh => 45,
        ItemName::PolymerLow => 20,
        ItemName::PolymerMid => 30,
        ItemName::PolymerHigh => 40,
    }
}

/// The metadata of one kind.
#[derive(Debug)]
pub struct ItemMeta {
    pub fname: String,
    pub vol_pc: i32,
    pub base_val: i32,
    pub rarity: i32,
}

impl ItemMeta {
    /// This record is the catalog entry of `kind`.
    pub open spec fn describes(&self, kind: ItemName) -> bool {
        &&& self.fname@ == display_name(kind)
        &&& self.vol_pc == unit_volume(kind)
        &&& self.base_val == base_value(kind)
        &&& self.rarity == rarity_of(kind)
    }

    /// The catalog entry of `kind`.
    pub fn of(kind: ItemName) -> (meta: ItemMeta)
        ensures
            meta.describes(kind),
    {
        let (fname, rarity): (&str, i32) = match kind {
            ItemName::MetalLow => ("Metals (low grade)", 1),
            ItemName::MetalMid => ("Metals (mid grade)", 2),
            ItemName::MetalHigh => ("Metals (high grade)", 3),
            ItemName::CompositeLow => ("Composites (low grade)", 10),
            ItemName::CompositeMid => ("Composites (mid grade)", 20),
            ItemName::CompositeHigh => ("Composites (high grade)", 30),
            ItemName::PolymerLow => ("Polymers (low grade)", 10),
            ItemName::PolymerMid => ("Polymers (mid grade)", 20),
            ItemName::PolymerHigh => ("Polymers (high grade)", 30),
        };
        ItemMeta {
            fname: String::from_str(fname),
            vol_pc: vol_per_unit(kind),
            base_val: base_val_of(kind),
            rarity,
        }
    }
}

/// The lowercase form of a text, as `str::to_lowercase` gives it.
pub uninterp spec fn lowercase(s: Seq<char>) -> Seq<char>;

/// `str::to_lowercase`: the result is a function of the text alone, named
/// `lowercase` here; nothing more is claimed of it.
#[verifier::external_body]
fn to_lowercase(s: &str) -> (r: String)
    ensures
        r@ == lowercase(s@),
{
    s.to_lowercase()
}

/// `query` names `kind`: it equals the kind's canonical token once both are
/// put in lowercase.
pub open spec fn names_kind(query: Seq<char>, kind: ItemName) -> bool {
    lowercase(kind.token_text()) == lowercase(query)
}

/// The first place `i` with `texts[i] == wanted`, if there is one.
pub open spec fn first_equal(texts: Seq<Seq<char>>, wanted: Seq<char>) -> Option<int> {
    if exists|i: int| 0 <= i < texts.len() && texts[i] == wanted {
        Some(
            choose|i: int|
                0 <= i < texts.len() && texts[i] == wanted && forall|j: int|
                    0 <= j < i ==> texts[j] != wanted,
        )
    } else {
        None
    }
}

/// The first kind, in catalog order, that `query` names.
pub open spec fn kind_named(query: Seq<char>) -> Option<ItemName> {
    match first_equal(Seq::new(ITEM_COUNT as nat, |i: int| lowercase(ItemName::at(i).token_text())), lowercase(query)) {
        Some(i) => Some(ItemName::at(i)),
        None => None,
    }
}

/// The place of the first text in `texts` that equals `wanted`.
pub fn find_text(texts: &Vec<String>, wanted: &String) -> (found: Option<usize>)
    ensures
        match found {
            Some(i) => i < texts@.len() && texts@[i as int]@ == wanted@ && forall|j: int|
                0 <= j < i ==> texts@[j]@ != wanted@,
            None => forall|j: int| 0 <= j < texts@.len() ==> texts@[j]@ != wanted@,
        },
        found == match first_equal(texts@.map_values(|t: String| t@), wanted@) {
            Some(i) => Some(i as usize),
            None => None,
        },
{
    let ghost views = texts@.map_values(|t: String| t@);
    let mut i: usize = 0;
    while i < texts.len()
        invariant
            i <= texts@.len(),
            views == texts@.map_values(|t: String| t@),
            forall|j: int| 0 <= j < i ==> texts@[j]@ != wanted@,
        decreases texts@.len() - i,
    {
        if texts[i] == *wanted {
            proof {
                assert(views[i as int] == wanted@);
                let c = choose|k: int|
                    0 <= k < views.len() && views[k] == wanted@ && forall|j: int|
                        0 <= j < k ==> views[j] != wanted@;
                assert(forall|j: int| 0 <= j < i ==> views[j] != wanted@);
                assert(c == i);
            }
            return Some(i);
        }
        i += 1;
    }
    proof {
        assert(forall|j: int| 0 <= j < views.len() ==> views[j] != wanted@);
    }
    None
}

/// The catalog: the metadata of every kind, in catalog order.
pub struct InvListMeta(Vec<ItemMeta>);

impl InvListMeta {
    #[verifier::type_invariant]
    spec fn complete(self) -> bool {
        &&& self.0@.len() == ITEM_COUNT
        &&& forall|i: int| 0 <= i < ITEM_COUNT ==> (#[trigger] self.0@[i]).describes(ItemName::at(i))
    }

    /// The entry that the catalog holds for `kind`.
    pub closed spec fn entry(&self, kind: ItemName) -> ItemMeta {
        self.0@[kind.ord()]
    }

    /// Builds the catalog.
    pub fn new() -> (catalog: InvListMeta)
        ensures
            forall|kind: ItemName| (#[trigger] catalog.entry(kind)).describes(kind),
    {
        let mut entries: Vec<ItemMeta> = Vec::new();
        let mut i: usize = 0;
        while i < ITEM_COUNT
            invariant
                i <= ITEM_COUNT,
                entries@.len() == i,
                forall|j: int| 0 <= j < i ==> (#[trigger] entries@[j]).describes(ItemName::at(j)),
            decreases ITEM_COUNT - i,
        {
            entries.push(ItemMeta::of(ItemName::from_index(i)));
            i += 1;
        }
        proof {
            assert forall|kind: ItemName| (#[trigger] entries@[kind.ord()]).describes(kind) by {
                lemma_catalog_order(kind, 0);
            }
        }
        InvListMeta(entries)
    }

    /// The metadata of `item`. Every kind has an entry.
    pub fn get_by_enum(&self, item: &ItemName) -> (found: Option<&ItemMeta>)
        ensures
            found == Some(&self.entry(*item)),
            self.entry(*item).describes(*item),
    {
        proof {
            use_type_invariant(self);
        }
        let i = item.index();
        assert(ItemName::at(i as int) == *item);
        Some(&self.0[i])
    }

    /// The metadata of the kind that `item_str` names, whatever its letter
    /// case; `None` if it names no kind.
    pub fn get_by_str(&self, item_str: &str) -> (found: Option<&ItemMeta>)
        ensures
            match kind_named(item_str@) {
                Some(kind) => found == Some(&self.entry(kind)) && self.entry(kind).describes(kind),
                None => found is None,
            },
    {
        proof {
            use_type_invariant(self);
        }
        let mut lowered: Vec<String> = Vec::new();
        let mut i: usize = 0;
        while i < ITEM_COUNT
            invariant
                i <= ITEM_COUNT,
                lowered@.len() == i,
                forall|j: int|
                    0 <= j < i ==> (#[trigger] lowered@[j])@ == lowercase(
                        ItemName::at(j).token_text(),
                    ),
            decreases ITEM_COUNT - i,
        {
            lowered.push(to_lowercase(ItemName::from_index(i).token()));
            i += 1;
        }
        let wanted = to_lowercase(item_str);
        assert(lowered@.map_values(|t: String| t@) =~= Seq::new(
            ITEM_COUNT as nat,
            |i: int| lowercase(ItemName::at(i).token_text()),
        ));
        match find_text(&lowered, &wanted) {
            Some(i) => Some(&self.0[i]),
            None => None,
        }
    }
}

} // verus!
