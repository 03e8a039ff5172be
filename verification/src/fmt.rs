//! Amounts as text, each with its unit.

use crate::text::{decimal, push_decimal};
use vstd::prelude::*;
use vstd::string::*;

verus! {

/// An amount of credits.
pub fn credit(amount: &i32) -> (s: String)
    ensures
        s@ == "⧫"@ + decimal(*amount as int),
{
    let mut s = String::from_str("⧫");
    push_decimal(&mut s, *amount);
    s
}

/// A number of pieces.
pub fn peice(amount: &i32) -> (s: String)
    ensures
        s@ == decimal(*amount as int) + "pc"@,
{
    let mut s = String::new();
    push_decimal(&mut s, *amount);
    s.append("pc");
    assert(s@ =~= decimal(*amount as int) + "pc"@);
    s
}

/// An amount of fuel.
pub fn fuel(amount: &i32) -> (s: String)
    ensures
        s@ == decimal(*amount as int) + "g"@,
{
    let mut s = String::new();
    push_decimal(&mut s, *amount);
    s.append("g");
    assert(s@ =~= decimal(*amount as int) + "g"@);
    s
}

/// A distance in light years.
pub fn distance(amount: &i32) -> (s: String)
    ensures
        s@ == decimal(*amount as int) + "ly"@,
{
    let mut s = String::new();
    push_decimal(&mut s, *amount);
    s.append("ly");
    assert(s@ =~= decimal(*amount as int) + "ly"@);
    s
}

/// The id of an entity.
pub fn ent_id(id: &i32) -> (s: String)
    ensures
        s@ == "#"@ + decimal(*id as int),
{
    let mut s = String::from_str("#");
    push_decimal(&mut s, *id);
    s
}

} // verus!
