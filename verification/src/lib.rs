//! A small persistent universe of spatial entities: a player craft and trading
//! stations that jump on a fuel budget, dock, hold cargo and are listed by
//! distance.

pub mod cargo_hold;
pub mod chance;
pub mod cli;
pub mod entity;
pub mod entity_list;
pub mod entity_maker;
pub mod fmt;
pub mod gm;
pub mod inv_store;
pub mod item_meta;
pub mod item_name;
pub mod jump_drive;
pub mod pos;
pub mod text;
pub mod univ;
