//! The `character_theme` table: which themes belong to which character.

use crate::entity::active_value::ActiveValue;
use vstd::prelude::*;

verus! {

/// A stored link between a character and one of its themes.
#[derive(Debug, PartialEq, Eq, Structural, Clone, Copy)]
pub struct Model {
    pub character_id: i32,
    pub theme_id: i32,
}

/// The columns an insert of a link writes.
#[derive(Debug, PartialEq)]
pub struct ActiveModel {
    pub character_id: ActiveValue<i32>,
    pub theme_id: ActiveValue<i32>,
}

/// The tables a link row points to.
#[derive(Debug, PartialEq, Eq, Structural, Clone, Copy)]
pub enum Relation {
    Character,
    Theme,
}

} // verus!
