//! Characters as the relational store keeps them.

use crate::common::models::theme::Theme;
use vstd::prelude::*;

verus! {

/// A stored character, without its themes.
#[derive(Debug, PartialEq)]
pub struct Character {
    pub id: u64,
    pub name: String,
    pub mythos: String,
    pub logos: String,
}

impl Clone for Character {
    fn clone(&self) -> (r: Self)
        ensures
            r == *self,
    {
        Character { id: self.id, name: self.name.clone(), mythos: self.mythos.clone(), logos: self.logos.clone() }
    }
}

/// A character to be stored; the store gives it its id.
#[derive(Debug, PartialEq)]
pub struct NewCharacter {
    pub name: String,
    pub mythos: String,
    pub logos: String,
}

/// A character together with its themes.
pub type CharacterWithThemes = (Character, Vec<Theme>);

} // verus!
