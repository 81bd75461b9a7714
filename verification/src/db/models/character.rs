//! Rows of the `characters` table.

use crate::common::models::character::{Character, NewCharacter};
use vstd::prelude::*;

verus! {

/// A character row, as read and as written by an update.
#[derive(Debug, PartialEq)]
pub struct CharacterDbModel {
    pub id: u64,
    pub name: String,
    pub mythos: String,
    pub logos: String,
}

/// A character row to insert; the store gives it its id.
#[derive(Debug, PartialEq)]
pub struct CharacterInsertModel {
    pub name: String,
    pub mythos: String,
    pub logos: String,
}

impl CharacterInsertModel {
    /// The row that stores a new character.
    pub fn from_new(new_character: NewCharacter) -> (r: CharacterInsertModel)
        ensures
            r.name == new_character.name,
            r.mythos == new_character.mythos,
            r.logos == new_character.logos,
    {
        CharacterInsertModel { name: new_character.name, mythos: new_character.mythos, logos: new_character.logos }
    }
}

impl CharacterDbModel {
    /// The row that stores a character.
    pub fn from_character(character: Character) -> (r: CharacterDbModel)
        ensures
            r.id == character.id,
            r.name == character.name,
            r.mythos == character.mythos,
            r.logos == character.logos,
    {
        CharacterDbModel { id: character.id, name: character.name, mythos: character.mythos, logos: character.logos }
    }

    /// The character a row stands for.
    pub fn into_character(self) -> (r: Character)
        ensures
            r.id == self.id,
            r.name == self.name,
            r.mythos == self.mythos,
            r.logos == self.logos,
    {
        Character { id: self.id, name: self.name, mythos: self.mythos, logos: self.logos }
    }
}

/// Storing a character and reading the row back gives the same character.
pub proof fn lemma_character_row_round_trip(c: Character, row: CharacterDbModel, back: Character)
    requires
        row == (CharacterDbModel { id: c.id, name: c.name, mythos: c.mythos, logos: c.logos }),
        back == (Character { id: row.id, name: row.name, mythos: row.mythos, logos: row.logos }),
    ensures
        back == c,
{
}

} // verus!
