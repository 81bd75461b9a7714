//! Rows of the `themes` table. The store keeps a theme's tags as JSON in
//! one column; a row here holds them decoded, or `None` where the stored
//! JSON is not a list of tags.

use crate::common::models::theme::{NewTheme, Tag, Theme, ThemeType};
use vstd::prelude::*;
use vstd::string::*;

verus! {

/// A theme row, as read and as written by an update. The key phrase is the
/// theme's mystery or identity, the degrade its fade or crack.
#[derive(Debug, PartialEq)]
pub struct ThemeDbModel {
    pub id: u64,
    pub theme_descriptor: String,
    pub title: String,
    pub key_phrase: String,
    pub theme_type: ThemeType,
    pub attention: u8,
    pub degrade: u8,
    pub tags: Option<Vec<Tag>>,
}

/// A theme row to insert; the store gives it its id.
#[derive(Debug, PartialEq)]
pub struct ThemeInsertModel {
    pub theme_descriptor: String,
    pub title: String,
    pub key_phrase: String,
    pub theme_type: ThemeType,
    pub attention: u8,
    pub degrade: u8,
    pub tags: Vec<Tag>,
}

/// The row that stores a theme.
pub open spec fn theme_row(t: Theme) -> ThemeDbModel {
    ThemeDbModel {
        id: t.id,
        theme_descriptor: t.theme_descriptor,
        title: t.title,
        key_phrase: t.mystery_or_identity,
        theme_type: t.theme_type,
        attention: t.attention,
        degrade: t.fade_or_crack,
        tags: Some(t.tags),
    }
}

/// The theme a row with decodable tags stands for.
pub open spec fn row_theme(row: ThemeDbModel) -> Theme {
    Theme {
        id: row.id,
        theme_descriptor: row.theme_descriptor,
        title: row.title,
        mystery_or_identity: row.key_phrase,
        theme_type: row.theme_type,
        attention: row.attention,
        fade_or_crack: row.degrade,
        tags: row.tags->0,
    }
}

impl ThemeInsertModel {
    /// The row that stores a new theme.
    pub fn from_new(new_theme: NewTheme) -> (r: ThemeInsertModel)
        ensures
            r == (ThemeInsertModel {
                theme_descriptor: new_theme.theme_descriptor,
                title: new_theme.title,
                key_phrase: new_theme.mystery_or_identity,
                theme_type: new_theme.theme_type,
                attention: new_theme.attention,
                degrade: new_theme.fade_or_crack,
                tags: new_theme.tags,
            }),
    {
        ThemeInsertModel {
            theme_descriptor: new_theme.theme_descriptor,
            title: new_theme.title,
            key_phrase: new_theme.mystery_or_identity,
            theme_type: new_theme.theme_type,
            attention: new_theme.attention,
            degrade: new_theme.fade_or_crack,
            tags: new_theme.tags,
        }
    }
}

/// The message of the error a row with undecodable tags gives.
pub open spec fn tags_error_message() -> Seq<char> {
    "Couldn't deserialize 'tags' field."@
}

impl ThemeDbModel {
    /// The row that stores a theme.
    pub fn from_theme(theme: Theme) -> (r: ThemeDbModel)
        ensures
            r == theme_row(theme),
    {
        ThemeDbModel {
            id: theme.id,
            theme_descriptor: theme.theme_descriptor,
            title: theme.title,
            key_phrase: theme.mystery_or_identity,
            theme_type: theme.theme_type,
            attention: theme.attention,
            degrade: theme.fade_or_crack,
            tags: Some(theme.tags),
        }
    }

    /// The theme a row stands for; an error when its tags do not decode.
    pub fn try_into_theme(self) -> (r: Result<Theme, String>)
        ensures
            self.tags is Some ==> r == Ok::<Theme, String>(row_theme(self)),
            self.tags is None ==> (r matches Err(m) && m@ == tags_error_message()),
    {
        match self.tags {
            Some(tags) => Ok(Theme {
                id: self.id,
                theme_descriptor: self.theme_descriptor,
                title: self.title,
                mystery_or_identity: self.key_phrase,
                theme_type: self.theme_type,
                attention: self.attention,
                fade_or_crack: self.degrade,
                tags,
            }),
            None => {
                proof { reveal_strlit("Couldn't deserialize 'tags' field."); }
                Err(String::from_str("Couldn't deserialize 'tags' field."))
            },
        }
    }
}

/// Storing a theme and reading the row back gives the same theme.
pub proof fn lemma_theme_row_round_trip(t: Theme)
    ensures
        row_theme(theme_row(t)) == t,
        theme_row(t).tags is Some,
{
}

} // verus!
