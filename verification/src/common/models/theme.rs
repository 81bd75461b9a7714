//! Themes as the relational store keeps them.

use vstd::prelude::*;

pub use crate::common::theme::{Tag, ThemeType};

verus! {

/// A stored theme.
#[derive(Debug, PartialEq)]
pub struct Theme {
    pub id: u64,
    pub theme_descriptor: String,
    pub title: String,
    pub mystery_or_identity: String,
    pub theme_type: ThemeType,
    pub attention: u8,
    pub fade_or_crack: u8,
    pub tags: Vec<Tag>,
}

/// A theme to be stored; the store gives it its id.
#[derive(Debug, PartialEq)]
pub struct NewTheme {
    pub theme_descriptor: String,
    pub title: String,
    pub mystery_or_identity: String,
    pub theme_type: ThemeType,
    pub attention: u8,
    pub fade_or_crack: u8,
    pub tags: Vec<Tag>,
}

impl Default for NewTheme {
    /// An empty extra theme with no tags.
    fn default() -> (r: Self)
        ensures
            r.theme_descriptor@ == Seq::<char>::empty(),
            r.title@ == Seq::<char>::empty(),
            r.mystery_or_identity@ == Seq::<char>::empty(),
            r.theme_type == ThemeType::Extra,
            r.attention == 0,
            r.fade_or_crack == 0,
            r.tags@ == Seq::<Tag>::empty(),
    {
        NewTheme {
            theme_descriptor: String::new(),
            title: String::new(),
            mystery_or_identity: String::new(),
            theme_type: ThemeType::Extra,
            attention: 0,
            fade_or_crack: 0,
            tags: Vec::new(),
        }
    }
}

} // verus!
