//! The `character` table.

use crate::entity::active_value::{holds_written, ActiveValue};
use vstd::prelude::*;

verus! {

/// A stored character, without its themes.
#[derive(Debug, PartialEq)]
pub struct Model {
    pub id: i32,
    pub name: String,
    pub mythos: String,
    pub logos: String,
}

/// The columns an insert or update of a character writes.
#[derive(Debug, PartialEq)]
pub struct ActiveModel {
    pub id: ActiveValue<i32>,
    pub name: ActiveValue<String>,
    pub mythos: ActiveValue<String>,
    pub logos: ActiveValue<String>,
}

impl ActiveModel {
    /// Whether the insert or update writes any column.
    pub fn is_changed(&self) -> (r: bool)
        ensures
            r == (self.id is SetTo || self.name is SetTo || self.mythos is SetTo || self.logos is SetTo),
    {
        self.id.is_set() || self.name.is_set() || self.mythos.is_set() || self.logos.is_set()
    }
}

/// Whether a stored row holds every column that an insert or update wrote.
pub open spec fn written_by(a: ActiveModel, m: Model) -> bool {
    &&& holds_written(a.id, m.id)
    &&& holds_written(a.name, m.name)
    &&& holds_written(a.mythos, m.mythos)
    &&& holds_written(a.logos, m.logos)
}

} // verus!
