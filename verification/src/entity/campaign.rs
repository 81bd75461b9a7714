//! The `campaigns` table.

use vstd::prelude::*;

verus! {

/// A stored campaign.
#[derive(Debug, PartialEq)]
pub struct Model {
    pub id: i32,
    pub name: String,
}

} // verus!
