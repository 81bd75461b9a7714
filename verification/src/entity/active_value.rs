//! A column value in an insert or update.

use vstd::prelude::*;

verus! {

/// What an insert or update does with one column.
#[derive(Debug, PartialEq)]
pub enum ActiveValue<V> {
    /// The column is written with this value.
    SetTo(V),
    /// The column holds this value and is not written.
    Unchanged(V),
    /// The column is left out.
    NotSet,
}

impl<V> ActiveValue<V> {
    /// Whether the column is written.
    pub fn is_set(&self) -> (r: bool)
        ensures
            r == (self is SetTo),
    {
        match self {
            ActiveValue::SetTo(_) => true,
            _ => false,
        }
    }

    /// Whether the column is left out.
    pub fn is_not_set(&self) -> (r: bool)
        ensures
            r == (self is NotSet),
    {
        match self {
            ActiveValue::NotSet => true,
            _ => false,
        }
    }
}

/// Whether a stored column holds what an insert or update wrote to it, if
/// it wrote it.
pub open spec fn holds_written<V>(a: ActiveValue<V>, v: V) -> bool {
    a matches ActiveValue::SetTo(w) ==> v == w
}

/// `SetTo(v)` for a value, `NotSet` for none.
pub fn set_or_not<V>(value: Option<V>) -> (r: ActiveValue<V>)
    ensures
        r == (match value {
            Some(v) => ActiveValue::SetTo(v),
            None => ActiveValue::NotSet,
        }),
{
    match value {
        Some(v) => ActiveValue::SetTo(v),
        None => ActiveValue::NotSet,
    }
}

} // verus!
