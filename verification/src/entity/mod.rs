//! The stored records: one model per table, the values that an insert or
//! update writes, and the enumerations that the tables store.

pub mod active_value;
pub mod campaign;
pub mod campaign_member;
pub mod character;
pub mod character_theme;
pub mod theme;
pub mod user;
