//! Character sheets, themes, campaigns and the server-side rules of a
//! City of Mist companion: data models, their conversions to and from the
//! stored records, the rules of the websocket rooms and of sign-in.

pub mod backend;
pub mod common;
pub mod data;
pub mod db;
pub mod entity;
pub mod frontend;
pub mod str_map;
pub mod text;
