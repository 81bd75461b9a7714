//! The rules of the browser client: its cards and its dice overlay.

pub mod cards;
pub mod dice_agent;
pub mod dice_overlay;
