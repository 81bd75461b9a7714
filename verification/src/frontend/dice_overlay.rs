//! The dice overlay's messages.

use crate::frontend::dice_agent::DiceMessage;
use vstd::prelude::*;

verus! {

/// A message to the dice overlay.
#[derive(Debug, PartialEq)]
pub enum Msg {
    /// Nothing to do.
    Noop,
    /// Roll the dice with this seed.
    TriggerRollSeeded(u64),
    /// The dice came to rest on these faces.
    Values(Vec<i8>),
}

/// The overlay's message for a message from the dice agent: a request to
/// roll is passed on, everything else is ignored.
pub fn msg_from_agent(msg: DiceMessage) -> (r: Msg)
    ensures
        match msg {
            DiceMessage::TriggerRollSeeded(seed) => r == Msg::TriggerRollSeeded(seed),
            _ => r == Msg::Noop,
        },
{
    match msg {
        DiceMessage::TriggerRollSeeded(seed) => Msg::TriggerRollSeeded(seed),
        _ => Msg::Noop,
    }
}

/// What the overlay does with a message.
#[derive(Debug, PartialEq)]
pub enum OverlayStep {
    /// Nothing.
    Nothing,
    /// Roll the dice with this seed.
    Roll(u64),
    /// Tell the dice agent these faces.
    Report(DiceMessage),
}

/// What the overlay does with a message: rolls on request, reports the
/// faces the dice rest on to the agent. It never asks to be redrawn.
pub fn overlay_update(msg: Msg) -> (r: (OverlayStep, bool))
    ensures
        !r.1,
        match msg {
            Msg::TriggerRollSeeded(seed) => r.0 == OverlayStep::Roll(seed),
            Msg::Values(v) => r.0 == OverlayStep::Report(DiceMessage::Values(v)),
            Msg::Noop => r.0 == OverlayStep::Nothing,
        },
{
    match msg {
        Msg::TriggerRollSeeded(seed) => (OverlayStep::Roll(seed), false),
        Msg::Values(values) => (OverlayStep::Report(DiceMessage::Values(values)), false),
        Msg::Noop => (OverlayStep::Nothing, false),
    }
}

} // verus!
