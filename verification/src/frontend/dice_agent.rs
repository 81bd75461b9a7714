//! The dice agent: it relays every dice message it gets to each component
//! that is connected to it.

use std::collections::HashSet;
use vstd::prelude::*;
use vstd::std_specs::iter::IteratorSpec;

verus! {

broadcast use vstd::std_specs::hash::group_hash_axioms;

/// A message about a dice roll.
#[derive(Debug, PartialEq)]
pub enum DiceMessage {
    /// Roll with this seed.
    RollSeed(u64),
    /// A roll with this seed was asked for.
    TriggerRollSeeded(u64),
    /// The faces the dice came to rest on.
    Values(Vec<i8>),
}

/// The value of a dice message.
pub enum DiceMessageView {
    RollSeed(u64),
    TriggerRollSeeded(u64),
    Values(Seq<i8>),
}

impl View for DiceMessage {
    type V = DiceMessageView;

    open spec fn view(&self) -> DiceMessageView {
        match self {
            DiceMessage::RollSeed(s) => DiceMessageView::RollSeed(*s),
            DiceMessage::TriggerRollSeeded(s) => DiceMessageView::TriggerRollSeeded(*s),
            DiceMessage::Values(v) => DiceMessageView::Values(v@),
        }
    }
}

impl Clone for DiceMessage {
    fn clone(&self) -> (r: Self)
        ensures
            r@ == self@,
    {
        match self {
            DiceMessage::RollSeed(s) => DiceMessage::RollSeed(*s),
            DiceMessage::TriggerRollSeeded(s) => DiceMessage::TriggerRollSeeded(*s),
            DiceMessage::Values(v) => {
                let c = v.clone();
                assert(c@ =~= v@);
                DiceMessage::Values(c)
            },
        }
    }
}

/// The agent: the ids of the connected components.
#[derive(Debug)]
pub struct DiceAgent {
    subscribers: HashSet<u64>,
}

impl View for DiceAgent {
    type V = Set<u64>;

    closed spec fn view(&self) -> Set<u64> {
        self.subscribers@
    }
}

impl DiceAgent {
    /// An agent with no component connected.
    pub fn create() -> (r: Self)
        ensures
            r@ == Set::<u64>::empty(),
    {
        DiceAgent { subscribers: HashSet::new() }
    }

    /// A component connects.
    pub fn connected(&mut self, id: u64)
        ensures
            final(self)@ == old(self)@.insert(id),
    {
        self.subscribers.insert(id);
    }

    /// A component disconnects.
    pub fn disconnected(&mut self, id: u64)
        ensures
            final(self)@ == old(self)@.remove(id),
    {
        self.subscribers.remove(&id);
    }

    /// The responses to an incoming message: one copy of it for each
    /// connected component, each component once.
    pub fn handle_input(&self, msg: DiceMessage) -> (r: Vec<(u64, DiceMessage)>)
        ensures
            r@.map_values(|p: (u64, DiceMessage)| p.0).to_set() == self@,
            r@.map_values(|p: (u64, DiceMessage)| p.0).no_duplicates(),
            forall|i: int| 0 <= i < r@.len() ==> (#[trigger] r@[i]).1@ == msg@,
    {
        let mut r: Vec<(u64, DiceMessage)> = Vec::new();
        let ghost ids = vstd::std_specs::hash::spec_hash_keys_iter(&self.subscribers).remaining();
        for s in it: self.subscribers.iter()
            invariant
                it.seq() == ids,
                r@.len() == it.index(),
                forall|k: int| 0 <= k < r@.len() ==> (#[trigger] r@[k]).0 == *it.seq()[k] && r@[k].1@ == msg@,
        {
            r.push((*s, msg.clone()));
        }
        assert(r@.map_values(|p: (u64, DiceMessage)| p.0) =~= ids.unref());
        r
    }
}

/// A component that connected gets every message relayed until it
/// disconnects, and then gets none; connecting and then disconnecting a
/// component that was not connected leaves the agent as it was.
pub proof fn lemma_connect_disconnect(subscribers: Set<u64>, id: u64, other: u64)
    requires
        other != id,
    ensures
        subscribers.insert(id).contains(id),
        !subscribers.remove(id).contains(id),
        subscribers.remove(id).contains(other) == subscribers.contains(other),
        !subscribers.contains(id) ==> subscribers.insert(id).remove(id) == subscribers,
{
    if !subscribers.contains(id) {
        assert(subscribers.insert(id).remove(id) =~= subscribers);
    }
}

} // verus!
