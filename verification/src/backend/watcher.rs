//! The watchers of users: one per user id, made on first use and shared
//! after.

use std::collections::HashMap;
use vstd::prelude::*;

verus! {

broadcast use vstd::std_specs::hash::group_hash_axioms;

/// The watchers, by user id.
pub struct WatcherService<W> {
    watchers: HashMap<i32, W>,
}

impl<W> View for WatcherService<W> {
    type V = Map<i32, W>;

    closed spec fn view(&self) -> Map<i32, W> {
        self.watchers@
    }
}

/// The watchers after asking for the one of the user `id` with `fresh` at
/// hand: unchanged where the user has one, else with `fresh` kept for the
/// user.
pub open spec fn watchers_after_get<W>(watchers: Map<i32, W>, id: i32, fresh: W) -> Map<i32, W> {
    if watchers.contains_key(id) {
        watchers
    } else {
        watchers.insert(id, fresh)
    }
}

impl<W> WatcherService<W> {
    /// No watcher yet.
    pub fn new() -> (r: Self)
        ensures
            r@ == Map::<i32, W>::empty(),
    {
        WatcherService { watchers: HashMap::new() }
    }

    /// The watcher of the user `id`: the one made before, or `fresh`, which
    /// is then kept for that user.
    pub fn get_by_id(&mut self, id: i32, fresh: W) -> (r: &W)
        ensures
            final(self)@ == watchers_after_get(old(self)@, id, fresh),
            *r == final(self)@[id],
            !old(self)@.contains_key(id) ==> *r == fresh,
    {
        if !self.watchers.contains_key(&id) {
            self.watchers.insert(id, fresh);
        }
        match self.watchers.get(&id) {
            Some(w) => w,
            None => unreached(),
        }
    }
}

/// A user's watcher is made once: asking again for the same user gives the
/// watcher kept the first time and makes none, and asking for another
/// user leaves it as it is.
pub proof fn lemma_watcher_shared<W>(watchers: Map<i32, W>, id: i32, other: i32, first: W, second: W, third: W)
    requires
        other != id,
    ensures
        ({
            let after_first = watchers_after_get(watchers, id, first);
            let after_second = watchers_after_get(after_first, id, second);
            let after_third = watchers_after_get(after_second, other, third);
            &&& after_second == after_first
            &&& after_third.contains_key(id)
            &&& after_third[id] == after_first[id]
            &&& (!watchers.contains_key(id) ==> after_first[id] == first)
        }),
{
}

} // verus!
