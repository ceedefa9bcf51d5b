use crate::snapshot::CustomVoiceState;
use std::collections::HashMap;
use vstd::prelude::*;

verus! {

broadcast use vstd::std_specs::hash::group_hash_axioms;

/// The most recently observed voice state of each user, keyed by user id.
///
/// An entry is created on a user's first event and overwritten on every later
/// one; it is never removed, so a user who left still has a previous state.
pub struct StateStore {
    states: HashMap<u64, CustomVoiceState>,
}

/// What a store whose contents are `m` answers for `user_id`.
pub open spec fn lookup(m: Map<u64, CustomVoiceState>, user_id: u64) -> Option<CustomVoiceState> {
    if m.contains_key(user_id) {
        Some(m[user_id])
    } else {
        None
    }
}

impl View for StateStore {
    type V = Map<u64, CustomVoiceState>;

    closed spec fn view(&self) -> Map<u64, CustomVoiceState> {
        self.states@
    }
}

impl StateStore {
    /// An empty store.
    pub fn new() -> (r: StateStore)
        ensures
            r@ == Map::<u64, CustomVoiceState>::empty(),
    {
        StateStore { states: HashMap::new() }
    }

    /// The last state recorded for `user_id`, if any.
    pub fn get(&self, user_id: u64) -> (r: Option<CustomVoiceState>)
        ensures
            r == lookup(self@, user_id),
    {
        proof {
            assert(vstd::std_specs::hash::obeys_key_model::<u64>());
        }
        match self.states.get(&user_id) {
            Some(s) => Some(s.clone()),
            None => None,
        }
    }

    /// Records `snapshot` as the last state of `user_id`, replacing any earlier one.
    pub fn put(&mut self, user_id: u64, snapshot: CustomVoiceState)
        ensures
            final(self)@ == old(self)@.insert(user_id, snapshot),
    {
        self.states.insert(user_id, snapshot);
    }
}

/// Reading back a user's state right after recording it gives that state.
pub proof fn lemma_put_then_get(m: Map<u64, CustomVoiceState>, user_id: u64, snapshot: CustomVoiceState)
    ensures
        lookup(m.insert(user_id, snapshot), user_id) == Some(snapshot),
{
}

} // verus!
