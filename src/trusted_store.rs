//! An in-memory store of trusted states, keyed by height.
use crate::types::{Height, TrustedState};
use std::collections::HashMap;
use vstd::prelude::*;

verus! {

broadcast use vstd::std_specs::hash::group_hash_axioms;

pub struct TrustedStore {
    states: HashMap<Height, TrustedState>,
}

impl View for TrustedStore {
    type V = Map<Height, TrustedState>;

    closed spec fn view(&self) -> Map<Height, TrustedState> {
        self.states@
    }
}

impl TrustedStore {
    pub fn new() -> (r: TrustedStore)
        ensures
            r@ == Map::<Height, TrustedState>::empty(),
    {
        TrustedStore { states: HashMap::new() }
    }

    /// The state stored at `height`, if any.
    pub fn get(&self, height: Height) -> (r: Option<TrustedState>)
        ensures
            r == (if self@.contains_key(height) {
                Some(self@[height])
            } else {
                None
            }),
    {
        match self.states.get(&height) {
            Some(state) => Some(*state),
            None => None,
        }
    }

    /// Stores `state` at `height`, replacing what was there.
    pub fn set(&mut self, height: Height, state: TrustedState)
        ensures
            final(self)@ == old(self)@.insert(height, state),
    {
        self.states.insert(height, state);
    }
}

} // verus!
