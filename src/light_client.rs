//! The multi-step driver: keeps the stack of heights that bisection still
//! has to verify, records each verified state, and reports the whole chain
//! once the height first asked for is verified.
use crate::trusted_store::TrustedStore;
use crate::types::{Height, Nanos, Time, TrustThreshold, TrustedState};
use std::collections::HashMap;
use vstd::prelude::*;

verus! {

broadcast use vstd::std_specs::hash::group_hash_axioms;

#[derive(Clone, Copy, Debug, PartialEq, Eq, Structural)]
pub enum LightClientError {
    /// No request was recorded for a height on the stack.
    NoMatchingPendingState(Height),
    /// A state arrived for `got` while the top of the stack is `expected`.
    NextHeightMismatch { expected: Height, got: Height },
    /// A state arrived while nothing was waiting for one.
    AlreadyVerified(Height),
}

#[derive(Clone, Debug)]
pub enum LightClientEvent {
    // Inputs
    VerifyAtHeight {
        trusted_state: TrustedState,
        untrusted_height: Height,
        trust_threshold: TrustThreshold,
        trusting_period: Nanos,
        now: Time,
    },
    NewTrustedState(TrustedState),
    // Outputs
    PerformVerification {
        trusted_state: TrustedState,
        untrusted_height: Height,
        trust_threshold: TrustThreshold,
        trusting_period: Nanos,
        now: Time,
    },
    NewTrustedStates { trusted_height: Height, trusted_states: Vec<TrustedState> },
}

impl LightClientEvent {
    /// The events that the light client takes, as opposed to those it emits.
    pub open spec fn is_input(self) -> bool {
        self is VerifyAtHeight || self is NewTrustedState
    }
}

/// The request that pushed a height on the stack.
#[derive(Clone, Copy, Debug, PartialEq, Eq, Structural)]
pub struct PendingState {
    pub trusted_state: TrustedState,
    pub untrusted_height: Height,
    pub trust_threshold: TrustThreshold,
    pub trusting_period: Nanos,
    pub now: Time,
}

pub struct LightClient {
    trusted_store: TrustedStore,
    pending_heights: Vec<Height>,
    pending_states: HashMap<Height, PendingState>,
    verified_states: Vec<TrustedState>,
}

impl LightClient {
    /// The heights still to verify, bottom first: the last one is the top.
    pub closed spec fn heights(&self) -> Seq<Height> {
        self.pending_heights@
    }

    /// The request recorded for each height pushed since the last reset.
    pub closed spec fn requests(&self) -> Map<Height, PendingState> {
        self.pending_states@
    }

    /// The states verified since the last reset, oldest first.
    pub closed spec fn verified(&self) -> Seq<TrustedState> {
        self.verified_states@
    }

    /// What the trusted store holds.
    pub closed spec fn store(&self) -> Map<Height, TrustedState> {
        self.trusted_store@
    }

    /// No request is in flight.
    pub open spec fn is_idle(&self) -> bool {
        &&& self.heights() == Seq::<Height>::empty()
        &&& self.requests() == Map::<Height, PendingState>::empty()
        &&& self.verified() == Seq::<TrustedState>::empty()
    }

    pub fn new(trusted_store: TrustedStore) -> (r: LightClient)
        ensures
            r.is_idle(),
            r.store() == trusted_store@,
    {
        LightClient {
            trusted_store,
            pending_heights: Vec::new(),
            pending_states: HashMap::new(),
            verified_states: Vec::new(),
        }
    }

    /// The trusted state stored at `height`, if any.
    pub fn trusted_state_at(&self, height: Height) -> (r: Option<TrustedState>)
        ensures
            r == (if self.store().contains_key(height) {
                Some(self.store()[height])
            } else {
                None
            }),
    {
        self.trusted_store.get(height)
    }

    /// Drops every pending request and hands out the states verified so far.
    pub fn reset(&mut self) -> (r: Vec<TrustedState>)
        ensures
            r@ == old(self).verified(),
            final(self).is_idle(),
            final(self).store() == old(self).store(),
    {
        self.pending_heights.clear();
        self.pending_states.clear();
        let mut drained = Vec::new();
        std::mem::swap(&mut drained, &mut self.verified_states);
        drained
    }

    /// Writes `trusted_state` to the store and appends it to the verified states.
    pub fn save_trusted_state(&mut self, trusted_state: TrustedState)
        ensures
            final(self).store() == old(self).store().insert(
                trusted_state.header.height,
                trusted_state,
            ),
            final(self).verified() == old(self).verified().push(trusted_state),
            final(self).heights() == old(self).heights(),
            final(self).requests() == old(self).requests(),
    {
        let height = trusted_state.header.height;
        self.trusted_store.set(height, trusted_state);
        self.verified_states.push(trusted_state);
    }

    /// Handles a request to verify a height, or a state that the verifier
    /// has just verified.
    pub fn handle(&mut self, event: LightClientEvent) -> (r: Result<LightClientEvent, LightClientError>)
        requires
            event.is_input(),
        ensures
            match event {
                LightClientEvent::VerifyAtHeight {
                    trusted_state,
                    untrusted_height,
                    trust_threshold,
                    trusting_period,
                    now,
                } => {
                    &&& r == Ok::<LightClientEvent, LightClientError>(
                        LightClientEvent::PerformVerification {
                            trusted_state,
                            untrusted_height,
                            trust_threshold,
                            trusting_period,
                            now,
                        },
                    )
                    &&& final(self).heights() == old(self).heights().push(untrusted_height)
                    &&& final(self).requests() == old(self).requests().insert(
                        untrusted_height,
                        PendingState {
                            trusted_state,
                            untrusted_height,
                            trust_threshold,
                            trusting_period,
                            now,
                        },
                    )
                    &&& final(self).verified() == old(self).verified()
                    &&& final(self).store() == old(self).store()
                },
                LightClientEvent::NewTrustedState(ts) => new_state_step(*old(self), *final(self), ts, r),
                _ => false,
            },
    {
        match event {
            LightClientEvent::VerifyAtHeight {
                trusted_state,
                untrusted_height,
                trust_threshold,
                trusting_period,
                now,
            } => {
                self.pending_heights.push(untrusted_height);
                self.pending_states.insert(
                    untrusted_height,
                    PendingState {
                        trusted_state,
                        untrusted_height,
                        trust_threshold,
                        trusting_period,
                        now,
                    },
                );
                Ok(
                    LightClientEvent::PerformVerification {
                        trusted_state,
                        untrusted_height,
                        trust_threshold,
                        trusting_period,
                        now,
                    },
                )
            },
            LightClientEvent::NewTrustedState(new_trusted_state) => {
                self.on_new_trusted_state(new_trusted_state)
            },
            _ => {
                proof {
                    assert(false);
                }
                Err(LightClientError::AlreadyVerified(0))
            },
        }
    }

    fn on_new_trusted_state(&mut self, new_trusted_state: TrustedState) -> (r: Result<
        LightClientEvent,
        LightClientError,
    >)
        ensures
            new_state_step(*old(self), *final(self), new_trusted_state, r),
    {
        let height = new_trusted_state.header.height;
        if self.pending_heights.len() == 0 {
            // Trusted all the same, so stored; it is not added to the states
            // of a request, as none is in flight.
            self.trusted_store.set(height, new_trusted_state);
            return Err(LightClientError::AlreadyVerified(height));
        }
        self.save_trusted_state(new_trusted_state);
        let popped = self.pending_heights.pop().unwrap();
        if popped != height {
            let _ = self.reset();
            return Err(LightClientError::NextHeightMismatch { expected: popped, got: height });
        }
        let len = self.pending_heights.len();
        if len == 0 {
            let trusted_states = self.reset();
            return Ok(LightClientEvent::NewTrustedStates { trusted_height: height, trusted_states });
        }
        let next_height = self.pending_heights[len - 1];
        match self.pending_states.get(&next_height) {
            Some(request) => Ok(
                LightClientEvent::PerformVerification {
                    trusted_state: new_trusted_state,
                    untrusted_height: next_height,
                    trust_threshold: request.trust_threshold,
                    trusting_period: request.trusting_period,
                    now: request.now,
                },
            ),
            None => {
                let _ = self.reset();
                Err(LightClientError::NoMatchingPendingState(next_height))
            },
        }
    }
}

/// How the light client moves from `pre` to `post`, answering `r`, when the
/// verifier hands it the verified state `ts`.
pub open spec fn new_state_step(
    pre: LightClient,
    post: LightClient,
    ts: TrustedState,
    r: Result<LightClientEvent, LightClientError>,
) -> bool {
    let h = ts.header.height;
    if pre.heights().len() == 0 {
        &&& r == Err::<LightClientEvent, LightClientError>(LightClientError::AlreadyVerified(h))
        &&& post.heights() == pre.heights()
        &&& post.requests() == pre.requests()
        &&& post.verified() == pre.verified()
        &&& post.store() == pre.store().insert(h, ts)
    } else {
        let top = pre.heights().last();
        let rest = pre.heights().drop_last();
        &&& post.store() == pre.store().insert(h, ts)
        &&& if top != h {
            &&& r == Err::<LightClientEvent, LightClientError>(
                LightClientError::NextHeightMismatch { expected: top, got: h },
            )
            &&& post.is_idle()
        } else if rest.len() == 0 {
            &&& match r {
                Ok(LightClientEvent::NewTrustedStates { trusted_height, trusted_states }) => {
                    &&& trusted_height == h
                    &&& trusted_states@ == pre.verified().push(ts)
                },
                _ => false,
            }
            &&& post.is_idle()
        } else if pre.requests().contains_key(rest.last()) {
            let request = pre.requests()[rest.last()];
            &&& r == Ok::<LightClientEvent, LightClientError>(
                LightClientEvent::PerformVerification {
                    trusted_state: ts,
                    untrusted_height: rest.last(),
                    trust_threshold: request.trust_threshold,
                    trusting_period: request.trusting_period,
                    now: request.now,
                },
            )
            &&& post.heights() == rest
            &&& post.requests() == pre.requests()
            &&& post.verified() == pre.verified().push(ts)
        } else {
            &&& r == Err::<LightClientEvent, LightClientError>(
                LightClientError::NoMatchingPendingState(rest.last()),
            )
            &&& post.is_idle()
        }
    }
}

} // verus!
