//! A verifier that serves one request at a time: it waits for the state of
//! the height it asked for and reports failures as `NoOp`.
use crate::bisection::{spec_pivot, Verifier};
use crate::capabilities::{CommitValidator, HeaderHasher, VotingPowerCalculator};
use crate::predicates::{_is_within_trust_period, spec_within_trust_period, verdict, Answers};
use crate::types::{
    Error, Height, Nanos, SignedHeader, Time, TrustThreshold, TrustedState, ValidatorSet,
};
use vstd::prelude::*;

verus! {

#[derive(Clone, Copy, Debug, PartialEq, Eq, Structural)]
pub enum InnerVerifierEvent {
    // Inputs
    VerifyAtHeight {
        trusted_state: TrustedState,
        untrusted_height: Height,
        trust_threshold: TrustThreshold,
        trusting_period: Nanos,
        now: Time,
    },
    FetchedState {
        height: Height,
        untrusted_sh: SignedHeader,
        untrusted_vals: ValidatorSet,
        untrusted_next_vals: ValidatorSet,
    },
    // Outputs
    VerifiedTrustedState(TrustedState),
    BisectionNeeded {
        trusted_state: TrustedState,
        pivot_height: Height,
        trust_threshold: TrustThreshold,
        trusting_period: Nanos,
        now: Time,
    },
}

#[derive(Clone, Copy, Debug, PartialEq, Eq, Structural)]
pub enum InnerVerifierState {
    Ready,
    Unknown,
    WaitingForUntrustedState {
        trusted_state: TrustedState,
        untrusted_height: Height,
        trust_threshold: TrustThreshold,
        trusting_period: Nanos,
        now: Time,
    },
}

/// What the single-request verifier answers to an event.
#[derive(Clone, Copy, Debug, PartialEq, Eq, Structural)]
pub enum InnerVerifierReply {
    /// Nothing to do: the event failed or did not fit the current state.
    NoOp,
    /// Fetch the state at this height.
    FetchState(Height),
    /// An output event.
    Event(InnerVerifierEvent),
}

pub struct InnerVerifier<P, C, H> {
    verifier: Verifier<P, C, H>,
    state: InnerVerifierState,
}

/// The reply to `event` in `state`, and the next state, given what the
/// capabilities answer for a fetched state.
pub open spec fn inner_step(
    state: InnerVerifierState,
    event: InnerVerifierEvent,
    answers: Answers,
) -> (InnerVerifierReply, InnerVerifierState) {
    match (state, event) {
        (
            InnerVerifierState::Ready,
            InnerVerifierEvent::VerifyAtHeight {
                trusted_state,
                untrusted_height,
                trust_threshold,
                trusting_period,
                now,
            },
        ) => if spec_within_trust_period(trusted_state.header, trusting_period, now) {
            (
                InnerVerifierReply::FetchState(untrusted_height),
                InnerVerifierState::WaitingForUntrustedState {
                    trusted_state,
                    untrusted_height,
                    trust_threshold,
                    trusting_period,
                    now,
                },
            )
        } else {
            (InnerVerifierReply::NoOp, InnerVerifierState::Ready)
        },
        (
            InnerVerifierState::WaitingForUntrustedState {
                trusted_state,
                untrusted_height,
                trust_threshold,
                trusting_period,
                now,
            },
            InnerVerifierEvent::FetchedState {
                height,
                untrusted_sh,
                untrusted_vals,
                untrusted_next_vals,
            },
        ) => if untrusted_height != height {
            (InnerVerifierReply::NoOp, InnerVerifierState::Ready)
        } else {
            match verdict(
                trusted_state,
                untrusted_sh,
                untrusted_vals,
                untrusted_next_vals,
                trust_threshold,
                trusting_period,
                now,
                answers,
            ) {
                Ok(()) => (
                    InnerVerifierReply::Event(
                        InnerVerifierEvent::VerifiedTrustedState(
                            TrustedState { header: untrusted_sh.header, validators: untrusted_vals },
                        ),
                    ),
                    InnerVerifierState::Ready,
                ),
                Err(Error::InsufficientValidatorsOverlap) => match spec_pivot(
                    trusted_state.header.height,
                    untrusted_sh.header.height,
                ) {
                    Some(pivot_height) => if pivot_height > trusted_state.header.height {
                        (
                            InnerVerifierReply::Event(
                                InnerVerifierEvent::BisectionNeeded {
                                    trusted_state,
                                    pivot_height,
                                    trust_threshold,
                                    trusting_period,
                                    now,
                                },
                            ),
                            InnerVerifierState::Ready,
                        )
                    } else {
                        (InnerVerifierReply::NoOp, InnerVerifierState::Ready)
                    },
                    None => (InnerVerifierReply::NoOp, InnerVerifierState::Ready),
                },
                Err(_) => (InnerVerifierReply::NoOp, InnerVerifierState::Ready),
            }
        },
        _ => (InnerVerifierReply::NoOp, state),
    }
}

impl<P: VotingPowerCalculator, C: CommitValidator, H: HeaderHasher> InnerVerifier<P, C, H> {
    pub closed spec fn state(&self) -> InnerVerifierState {
        self.state
    }

    /// The verifier whose checks and capabilities this one uses.
    pub closed spec fn checker(&self) -> Verifier<P, C, H> {
        self.verifier
    }

    /// What the capabilities answer for a state fetched for `state`.
    pub open spec fn answers_for(&self, state: InnerVerifierState, event: InnerVerifierEvent) -> Answers {
        match (state, event) {
            (
                InnerVerifierState::WaitingForUntrustedState { trusted_state, .. },
                InnerVerifierEvent::FetchedState { untrusted_sh, untrusted_vals, .. },
            ) => self.checker().answers(trusted_state, untrusted_sh, untrusted_vals),
            _ => self.checker().answers(
                arbitrary(),
                arbitrary(),
                arbitrary(),
            ),
        }
    }

    pub fn new(voting_power_calculator: P, commit_validator: C, header_hasher: H) -> (r: Self)
        ensures
            r.state() == InnerVerifierState::Ready,
            r.checker().calculator() == voting_power_calculator,
            r.checker().validator() == commit_validator,
            r.checker().hasher() == header_hasher,
    {
        InnerVerifier {
            verifier: Verifier::new(voting_power_calculator, commit_validator, header_hasher),
            state: InnerVerifierState::Ready,
        }
    }

    /// Handles one event in the current state.
    pub fn handle(&mut self, event: InnerVerifierEvent) -> (r: InnerVerifierReply)
        ensures
            final(self).checker().same_capabilities(old(self).checker()),
            (r, final(self).state()) == inner_step(
                old(self).state(),
                event,
                old(self).answers_for(old(self).state(), event),
            ),
    {
        let state = self.state;
        self.state = InnerVerifierState::Unknown;
        match (state, event) {
            (
                InnerVerifierState::Ready,
                InnerVerifierEvent::VerifyAtHeight {
                    trusted_state,
                    untrusted_height,
                    trust_threshold,
                    trusting_period,
                    now,
                },
            ) => self.init_verification(
                trusted_state,
                untrusted_height,
                trust_threshold,
                trusting_period,
                now,
            ),
            (
                InnerVerifierState::WaitingForUntrustedState {
                    trusted_state,
                    untrusted_height,
                    trust_threshold,
                    trusting_period,
                    now,
                },
                InnerVerifierEvent::FetchedState {
                    height,
                    untrusted_sh,
                    untrusted_vals,
                    untrusted_next_vals,
                },
            ) => {
                if untrusted_height != height {
                    self.state = InnerVerifierState::Ready;
                    return InnerVerifierReply::NoOp;
                }
                self.perform_verification(
                    trusted_state,
                    untrusted_sh,
                    untrusted_vals,
                    untrusted_next_vals,
                    trust_threshold,
                    trusting_period,
                    now,
                )
            },
            _ => {
                self.state = state;
                InnerVerifierReply::NoOp
            },
        }
    }

    /// Starts a request: asks for the fetch, or gives up when the trusted
    /// state is outside the trusting period.
    pub fn init_verification(
        &mut self,
        trusted_state: TrustedState,
        untrusted_height: Height,
        trust_threshold: TrustThreshold,
        trusting_period: Nanos,
        now: Time,
    ) -> (r: InnerVerifierReply)
        ensures
            final(self).checker() == old(self).checker(),
            (r, final(self).state()) == inner_step(
                InnerVerifierState::Ready,
                InnerVerifierEvent::VerifyAtHeight {
                    trusted_state,
                    untrusted_height,
                    trust_threshold,
                    trusting_period,
                    now,
                },
                old(self).answers_for(
                    InnerVerifierState::Ready,
                    InnerVerifierEvent::VerifyAtHeight {
                        trusted_state,
                        untrusted_height,
                        trust_threshold,
                        trusting_period,
                        now,
                    },
                ),
            ),
    {
        if !_is_within_trust_period(&trusted_state.header, trusting_period, now) {
            self.state = InnerVerifierState::Ready;
            return InnerVerifierReply::NoOp;
        }
        self.start_verification(
            trusted_state,
            untrusted_height,
            trust_threshold,
            trusting_period,
            now,
        )
    }

    /// Waits for the state at `untrusted_height` and asks for it.
    pub fn start_verification(
        &mut self,
        trusted_state: TrustedState,
        untrusted_height: Height,
        trust_threshold: TrustThreshold,
        trusting_period: Nanos,
        now: Time,
    ) -> (r: InnerVerifierReply)
        ensures
            final(self).checker() == old(self).checker(),
            r == InnerVerifierReply::FetchState(untrusted_height),
            final(self).state() == (InnerVerifierState::WaitingForUntrustedState {
                trusted_state,
                untrusted_height,
                trust_threshold,
                trusting_period,
                now,
            }),
    {
        self.state = InnerVerifierState::WaitingForUntrustedState {
            trusted_state,
            untrusted_height,
            trust_threshold,
            trusting_period,
            now,
        };
        InnerVerifierReply::FetchState(untrusted_height)
    }

    /// Checks the fetched state and answers with the verified state, a
    /// bisection step, or `NoOp` on failure; the verifier is then ready.
    pub fn perform_verification(
        &mut self,
        trusted_state: TrustedState,
        untrusted_sh: SignedHeader,
        untrusted_vals: ValidatorSet,
        untrusted_next_vals: ValidatorSet,
        trust_threshold: TrustThreshold,
        trusting_period: Nanos,
        now: Time,
    ) -> (r: InnerVerifierReply)
        ensures
            final(self).checker() == old(self).checker(),
            (r, final(self).state()) == inner_step(
                InnerVerifierState::WaitingForUntrustedState {
                    trusted_state,
                    untrusted_height: untrusted_sh.header.height,
                    trust_threshold,
                    trusting_period,
                    now,
                },
                InnerVerifierEvent::FetchedState {
                    height: untrusted_sh.header.height,
                    untrusted_sh,
                    untrusted_vals,
                    untrusted_next_vals,
                },
                old(self).checker().answers(trusted_state, untrusted_sh, untrusted_vals),
            ),
    {
        let result = self.verifier.verify_untrusted_state(
            &trusted_state,
            &untrusted_sh,
            &untrusted_vals,
            &untrusted_next_vals,
            &trust_threshold,
            trusting_period,
            now,
        );
        self.state = InnerVerifierState::Ready;
        match result {
            Ok(()) => InnerVerifierReply::Event(
                InnerVerifierEvent::VerifiedTrustedState(
                    TrustedState { header: untrusted_sh.header, validators: untrusted_vals },
                ),
            ),
            Err(Error::InsufficientValidatorsOverlap) => {
                match self.verifier.compute_pivot_height(&trusted_state, &untrusted_sh) {
                    Some(pivot_height) => if pivot_height > trusted_state.header.height {
                        InnerVerifierReply::Event(
                            InnerVerifierEvent::BisectionNeeded {
                                trusted_state,
                                pivot_height,
                                trust_threshold,
                                trusting_period,
                                now,
                            },
                        )
                    } else {
                        InnerVerifierReply::NoOp
                    },
                    None => InnerVerifierReply::NoOp,
                }
            },
            Err(_) => InnerVerifierReply::NoOp,
        }
    }

    /// Runs the checks on a fetched state against `trusted_state`.
    pub fn verify_untrusted_state(
        &self,
        trusted_state: &TrustedState,
        untrusted_sh: &SignedHeader,
        untrusted_vals: &ValidatorSet,
        untrusted_next_vals: &ValidatorSet,
        trust_threshold: &TrustThreshold,
        trusting_period: Nanos,
        now: Time,
    ) -> (r: Result<(), Error>)
        ensures
            r == verdict(
                *trusted_state,
                *untrusted_sh,
                *untrusted_vals,
                *untrusted_next_vals,
                *trust_threshold,
                trusting_period,
                now,
                self.checker().answers(*trusted_state, *untrusted_sh, *untrusted_vals),
            ),
    {
        self.verifier.verify_untrusted_state(
            trusted_state,
            untrusted_sh,
            untrusted_vals,
            untrusted_next_vals,
            trust_threshold,
            trusting_period,
            now,
        )
    }
}

} // verus!
