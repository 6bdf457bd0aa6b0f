//! The messages that the scheduler routes between the components.
use crate::bisection::{VerifierInput, VerifierOutput};
use crate::light_client::LightClientEvent;
use crate::types::{Height, SignedHeader, TrustedState, ValidatorSet};
use vstd::prelude::*;

verus! {

/// A request to the fetcher.
#[derive(Clone, Copy, Debug, PartialEq, Eq, Structural)]
pub enum RequesterInput {
    FetchState(Height),
}

/// What the fetcher brought back for a height.
#[derive(Clone, Copy, Debug, PartialEq, Eq, Structural)]
pub enum RequesterOutput {
    FetchedState {
        height: Height,
        signed_header: SignedHeader,
        validator_set: ValidatorSet,
        next_validator_set: ValidatorSet,
    },
}

/// An event addressed to one component, or a sentinel for the loop.
#[derive(Clone, Debug)]
pub enum Input {
    NoOp,
    Tick,
    Terminate,
    Verifier(VerifierInput),
    LightClient(LightClientEvent),
    Requester(RequesterInput),
}

/// An event emitted by one component.
#[derive(Clone, Debug)]
pub enum Output {
    NoOp,
    Verifier(VerifierOutput),
    LightClient(LightClientEvent),
    Requester(RequesterOutput),
}

/// Where a component's output goes.
#[derive(Clone, Debug)]
pub enum Route {
    /// To another component, as this input.
    Next(Input),
    /// Out of the core, to the caller: the result of a finished request.
    Deliver { trusted_height: Height, trusted_states: Vec<TrustedState> },
    /// Nowhere: the event is one that the light client takes, not one it emits.
    Nowhere,
}

/// Where each component's output goes next; the light client's final result
/// leaves the core, unchanged, for the caller.
pub open spec fn spec_route(event: Output) -> Route {
    match event {
        Output::NoOp => Route::Next(Input::NoOp),
        Output::LightClient(LightClientEvent::PerformVerification {
            trusted_state,
            untrusted_height,
            trust_threshold,
            trusting_period,
            now,
        }) => Route::Next(
            Input::Verifier(
                VerifierInput::VerifyAtHeight {
                    trusted_state,
                    untrusted_height,
                    trust_threshold,
                    trusting_period,
                    now,
                },
            ),
        ),
        Output::LightClient(LightClientEvent::NewTrustedStates { trusted_height, trusted_states }) => {
            Route::Deliver { trusted_height, trusted_states }
        },
        Output::LightClient(_) => Route::Nowhere,
        Output::Verifier(VerifierOutput::StateNeeded(height)) => Route::Next(
            Input::Requester(RequesterInput::FetchState(height)),
        ),
        Output::Verifier(VerifierOutput::StateVerified(trusted_state)) => Route::Next(
            Input::LightClient(LightClientEvent::NewTrustedState(trusted_state)),
        ),
        Output::Verifier(VerifierOutput::VerificationNeeded {
            trusted_state,
            pivot_height,
            trust_threshold,
            trusting_period,
            now,
        }) => Route::Next(
            Input::LightClient(
                LightClientEvent::VerifyAtHeight {
                    trusted_state,
                    untrusted_height: pivot_height,
                    trust_threshold,
                    trusting_period,
                    now,
                },
            ),
        ),
        Output::Requester(RequesterOutput::FetchedState {
            height,
            signed_header,
            validator_set,
            next_validator_set,
        }) => Route::Next(
            Input::Verifier(
                VerifierInput::FetchedState {
                    height,
                    untrusted_sh: signed_header,
                    untrusted_vals: validator_set,
                    untrusted_next_vals: next_validator_set,
                },
            ),
        ),
    }
}

/// Routes one component's output to the input of the next.
pub fn route_event(event: Output) -> (r: Route)
    ensures
        r == spec_route(event),
{
    match event {
        Output::NoOp => Route::Next(Input::NoOp),
        Output::LightClient(LightClientEvent::PerformVerification {
            trusted_state,
            untrusted_height,
            trust_threshold,
            trusting_period,
            now,
        }) => Route::Next(
            Input::Verifier(
                VerifierInput::VerifyAtHeight {
                    trusted_state,
                    untrusted_height,
                    trust_threshold,
                    trusting_period,
                    now,
                },
            ),
        ),
        Output::LightClient(LightClientEvent::NewTrustedStates { trusted_height, trusted_states }) => {
            Route::Deliver { trusted_height, trusted_states }
        },
        Output::LightClient(_) => Route::Nowhere,
        Output::Verifier(VerifierOutput::StateNeeded(height)) => Route::Next(
            Input::Requester(RequesterInput::FetchState(height)),
        ),
        Output::Verifier(VerifierOutput::StateVerified(trusted_state)) => Route::Next(
            Input::LightClient(LightClientEvent::NewTrustedState(trusted_state)),
        ),
        Output::Verifier(VerifierOutput::VerificationNeeded {
            trusted_state,
            pivot_height,
            trust_threshold,
            trusting_period,
            now,
        }) => Route::Next(
            Input::LightClient(
                LightClientEvent::VerifyAtHeight {
                    trusted_state,
                    untrusted_height: pivot_height,
                    trust_threshold,
                    trusting_period,
                    now,
                },
            ),
        ),
        Output::Requester(RequesterOutput::FetchedState {
            height,
            signed_header,
            validator_set,
            next_validator_set,
        }) => Route::Next(
            Input::Verifier(
                VerifierInput::FetchedState {
                    height,
                    untrusted_sh: signed_header,
                    untrusted_vals: validator_set,
                    untrusted_next_vals: next_validator_set,
                },
            ),
        ),
    }
}

} // verus!
