pub mod bisection;
pub mod capabilities;
pub mod chain;
pub mod commit;
pub mod encoding;
pub mod events;
pub mod inner_verifier;
pub mod light_client;
pub mod ops;
pub mod predicates;
pub mod scheduler;
pub mod trusted_store;
pub mod types;
pub mod voting_power;

use vstd::prelude::*;

verus! {

/// A component that consumes events of type `I`.
pub trait Handler<I> {
    type Output;
    type Error;

    fn handle(&mut self, event: I) -> Result<Self::Output, Self::Error>;
}

impl<P, C, H> Handler<bisection::VerifierInput> for bisection::Verifier<P, C, H> where
    P: capabilities::VotingPowerCalculator,
    C: capabilities::CommitValidator,
    H: capabilities::HeaderHasher,
 {
    type Output = bisection::VerifierOutput;

    type Error = bisection::VerifierError;

    fn handle(&mut self, event: bisection::VerifierInput) -> Result<
        bisection::VerifierOutput,
        bisection::VerifierError,
    > {
        bisection::Verifier::<P, C, H>::handle(self, event)
    }
}

} // verus!
