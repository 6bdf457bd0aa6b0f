//! The operations that verification consults but does not define: header
//! hashing, commit validation and voting-power tallies. Users of the library
//! supply them. Each is pure: its answer is a function of its arguments,
//! named by the trait's spec method, so a check run twice on the same inputs
//! gets the same answers.
use crate::predicates::Answers;
use crate::types::{Commit, Error, HashValue, Header, SignedHeader, TrustedState, ValidatorSet};
use vstd::prelude::*;

verus! {

pub trait VotingPowerCalculator {
    /// The voting power of `validators` that signed `commit`.
    spec fn spec_voting_power_in(&self, commit: Commit, validators: ValidatorSet) -> Result<
        u64,
        Error,
    >;

    /// The total voting power of `validators`.
    spec fn spec_total_power_of(&self, validators: ValidatorSet) -> Result<u64, Error>;

    fn voting_power_in(&self, commit: &Commit, validators: &ValidatorSet) -> (r: Result<u64, Error>)
        ensures
            r == self.spec_voting_power_in(*commit, *validators),
    ;

    fn total_power_of(&self, validators: &ValidatorSet) -> (r: Result<u64, Error>)
        ensures
            r == self.spec_total_power_of(*validators),
    ;
}

pub trait CommitValidator {
    /// Whether `commit` is well formed for `validators`.
    spec fn spec_validate(&self, commit: Commit, validators: ValidatorSet) -> Result<(), Error>;

    fn validate(&self, commit: &Commit, validators: &ValidatorSet) -> (r: Result<(), Error>)
        ensures
            r == self.spec_validate(*commit, *validators),
    ;
}

pub trait HeaderHasher {
    /// The canonical hash of `header`.
    spec fn spec_hash(&self, header: Header) -> HashValue;

    fn hash(&self, header: &Header) -> (r: HashValue)
        ensures
            r == self.spec_hash(*header),
    ;
}

/// What the capabilities answer for checking `untrusted_sh`, with the
/// untrusted validators `untrusted_vals`, against `trusted_state`.
pub open spec fn answers_of<P: VotingPowerCalculator, C: CommitValidator, H: HeaderHasher>(
    calculator: P,
    commit_validator: C,
    header_hasher: H,
    trusted_state: TrustedState,
    untrusted_sh: SignedHeader,
    untrusted_vals: ValidatorSet,
) -> Answers {
    Answers {
        header_hash: header_hasher.spec_hash(untrusted_sh.header),
        commit_check: commit_validator.spec_validate(untrusted_sh.commit, untrusted_vals),
        trusted_power: calculator.spec_voting_power_in(
            untrusted_sh.commit,
            trusted_state.validators,
        ),
        trusted_total: calculator.spec_total_power_of(trusted_state.validators),
        signers_power: calculator.spec_voting_power_in(untrusted_sh.commit, untrusted_vals),
        signers_total: calculator.spec_total_power_of(untrusted_vals),
    }
}

} // verus!
