//! The verification predicates and their conjunction.
//!
//! Each check comes three ways: a spec function that says when it holds, an
//! executable test (`_name`) and an assertion (`name`) that fails with the
//! check's error kind. The conjunction is evaluated in a fixed order and
//! reports the first check that fails.
use crate::types::{
    Commit, Error, HashValue, Header, Nanos, SignedHeader, Time, TrustThreshold, TrustedState,
    ValidatorSet,
};
use vstd::prelude::*;

verus! {

/// What the capabilities answered while one untrusted state was checked.
#[derive(Clone, Copy, Debug)]
pub struct Answers {
    /// The header hasher on the untrusted header.
    pub header_hash: HashValue,
    /// The commit validator on the untrusted commit and validators.
    pub commit_check: Result<(), Error>,
    /// Voting power of the trusted validators in the untrusted commit.
    pub trusted_power: Result<u64, Error>,
    /// Total voting power of the trusted validators.
    pub trusted_total: Result<u64, Error>,
    /// Voting power of the untrusted validators in the untrusted commit.
    pub signers_power: Result<u64, Error>,
    /// Total voting power of the untrusted validators.
    pub signers_total: Result<u64, Error>,
}

/// `Ok` when `holds`, else the failure `kind`.
pub open spec fn check(holds: bool, kind: Error) -> Result<(), Error> {
    if holds {
        Ok(())
    } else {
        Err(kind)
    }
}

pub open spec fn spec_validator_sets_match(sh: SignedHeader, validators: ValidatorSet) -> bool {
    sh.validator_hash == validators.hash
}

pub open spec fn spec_next_validators_match(
    sh: SignedHeader,
    next_validators: ValidatorSet,
) -> bool {
    sh.header.next_validator_set_hash == next_validators.hash
}

pub open spec fn spec_header_matches_commit(header_hash: HashValue, commit: Commit) -> bool {
    header_hash == commit.header_hash
}

pub open spec fn spec_within_trust_period(header: Header, trusting_period: Nanos, now: Time) -> bool {
    header.bft_time < now && header.bft_time + trusting_period > now
}

pub open spec fn spec_monotonic_bft_time(trusted: Header, untrusted: Header) -> bool {
    untrusted.bft_time >= trusted.bft_time
}

/// `header_a` is higher than `header_b`.
pub open spec fn spec_monotonic_height(header_a: Header, header_b: Header) -> bool {
    header_a.height > header_b.height
}

pub open spec fn spec_invalid_next_validator_set(
    trusted_state: TrustedState,
    sh: SignedHeader,
    next_validators: ValidatorSet,
) -> bool {
    sh.header.height == trusted_state.header.height && trusted_state.validators.hash
        != next_validators.hash
}

/// More than `threshold` of the total power signed: `power * den > total * num`.
pub open spec fn spec_sufficient_voting_power(
    voting_power: Result<u64, Error>,
    total_power: Result<u64, Error>,
    threshold: TrustThreshold,
) -> bool {
    match (voting_power, total_power) {
        (Ok(p), Ok(t)) => p * threshold.denominator > t * threshold.numerator,
        _ => false,
    }
}

/// The outcome of the whole conjunction: the kind of the first check, in the
/// fixed order, that fails under `answers`, or `Ok` when all hold.
pub open spec fn verdict(
    trusted_state: TrustedState,
    sh: SignedHeader,
    validators: ValidatorSet,
    next_validators: ValidatorSet,
    threshold: TrustThreshold,
    trusting_period: Nanos,
    now: Time,
    answers: Answers,
) -> Result<(), Error> {
    if !spec_within_trust_period(trusted_state.header, trusting_period, now) {
        Err(Error::NotWithinTrustPeriod)
    } else if !spec_validator_sets_match(sh, validators) {
        Err(Error::InvalidValidatorSet)
    } else if !spec_next_validators_match(sh, next_validators) {
        Err(Error::InvalidNextValidatorSet)
    } else if !spec_header_matches_commit(answers.header_hash, sh.commit) {
        Err(Error::InvalidCommitValue)
    } else if answers.commit_check is Err {
        Err(Error::ImplementationSpecific)
    } else if !spec_monotonic_bft_time(trusted_state.header, sh.header) {
        Err(Error::NonMonotonicBftTime)
    } else if !spec_monotonic_height(sh.header, trusted_state.header) {
        Err(Error::NonIncreasingHeight)
    } else if spec_invalid_next_validator_set(trusted_state, sh, next_validators) {
        Err(Error::InvalidNextValidatorSet)
    } else if !spec_sufficient_voting_power(
        answers.trusted_power,
        answers.trusted_total,
        threshold,
    ) {
        Err(Error::InsufficientValidatorsOverlap)
    } else if !spec_sufficient_voting_power(
        answers.signers_power,
        answers.signers_total,
        threshold,
    ) {
        Err(Error::InvalidCommit)
    } else {
        Ok(())
    }
}

pub fn _validator_sets_match(signed_header: &SignedHeader, validators: &ValidatorSet) -> (r: bool)
    ensures
        r == spec_validator_sets_match(*signed_header, *validators),
{
    signed_header.validator_hash == validators.hash
}

pub fn validator_sets_match(signed_header: &SignedHeader, validators: &ValidatorSet) -> (r: Result<
    (),
    Error,
>)
    ensures
        r == check(spec_validator_sets_match(*signed_header, *validators), Error::InvalidValidatorSet),
{
    if _validator_sets_match(signed_header, validators) {
        Ok(())
    } else {
        Err(Error::InvalidValidatorSet)
    }
}

pub fn _next_validators_match(signed_header: &SignedHeader, validators: &ValidatorSet) -> (r: bool)
    ensures
        r == spec_next_validators_match(*signed_header, *validators),
{
    signed_header.header.next_validator_set_hash == validators.hash
}

pub fn next_validators_match(signed_header: &SignedHeader, validators: &ValidatorSet) -> (r: Result<
    (),
    Error,
>)
    ensures
        r == check(
            spec_next_validators_match(*signed_header, *validators),
            Error::InvalidNextValidatorSet,
        ),
{
    if _next_validators_match(signed_header, validators) {
        Ok(())
    } else {
        Err(Error::InvalidNextValidatorSet)
    }
}

/// `header_hash` is what the header hasher gave for the header.
pub fn _header_matches_commit(header_hash: HashValue, commit: &Commit) -> (r: bool)
    ensures
        r == spec_header_matches_commit(header_hash, *commit),
{
    header_hash == commit.header_hash
}

pub fn header_matches_commit(header_hash: HashValue, commit: &Commit) -> (r: Result<(), Error>)
    ensures
        r == check(spec_header_matches_commit(header_hash, *commit), Error::InvalidCommitValue),
{
    if _header_matches_commit(header_hash, commit) {
        Ok(())
    } else {
        Err(Error::InvalidCommitValue)
    }
}

/// `validation` is what the commit validator gave for the commit.
pub fn _valid_commit(validation: &Result<(), Error>) -> (r: bool)
    ensures
        r == validation is Ok,
{
    validation.is_ok()
}

pub fn valid_commit(validation: &Result<(), Error>) -> (r: Result<(), Error>)
    ensures
        r == check(validation is Ok, Error::ImplementationSpecific),
{
    if _valid_commit(validation) {
        Ok(())
    } else {
        Err(Error::ImplementationSpecific)
    }
}

pub fn _is_within_trust_period(header: &Header, trusting_period: Nanos, now: Time) -> (r: bool)
    ensures
        r == spec_within_trust_period(*header, trusting_period, now),
{
    // `now - bft_time < trusting_period` is `bft_time + trusting_period > now`
    // without the sum, which may not fit.
    header.bft_time < now && now - header.bft_time < trusting_period
}

pub fn is_within_trust_period(header: &Header, trusting_period: Nanos, now: Time) -> (r: Result<
    (),
    Error,
>)
    ensures
        r == check(spec_within_trust_period(*header, trusting_period, now), Error::NotWithinTrustPeriod),
{
    if _is_within_trust_period(header, trusting_period, now) {
        Ok(())
    } else {
        Err(Error::NotWithinTrustPeriod)
    }
}

/// `header_b` is not older than `header_a`.
pub fn _is_monotonic_bft_time(header_a: &Header, header_b: &Header) -> (r: bool)
    ensures
        r == spec_monotonic_bft_time(*header_a, *header_b),
{
    header_b.bft_time >= header_a.bft_time
}

pub fn is_monotonic_bft_time(header_a: &Header, header_b: &Header) -> (r: Result<(), Error>)
    ensures
        r == check(spec_monotonic_bft_time(*header_a, *header_b), Error::NonMonotonicBftTime),
{
    if _is_monotonic_bft_time(header_a, header_b) {
        Ok(())
    } else {
        Err(Error::NonMonotonicBftTime)
    }
}

/// `header_a` is higher than `header_b`.
pub fn _is_monotonic_height(header_a: &Header, header_b: &Header) -> (r: bool)
    ensures
        r == spec_monotonic_height(*header_a, *header_b),
{
    header_a.height > header_b.height
}

pub fn is_monotonic_height(header_a: &Header, header_b: &Header) -> (r: Result<(), Error>)
    ensures
        r == check(spec_monotonic_height(*header_a, *header_b), Error::NonIncreasingHeight),
{
    if _is_monotonic_height(header_a, header_b) {
        Ok(())
    } else {
        Err(Error::NonIncreasingHeight)
    }
}

pub fn _invalid_next_validator_set(
    trusted_state: &TrustedState,
    untrusted_sh: &SignedHeader,
    untrusted_next_vals: &ValidatorSet,
) -> (r: bool)
    ensures
        r == spec_invalid_next_validator_set(*trusted_state, *untrusted_sh, *untrusted_next_vals),
{
    untrusted_sh.header.height == trusted_state.header.height && trusted_state.validators.hash
        != untrusted_next_vals.hash
}

pub fn valid_next_validator_set(
    trusted_state: &TrustedState,
    untrusted_sh: &SignedHeader,
    untrusted_next_vals: &ValidatorSet,
) -> (r: Result<(), Error>)
    ensures
        r == check(
            !spec_invalid_next_validator_set(*trusted_state, *untrusted_sh, *untrusted_next_vals),
            Error::InvalidNextValidatorSet,
        ),
{
    if !_invalid_next_validator_set(trusted_state, untrusted_sh, untrusted_next_vals) {
        Ok(())
    } else {
        Err(Error::InvalidNextValidatorSet)
    }
}

/// `voting_power` and `total_power` are what the voting-power calculator gave.
pub fn _has_sufficient_voting_power(
    voting_power: Result<u64, Error>,
    total_power: Result<u64, Error>,
    trust_threshold: &TrustThreshold,
) -> (r: bool)
    ensures
        r == spec_sufficient_voting_power(voting_power, total_power, *trust_threshold),
{
    match (voting_power, total_power) {
        (Ok(p), Ok(t)) => {
            let num = trust_threshold.numerator;
            let den = trust_threshold.denominator;
            proof {
                vstd::arithmetic::mul::lemma_mul_upper_bound(
                    p as int,
                    u64::MAX as int,
                    den as int,
                    u64::MAX as int,
                );
                vstd::arithmetic::mul::lemma_mul_upper_bound(
                    t as int,
                    u64::MAX as int,
                    num as int,
                    u64::MAX as int,
                );
            }
            (p as u128) * (den as u128) > (t as u128) * (num as u128)
        },
        _ => false,
    }
}

pub fn has_sufficient_voting_power(
    voting_power: Result<u64, Error>,
    total_power: Result<u64, Error>,
    trust_threshold: &TrustThreshold,
) -> (r: Result<(), Error>)
    ensures
        r == check(
            spec_sufficient_voting_power(voting_power, total_power, *trust_threshold),
            Error::InsufficientVotingPower,
        ),
{
    if _has_sufficient_voting_power(voting_power, total_power, trust_threshold) {
        Ok(())
    } else {
        Err(Error::InsufficientVotingPower)
    }
}

/// Overlap with the trusted validators: their power in the untrusted commit.
pub fn _has_sufficient_validators_overlap(
    voting_power: Result<u64, Error>,
    total_power: Result<u64, Error>,
    trust_threshold: &TrustThreshold,
) -> (r: bool)
    ensures
        r == spec_sufficient_voting_power(voting_power, total_power, *trust_threshold),
{
    _has_sufficient_voting_power(voting_power, total_power, trust_threshold)
}

pub fn has_sufficient_validators_overlap(
    voting_power: Result<u64, Error>,
    total_power: Result<u64, Error>,
    trust_threshold: &TrustThreshold,
) -> (r: Result<(), Error>)
    ensures
        r == check(
            spec_sufficient_voting_power(voting_power, total_power, *trust_threshold),
            Error::InsufficientValidatorsOverlap,
        ),
{
    if _has_sufficient_validators_overlap(voting_power, total_power, trust_threshold) {
        Ok(())
    } else {
        Err(Error::InsufficientValidatorsOverlap)
    }
}

/// Overlap with the untrusted validators: their power in their own commit.
pub fn _has_sufficient_signers_overlap(
    voting_power: Result<u64, Error>,
    total_power: Result<u64, Error>,
    trust_threshold: &TrustThreshold,
) -> (r: bool)
    ensures
        r == spec_sufficient_voting_power(voting_power, total_power, *trust_threshold),
{
    _has_sufficient_voting_power(voting_power, total_power, trust_threshold)
}

pub fn has_sufficient_signers_overlap(
    voting_power: Result<u64, Error>,
    total_power: Result<u64, Error>,
    trust_threshold: &TrustThreshold,
) -> (r: Result<(), Error>)
    ensures
        r == check(
            spec_sufficient_voting_power(voting_power, total_power, *trust_threshold),
            Error::InvalidCommit,
        ),
{
    if _has_sufficient_signers_overlap(voting_power, total_power, trust_threshold) {
        Ok(())
    } else {
        Err(Error::InvalidCommit)
    }
}

/// The conjunction of all checks, in order, under the capabilities' `answers`.
pub fn verify_pred(
    trusted_state: &TrustedState,
    untrusted_sh: &SignedHeader,
    untrusted_vals: &ValidatorSet,
    untrusted_next_vals: &ValidatorSet,
    trust_threshold: &TrustThreshold,
    trusting_period: Nanos,
    now: Time,
    answers: &Answers,
) -> (r: Result<(), Error>)
    ensures
        r == verdict(
            *trusted_state,
            *untrusted_sh,
            *untrusted_vals,
            *untrusted_next_vals,
            *trust_threshold,
            trusting_period,
            now,
            *answers,
        ),
{
    is_within_trust_period(&trusted_state.header, trusting_period, now)?;
    validator_sets_match(untrusted_sh, untrusted_vals)?;
    next_validators_match(untrusted_sh, untrusted_next_vals)?;
    header_matches_commit(answers.header_hash, &untrusted_sh.commit)?;
    valid_commit(&answers.commit_check)?;
    is_monotonic_bft_time(&trusted_state.header, &untrusted_sh.header)?;
    is_monotonic_height(&untrusted_sh.header, &trusted_state.header)?;
    valid_next_validator_set(trusted_state, untrusted_sh, untrusted_next_vals)?;
    has_sufficient_validators_overlap(
        answers.trusted_power,
        answers.trusted_total,
        trust_threshold,
    )?;
    has_sufficient_signers_overlap(answers.signers_power, answers.signers_total, trust_threshold)
}

} // verus!
