//! The values that the light client reasons about: headers, validator sets,
//! commits and the states built from them. Only the fields that the core
//! verification reads are kept; hashing and signatures live behind the
//! capabilities of `capabilities`.
use vstd::prelude::*;

verus! {

/// A block hash, as handed out by the header hasher.
pub type HashValue = u64;

/// A block height.
pub type Height = u64;

/// A wall-clock instant, in nanoseconds since the Unix epoch.
pub type Time = u64;

/// A span of wall-clock time, in nanoseconds.
pub type Nanos = u64;

/// Why an untrusted state could not be promoted to trusted.
#[derive(Clone, Copy, Debug, PartialEq, Eq, Structural)]
pub enum Error {
    ImplementationSpecific,
    InsufficientValidatorsOverlap,
    InsufficientVotingPower,
    InvalidCommit,
    InvalidCommitValue,
    InvalidNextValidatorSet,
    InvalidValidatorSet,
    NonIncreasingHeight,
    NonMonotonicBftTime,
    NotWithinTrustPeriod,
}

#[derive(Clone, Copy, Debug, PartialEq, Eq, Structural)]
pub struct Header {
    pub height: Height,
    pub bft_time: Time,
    pub validator_set_hash: HashValue,
    pub next_validator_set_hash: HashValue,
    pub hash: HashValue,
}

#[derive(Clone, Copy, Debug, PartialEq, Eq, Structural)]
pub struct ValidatorSet {
    pub hash: HashValue,
}

#[derive(Clone, Copy, Debug, PartialEq, Eq, Structural)]
pub struct Commit {
    pub header_hash: HashValue,
}

/// The fraction `numerator / denominator` of voting power that must sign.
#[derive(Clone, Copy, Debug, PartialEq, Eq, Structural)]
pub struct TrustThreshold {
    pub numerator: u64,
    pub denominator: u64,
}

impl TrustThreshold {
    /// A usable threshold lies in `(0, 1]`.
    pub open spec fn is_valid(self) -> bool {
        0 < self.numerator <= self.denominator
    }

    /// A threshold of `numerator / denominator`, if it lies in `(0, 1]`.
    pub fn new(numerator: u64, denominator: u64) -> (r: Option<TrustThreshold>)
        ensures
            r == (if 0 < numerator <= denominator {
                Some(TrustThreshold { numerator, denominator })
            } else {
                None
            }),
    {
        if 0 < numerator && numerator <= denominator {
            Some(TrustThreshold { numerator, denominator })
        } else {
            None
        }
    }
}

impl Default for TrustThreshold {
    /// The canonical threshold of one third.
    fn default() -> (r: TrustThreshold)
        ensures
            r == (TrustThreshold { numerator: 1, denominator: 3 }),
    {
        TrustThreshold { numerator: 1, denominator: 3 }
    }
}

#[derive(Clone, Copy, Debug, PartialEq, Eq, Structural)]
pub struct SignedHeader {
    pub header: Header,
    pub commit: Commit,
    pub validators: ValidatorSet,
    pub validator_hash: HashValue,
}

/// A header together with the validator set that signed it, once verified.
#[derive(Clone, Copy, Debug, PartialEq, Eq, Structural)]
pub struct TrustedState {
    pub header: Header,
    pub validators: ValidatorSet,
}

} // verus!
