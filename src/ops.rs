//! Light-client operations over precommit votes: rebuilding the votes of a
//! commit, validating them against a validator set, and tallying their power.
use crate::commit::{spec_find_validator, find_validator, Validator, Vote};
use crate::types::{Error, HashValue};
use vstd::prelude::*;

verus! {

/// Operations over the precommit votes of a signed header.
pub struct LightImplOps;

/// Whether some validator has the account id of `vote`'s signer.
pub open spec fn signer_known(validators: Seq<Validator>, vote: Vote) -> bool {
    spec_find_validator(validators, vote.validator_address) is Some
}

/// The first fault, from slot `i` on: a vote for a header other than
/// `header_hash`, or a vote by a signer outside `validators`.
pub open spec fn first_fault_from(
    precommits: Seq<Option<Vote>>,
    header_hash: HashValue,
    validators: Seq<Validator>,
    i: int,
) -> Result<(), Error>
    decreases precommits.len() - i,
{
    if i < 0 || i >= precommits.len() {
        Ok(())
    } else {
        match precommits[i] {
            None => first_fault_from(precommits, header_hash, validators, i + 1),
            Some(vote) => if vote.block_id is Some && vote.block_id != Some(header_hash) {
                Err(Error::ImplementationSpecific)
            } else if !signer_known(validators, vote) {
                Err(Error::InvalidCommit)
            } else {
                first_fault_from(precommits, header_hash, validators, i + 1)
            },
        }
    }
}

/// The power tallied from slot `i` on, with `signed` counted before it:
/// absent votes and votes by unknown signers are skipped; a vote whose
/// signature did not verify fails the tally.
pub open spec fn signed_power_from(
    precommits: Seq<Option<Vote>>,
    validators: Seq<Validator>,
    signature_valid: Seq<bool>,
    i: int,
    signed: int,
) -> Result<int, Error>
    decreases precommits.len() - i,
{
    if i < 0 || i >= precommits.len() {
        Ok(signed)
    } else {
        match precommits[i] {
            None => signed_power_from(precommits, validators, signature_valid, i + 1, signed),
            Some(vote) => match spec_find_validator(validators, vote.validator_address) {
                None => signed_power_from(precommits, validators, signature_valid, i + 1, signed),
                Some(val) => if !signature_valid[i] {
                    Err(Error::ImplementationSpecific)
                } else if signed + val.power > u64::MAX {
                    Err(Error::ImplementationSpecific)
                } else {
                    signed_power_from(
                        precommits,
                        validators,
                        signature_valid,
                        i + 1,
                        signed + val.power,
                    )
                },
            },
        }
    }
}

impl LightImplOps {
    /// Checks the precommits against the header they should vote for and the
    /// validator set that should have cast them: the counts must match, then,
    /// slot by slot, each vote must be for `header_hash` (or for nil) and by
    /// a known validator.
    pub fn validate(
        &self,
        precommits: &Vec<Option<Vote>>,
        header_hash: HashValue,
        validators: &Vec<Validator>,
    ) -> (r: Result<(), Error>)
        ensures
            r == (if precommits@.len() != validators@.len() {
                Err(Error::ImplementationSpecific)
            } else {
                first_fault_from(precommits@, header_hash, validators@, 0)
            }),
    {
        if precommits.len() != validators.len() {
            return Err(Error::ImplementationSpecific);
        }
        let mut i: usize = 0;
        while i < precommits.len()
            invariant
                i <= precommits@.len(),
                precommits@.len() == validators@.len(),
                first_fault_from(precommits@, header_hash, validators@, 0) == first_fault_from(
                    precommits@,
                    header_hash,
                    validators@,
                    i as int,
                ),
            decreases precommits@.len() - i,
        {
            match &precommits[i] {
                Some(precommit) => {
                    if let Some(voted) = precommit.block_id {
                        if voted != header_hash {
                            return Err(Error::ImplementationSpecific);
                        }
                    }
                    if find_validator(validators, precommit.validator_address).is_none() {
                        proof {
                            assert(precommits@[i as int] == Some(*precommit));

                        }
                        return Err(Error::InvalidCommit);
                    }
                },
                None => {},
            }
            i = i + 1;
        }
        Ok(())
    }

    /// The power of the known validators whose votes are in `precommits`;
    /// `signature_valid[i]` says whether the vote at slot `i` verified
    /// against its signer's key.
    pub fn voting_power_in(
        &self,
        precommits: &Vec<Option<Vote>>,
        validators: &Vec<Validator>,
        signature_valid: &Vec<bool>,
    ) -> (r: Result<u64, Error>)
        ensures
            signature_valid@.len() != precommits@.len() ==> r == Err::<u64, Error>(
                Error::ImplementationSpecific,
            ),
            signature_valid@.len() == precommits@.len() ==> match signed_power_from(
                precommits@,
                validators@,
                signature_valid@,
                0,
                0,
            ) {
                Ok(p) => r == Ok::<u64, Error>(p as u64),
                Err(e) => r == Err::<u64, Error>(e),
            },
    {
        if signature_valid.len() != precommits.len() {
            return Err(Error::ImplementationSpecific);
        }
        let mut signed_power: u64 = 0;
        let mut i: usize = 0;
        while i < precommits.len()
            invariant
                i <= precommits@.len(),
                signature_valid@.len() == precommits@.len(),
                signed_power_from(precommits@, validators@, signature_valid@, 0, 0)
                    == signed_power_from(
                    precommits@,
                    validators@,
                    signature_valid@,
                    i as int,
                    signed_power as int,
                ),
            decreases precommits@.len() - i,
        {
            if let Some(vote) = &precommits[i] {
                if let Some(val) = find_validator(validators, vote.validator_address) {
                    if !signature_valid[i] {
                        return Err(Error::ImplementationSpecific);
                    }
                    match signed_power.checked_add(val.power) {
                        Some(p) => {
                            signed_power = p;
                        },
                        None => {
                            return Err(Error::ImplementationSpecific);
                        },
                    }
                }
            }
            i = i + 1;
        }
        Ok(signed_power)
    }
}

} // verus!
