//! The voting-power tally over the signatures of a commit.
use crate::commit::{lemma_prefix_power_le, sum_powers, total_power, BlockCommit, CommitSig, Validator};
use crate::types::Error;
use vstd::prelude::*;

verus! {

/// The power at which the tally may stop: two thirds of `total`, rounded down.
pub open spec fn power_needed(total: int) -> int {
    total * 2 / 3
}

/// The tally from slot `i` on, with `tallied` counted before it: absent
/// slots are skipped; a slot whose signature did not verify fails the tally;
/// commit slots add their validator's power, nil slots add nothing; the
/// tally stops once it reaches `needed`.
pub open spec fn tally_from(
    signatures: Seq<CommitSig>,
    validators: Seq<Validator>,
    signature_valid: Seq<bool>,
    needed: int,
    i: int,
    tallied: int,
) -> Result<int, Error>
    decreases signatures.len() - i,
{
    if i < 0 || i >= signatures.len() {
        Ok(tallied)
    } else if signatures[i] is BlockIDFlagAbsent {
        tally_from(signatures, validators, signature_valid, needed, i + 1, tallied)
    } else if !signature_valid[i] {
        Err(Error::ImplementationSpecific)
    } else {
        let next = if signatures[i] is BlockIDFlagCommit {
            tallied + validators[i].power
        } else {
            tallied
        };
        if next >= needed {
            Ok(next)
        } else {
            tally_from(signatures, validators, signature_valid, needed, i + 1, next)
        }
    }
}

/// The voting power that signed, per the tally; fails when the slots and
/// the validators do not pair up or their total power does not fit.
pub open spec fn spec_voting_power_in(
    commit: BlockCommit,
    validators: Seq<Validator>,
    signature_valid: Seq<bool>,
) -> Result<int, Error> {
    if commit.signatures@.len() != validators.len() || signature_valid.len()
        != validators.len() || sum_powers(validators) > u64::MAX {
        Err(Error::ImplementationSpecific)
    } else {
        tally_from(
            commit.signatures@,
            validators,
            signature_valid,
            power_needed(sum_powers(validators)),
            0,
            0,
        )
    }
}

/// Voting power over commits whose signatures were checked one by one.
pub struct ProdVotingPowerCalculator;

impl ProdVotingPowerCalculator {
    /// The total voting power of `validators`; `None` when it does not fit.
    pub fn total_power_of(&self, validators: &Vec<Validator>) -> (r: Option<u64>)
        ensures
            r == (if sum_powers(validators@) <= u64::MAX {
                Some(sum_powers(validators@) as u64)
            } else {
                None
            }),
    {
        total_power(validators)
    }

    /// The voting power of `validators` that signed `commit`. The slot at
    /// index `i` belongs to `validators[i]`; `signature_valid[i]` says whether
    /// its signature verified against that validator's key over the
    /// canonical precommit that `vote_from_non_absent_signature` rebuilds.
    pub fn voting_power_in(
        &self,
        commit: &BlockCommit,
        validators: &Vec<Validator>,
        signature_valid: &Vec<bool>,
    ) -> (r: Result<u64, Error>)
        ensures
            match spec_voting_power_in(*commit, validators@, signature_valid@) {
                Ok(p) => r == Ok::<u64, Error>(p as u64),
                Err(e) => r == Err::<u64, Error>(e),
            },
    {
        let signatures = &commit.signatures;
        if signatures.len() != validators.len() || signature_valid.len() != validators.len() {
            return Err(Error::ImplementationSpecific);
        }
        let total = match self.total_power_of(validators) {
            Some(total) => total,
            None => {
                return Err(Error::ImplementationSpecific);
            },
        };
        let voting_power_needed: u64 = ((total as u128) * 2 / 3) as u64;
        proof {
            lemma_prefix_power_le(validators@, validators@.len() as int);
            assert(validators@.subrange(0, validators@.len() as int) =~= validators@);
        }
        let ghost sigs = signatures@;
        let ghost vals = validators@;
        let ghost valid = signature_valid@;
        let mut tallied_voting_power: u64 = 0;
        let mut idx: usize = 0;
        while idx < signatures.len()
            invariant
                sigs == commit.signatures@,
                signatures@ == sigs,
                vals == validators@,
                valid == signature_valid@,
                sigs.len() == vals.len(),
                valid.len() == vals.len(),
                idx <= sigs.len(),
                total == sum_powers(vals),
                voting_power_needed == power_needed(total as int),
                tallied_voting_power <= sum_powers(vals.subrange(0, idx as int)),
                tally_from(sigs, vals, valid, voting_power_needed as int, 0, 0) == tally_from(
                    sigs,
                    vals,
                    valid,
                    voting_power_needed as int,
                    idx as int,
                    tallied_voting_power as int,
                ),
            decreases sigs.len() - idx,
        {
            proof {
                assert(vals.subrange(0, idx + 1).drop_last() =~= vals.subrange(0, idx as int));
                lemma_prefix_power_le(vals, idx + 1);
            }
            let signature = &signatures[idx];
            if let CommitSig::BlockIDFlagAbsent = signature {
                idx = idx + 1;
                continue;
            }
            if !signature_valid[idx] {
                return Err(Error::ImplementationSpecific);
            }
            if let CommitSig::BlockIDFlagCommit { .. } = signature {
                tallied_voting_power = tallied_voting_power + validators[idx].power;
            }
            if tallied_voting_power >= voting_power_needed {
                return Ok(tallied_voting_power);
            }
            idx = idx + 1;
        }
        Ok(tallied_voting_power)
    }
}

} // verus!
