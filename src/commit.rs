//! Commits at the level of individual signatures: the validators of a
//! height, the slot each of them filled in the commit, and the votes that
//! the slots stand for.
use crate::types::{HashValue, Height, Time};
use vstd::prelude::*;

verus! {

/// A validator's account id.
pub type Address = u64;

#[derive(Clone, Copy, Debug, PartialEq, Eq, Structural)]
pub struct Validator {
    pub address: Address,
    pub power: u64,
}

/// One validator's slot in a commit.
#[derive(Clone, Debug)]
pub enum CommitSig {
    BlockIDFlagAbsent,
    BlockIDFlagCommit { validator_address: Address, timestamp: Time, signature: Vec<u8> },
    BlockIDFlagNil { validator_address: Address, timestamp: Time, signature: Vec<u8> },
}

/// The precommits collected for the block `block_id` at `height` and `round`,
/// one slot per validator, in the validator set's order.
#[derive(Clone, Debug)]
pub struct BlockCommit {
    pub height: Height,
    pub round: u64,
    pub block_id: HashValue,
    pub signatures: Vec<CommitSig>,
}

/// A precommit vote, as its signer signed it.
#[derive(Clone, Debug)]
pub struct Vote {
    pub height: Height,
    pub round: u64,
    /// The block voted for; `None` for a vote for nil.
    pub block_id: Option<HashValue>,
    pub timestamp: Time,
    pub validator_address: Address,
    pub validator_index: u64,
    pub signature: Vec<u8>,
}

/// The vote that a non-absent slot stands for.
pub open spec fn spec_vote_of(commit_sig: CommitSig, validator_index: u64, commit: BlockCommit) -> Option<
    (Option<HashValue>, Time, Address, Seq<u8>),
> {
    match commit_sig {
        CommitSig::BlockIDFlagAbsent => None,
        CommitSig::BlockIDFlagCommit { validator_address, timestamp, signature } => Some(
            (Some(commit.block_id), timestamp, validator_address, signature@),
        ),
        CommitSig::BlockIDFlagNil { validator_address, timestamp, signature } => Some(
            (None, timestamp, validator_address, signature@),
        ),
    }
}

/// Rebuilds the precommit that `commit_sig` carries: for the commit's block
/// when the slot is a commit, for nil when it is a nil vote, none when absent.
pub fn vote_from_non_absent_signature(
    commit_sig: &CommitSig,
    validator_index: u64,
    commit: &BlockCommit,
) -> (r: Option<Vote>)
    ensures
        match spec_vote_of(*commit_sig, validator_index, *commit) {
            None => r is None,
            Some((block_id, timestamp, validator_address, signature)) => match r {
                Some(vote) => {
                    &&& vote.height == commit.height
                    &&& vote.round == commit.round
                    &&& vote.block_id == block_id
                    &&& vote.timestamp == timestamp
                    &&& vote.validator_address == validator_address
                    &&& vote.validator_index == validator_index
                    &&& vote.signature@ == signature
                },
                None => false,
            },
        },
{
    let (validator_address, timestamp, signature, block_id) = match commit_sig {
        CommitSig::BlockIDFlagAbsent => {
            return None;
        },
        CommitSig::BlockIDFlagCommit { validator_address, timestamp, signature } => (
            *validator_address,
            *timestamp,
            signature.clone(),
            Some(commit.block_id),
        ),
        CommitSig::BlockIDFlagNil { validator_address, timestamp, signature } => (
            *validator_address,
            *timestamp,
            signature.clone(),
            None,
        ),
    };
    Some(
        Vote {
            height: commit.height,
            round: commit.round,
            block_id,
            timestamp,
            validator_address,
            validator_index,
            signature,
        },
    )
}

impl BlockCommit {
    /// The vote behind each slot, `None` for absent slots.
    pub fn iter(&self) -> (r: Vec<Option<Vote>>)
        ensures
            r@.len() == self.signatures@.len(),
            forall|i: int|
                0 <= i < r@.len() ==> (#[trigger] r@[i] is Some) == (spec_vote_of(
                    self.signatures@[i],
                    i as u64,
                    *self,
                ) is Some),
            forall|i: int|
                0 <= i < r@.len() ==> match (#[trigger] r@[i], spec_vote_of(
                    self.signatures@[i],
                    i as u64,
                    *self,
                )) {
                    (Some(vote), Some((block_id, timestamp, validator_address, signature))) => {
                        &&& vote.height == self.height
                        &&& vote.round == self.round
                        &&& vote.block_id == block_id
                        &&& vote.timestamp == timestamp
                        &&& vote.validator_address == validator_address
                        &&& vote.validator_index == i
                        &&& vote.signature@ == signature
                    },
                    _ => true,
                },
    {
        let mut out: Vec<Option<Vote>> = Vec::new();
        let mut i: usize = 0;
        while i < self.signatures.len()
            invariant
                i <= self.signatures@.len(),
                out@.len() == i,
                forall|j: int|
                    0 <= j < i ==> (#[trigger] out@[j] is Some) == (spec_vote_of(
                        self.signatures@[j],
                        j as u64,
                        *self,
                    ) is Some),
                forall|j: int|
                    0 <= j < i ==> match (#[trigger] out@[j], spec_vote_of(
                        self.signatures@[j],
                        j as u64,
                        *self,
                    )) {
                        (Some(vote), Some((block_id, timestamp, validator_address, signature))) => {
                            &&& vote.height == self.height
                            &&& vote.round == self.round
                            &&& vote.block_id == block_id
                            &&& vote.timestamp == timestamp
                            &&& vote.validator_address == validator_address
                            &&& vote.validator_index == j
                            &&& vote.signature@ == signature
                        },
                        _ => true,
                    },
            decreases self.signatures@.len() - i,
        {
            let vote = vote_from_non_absent_signature(&self.signatures[i], i as u64, self);
            out.push(vote);
            i = i + 1;
        }
        out
    }

}

/// The sum of the validators' voting powers.
pub open spec fn sum_powers(validators: Seq<Validator>) -> int
    decreases validators.len(),
{
    if validators.len() == 0 {
        0
    } else {
        sum_powers(validators.drop_last()) + validators.last().power
    }
}

/// A prefix never holds more power than the whole.
pub proof fn lemma_prefix_power_le(validators: Seq<Validator>, j: int)
    requires
        0 <= j <= validators.len(),
    ensures
        0 <= sum_powers(validators.subrange(0, j)) <= sum_powers(validators),
    decreases validators.len(),
{
    if validators.len() > 0 {
        if j == validators.len() {
            assert(validators.subrange(0, j) =~= validators);
            lemma_prefix_power_le(validators.drop_last(), j - 1);
        } else {
            assert(validators.subrange(0, j) =~= validators.drop_last().subrange(0, j));
            lemma_prefix_power_le(validators.drop_last(), j);
        }
    }
}

/// The sum of the validators' voting powers; `None` when it does not fit.
pub fn total_power(validators: &Vec<Validator>) -> (r: Option<u64>)
    ensures
        r == (if sum_powers(validators@) <= u64::MAX {
            Some(sum_powers(validators@) as u64)
        } else {
            None
        }),
{
    let mut total: u64 = 0;
    let mut i: usize = 0;
    while i < validators.len()
        invariant
            i <= validators@.len(),
            total == sum_powers(validators@.subrange(0, i as int)),
        decreases validators@.len() - i,
    {
        proof {
            assert(validators@.subrange(0, i + 1).drop_last() =~= validators@.subrange(0, i as int));
        }
        match total.checked_add(validators[i].power) {
            Some(t) => {
                total = t;
            },
            None => {
                proof {
                    lemma_prefix_power_le(validators@, i + 1);
                }
                return None;
            },
        }
        i = i + 1;
    }
    proof {
        assert(validators@.subrange(0, i as int) =~= validators@);
    }
    Some(total)
}

/// The first validator with the account id `address`.
pub open spec fn spec_find_validator(validators: Seq<Validator>, address: Address) -> Option<
    Validator,
>
    decreases validators.len(),
{
    if validators.len() == 0 {
        None
    } else if validators[0].address == address {
        Some(validators[0])
    } else {
        spec_find_validator(validators.drop_first(), address)
    }
}

/// Looks a validator up by account id.
pub fn find_validator(validators: &Vec<Validator>, address: Address) -> (r: Option<Validator>)
    ensures
        r == spec_find_validator(validators@, address),
{
    let mut i: usize = 0;
    proof {
        assert(validators@.subrange(0, validators@.len() as int) =~= validators@);
    }
    while i < validators.len()
        invariant
            i <= validators@.len(),
            spec_find_validator(validators@, address) == spec_find_validator(
                validators@.subrange(i as int, validators@.len() as int),
                address,
            ),
        decreases validators@.len() - i,
    {
        proof {
            let rest = validators@.subrange(i as int, validators@.len() as int);
            assert(rest.drop_first() =~= validators@.subrange(i + 1, validators@.len() as int));
        }
        if validators[i].address == address {
            return Some(validators[i]);
        }
        i = i + 1;
    }
    None
}

} // verus!
