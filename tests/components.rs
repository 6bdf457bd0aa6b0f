use light_spike::commit::{
    find_validator, total_power, vote_from_non_absent_signature, BlockCommit, CommitSig, Validator,
    Vote,
};
use light_spike::bisection::{VerifierInput, VerifierOutput};
use light_spike::encoding::{bytes_enc, encode_varint};
use light_spike::events::{route_event, Input, Output, RequesterInput, RequesterOutput, Route};
use light_spike::light_client::{LightClient, LightClientError, LightClientEvent};
use light_spike::ops::LightImplOps;
use light_spike::predicates::{
    _has_sufficient_signers_overlap, _has_sufficient_validators_overlap,
    _has_sufficient_voting_power, _is_monotonic_bft_time, has_sufficient_voting_power, _is_monotonic_height,
    _is_within_trust_period, has_sufficient_signers_overlap, has_sufficient_validators_overlap,
    header_matches_commit, is_monotonic_bft_time, is_monotonic_height, is_within_trust_period,
    next_validators_match, valid_commit, valid_next_validator_set, validator_sets_match,
    verify_pred, Answers,
};
use light_spike::trusted_store::TrustedStore;
use light_spike::types::{
    Commit, Error, Header, SignedHeader, TrustThreshold, TrustedState, ValidatorSet,
};
use light_spike::voting_power::ProdVotingPowerCalculator;

fn header(height: u64, bft_time: u64) -> Header {
    Header {
        height,
        bft_time,
        validator_set_hash: 100 + height,
        next_validator_set_hash: 101 + height,
        hash: 500 + height,
    }
}

fn trusted(height: u64, bft_time: u64) -> TrustedState {
    TrustedState { header: header(height, bft_time), validators: ValidatorSet { hash: 100 + height } }
}

fn signed(height: u64, bft_time: u64) -> SignedHeader {
    SignedHeader {
        header: header(height, bft_time),
        commit: Commit { header_hash: 500 + height },
        validators: ValidatorSet { hash: 100 + height },
        validator_hash: 100 + height,
    }
}

fn good_answers(height: u64) -> Answers {
    Answers {
        header_hash: 500 + height,
        commit_check: Ok(()),
        trusted_power: Ok(31),
        trusted_total: Ok(42),
        signers_power: Ok(31),
        signers_total: Ok(42),
    }
}

fn third() -> TrustThreshold {
    TrustThreshold::default()
}

fn check(answers: Answers, sh: SignedHeader, vals: ValidatorSet, next: ValidatorSet) -> Result<(), Error> {
    verify_pred(&trusted(9, 100), &sh, &vals, &next, &third(), 1_000, 150, &answers)
}

#[test]
fn all_checks_pass() {
    let r = check(good_answers(10), signed(10, 120), ValidatorSet { hash: 110 }, ValidatorSet { hash: 111 });
    assert_eq!(r, Ok(()));
}

#[test]
fn each_check_reports_its_kind() {
    let sh = signed(10, 120);
    let vals = ValidatorSet { hash: 110 };
    let next = ValidatorSet { hash: 111 };
    // Outside the trusting period.
    assert_eq!(
        verify_pred(&trusted(9, 100), &sh, &vals, &next, &third(), 10, 150, &good_answers(10)),
        Err(Error::NotWithinTrustPeriod)
    );
    assert_eq!(check(good_answers(10), sh, ValidatorSet { hash: 1 }, next), Err(Error::InvalidValidatorSet));
    assert_eq!(check(good_answers(10), sh, vals, ValidatorSet { hash: 1 }), Err(Error::InvalidNextValidatorSet));
    let mut a = good_answers(10);
    a.header_hash = 1;
    assert_eq!(check(a, sh, vals, next), Err(Error::InvalidCommitValue));
    let mut a = good_answers(10);
    a.commit_check = Err(Error::InvalidCommit);
    assert_eq!(check(a, sh, vals, next), Err(Error::ImplementationSpecific));
    assert_eq!(check(good_answers(10), signed(10, 90), vals, next), Err(Error::NonMonotonicBftTime));
    let mut low = signed(9, 120);
    low.validator_hash = 110;
    low.header.next_validator_set_hash = 111;
    low.commit.header_hash = 509;
    assert_eq!(check(good_answers(9), low, vals, next), Err(Error::NonIncreasingHeight));
    let mut a = good_answers(10);
    a.trusted_power = Ok(14);
    assert_eq!(check(a, sh, vals, next), Err(Error::InsufficientValidatorsOverlap));
    let mut a = good_answers(10);
    a.signers_total = Err(Error::ImplementationSpecific);
    assert_eq!(check(a, sh, vals, next), Err(Error::InvalidCommit));
}

#[test]
fn first_failing_check_wins() {
    let mut a = good_answers(10);
    a.header_hash = 1;
    a.trusted_power = Ok(0);
    let r = check(a, signed(10, 90), ValidatorSet { hash: 110 }, ValidatorSet { hash: 111 });
    assert_eq!(r, Err(Error::InvalidCommitValue));
}

#[test]
fn single_predicates() {
    let h9 = header(9, 100);
    let h10 = header(10, 120);
    assert!(_is_within_trust_period(&h9, 100, 150));
    assert!(!_is_within_trust_period(&h9, 50, 150));
    assert!(!_is_within_trust_period(&h9, 100, 100));
    assert!(_is_within_trust_period(&header(1, u64::MAX - 10), u64::MAX, u64::MAX - 1));
    assert_eq!(is_within_trust_period(&h9, 50, 150), Err(Error::NotWithinTrustPeriod));
    assert!(_is_monotonic_bft_time(&h9, &h10));
    assert!(_is_monotonic_bft_time(&h9, &header(10, 100)));
    assert_eq!(is_monotonic_bft_time(&h10, &h9), Err(Error::NonMonotonicBftTime));
    assert!(_is_monotonic_height(&h10, &h9));
    assert!(!_is_monotonic_height(&h9, &h10));
    assert_eq!(is_monotonic_height(&h10, &h9), Ok(()));
    assert_eq!(is_monotonic_height(&h9, &h10), Err(Error::NonIncreasingHeight));
    assert_eq!(is_monotonic_height(&h9, &h9), Err(Error::NonIncreasingHeight));
    let sh = signed(10, 120);
    assert_eq!(validator_sets_match(&sh, &ValidatorSet { hash: 110 }), Ok(()));
    assert_eq!(next_validators_match(&sh, &ValidatorSet { hash: 110 }), Err(Error::InvalidNextValidatorSet));
    assert_eq!(header_matches_commit(510, &sh.commit), Ok(()));
    assert_eq!(valid_commit(&Err(Error::InvalidCommit)), Err(Error::ImplementationSpecific));
    let same_height = trusted(10, 100);
    assert_eq!(
        valid_next_validator_set(&same_height, &sh, &ValidatorSet { hash: 999 }),
        Err(Error::InvalidNextValidatorSet)
    );
    assert_eq!(valid_next_validator_set(&same_height, &sh, &ValidatorSet { hash: 110 }), Ok(()));
}

#[test]
fn voting_power_threshold_is_strict() {
    // 14 of 42 is exactly one third: not more than it.
    assert!(!_has_sufficient_voting_power(Ok(14), Ok(42), &third()));
    assert!(_has_sufficient_voting_power(Ok(15), Ok(42), &third()));
    assert!(!_has_sufficient_voting_power(Err(Error::ImplementationSpecific), Ok(42), &third()));
    assert!(_has_sufficient_voting_power(Ok(u64::MAX), Ok(u64::MAX), &TrustThreshold { numerator: 2, denominator: 3 }));
    assert_eq!(has_sufficient_validators_overlap(Ok(5), Ok(42), &third()), Err(Error::InsufficientValidatorsOverlap));
    assert_eq!(has_sufficient_signers_overlap(Ok(5), Ok(42), &third()), Err(Error::InvalidCommit));
    assert_eq!(has_sufficient_voting_power(Ok(5), Ok(42), &third()), Err(Error::InsufficientVotingPower));
    assert_eq!(has_sufficient_voting_power(Ok(15), Ok(42), &third()), Ok(()));
    assert!(_has_sufficient_validators_overlap(Ok(15), Ok(42), &third()));
    assert!(!_has_sufficient_signers_overlap(Ok(14), Ok(42), &third()));
}

#[test]
fn trust_threshold_bounds() {
    assert_eq!(TrustThreshold::new(1, 3), Some(TrustThreshold { numerator: 1, denominator: 3 }));
    assert_eq!(TrustThreshold::new(0, 3), None);
    assert_eq!(TrustThreshold::new(4, 3), None);
    assert_eq!(TrustThreshold::default(), TrustThreshold { numerator: 1, denominator: 3 });
}

#[test]
fn trusted_store_set_and_get() {
    let mut store = TrustedStore::new();
    assert_eq!(store.get(5), None);
    store.set(5, trusted(5, 1));
    store.set(5, trusted(5, 2));
    assert_eq!(store.get(5), Some(trusted(5, 2)));
}

fn verify_at(client: &mut LightClient, from: TrustedState, height: u64) -> Result<LightClientEvent, LightClientError> {
    client.handle(LightClientEvent::VerifyAtHeight {
        trusted_state: from,
        untrusted_height: height,
        trust_threshold: third(),
        trusting_period: 7,
        now: 9,
    })
}

#[test]
fn light_client_walks_the_stack() {
    let mut client = LightClient::new(TrustedStore::new());
    let t10 = trusted(10, 1);
    match verify_at(&mut client, t10, 20).unwrap() {
        LightClientEvent::PerformVerification { untrusted_height, .. } => assert_eq!(untrusted_height, 20),
        _ => panic!("expected a verification"),
    }
    let _ = verify_at(&mut client, t10, 15).unwrap();
    match client.handle(LightClientEvent::NewTrustedState(trusted(15, 2))).unwrap() {
        LightClientEvent::PerformVerification { trusted_state, untrusted_height, trusting_period, now, .. } => {
            assert_eq!(trusted_state, trusted(15, 2));
            assert_eq!(untrusted_height, 20);
            assert_eq!((trusting_period, now), (7, 9));
        }
        _ => panic!("expected a verification"),
    }
    match client.handle(LightClientEvent::NewTrustedState(trusted(20, 3))).unwrap() {
        LightClientEvent::NewTrustedStates { trusted_height, trusted_states } => {
            assert_eq!(trusted_height, 20);
            assert_eq!(trusted_states, vec![trusted(15, 2), trusted(20, 3)]);
        }
        _ => panic!("expected the final states"),
    }
    assert_eq!(client.trusted_state_at(15), Some(trusted(15, 2)));
    assert_eq!(client.trusted_state_at(10), None);
    assert!(matches!(
        client.handle(LightClientEvent::NewTrustedState(trusted(21, 3))),
        Err(LightClientError::AlreadyVerified(21))
    ));
    assert_eq!(client.trusted_state_at(21), Some(trusted(21, 3)));
}

#[test]
fn light_client_rejects_out_of_order_state() {
    let mut client = LightClient::new(TrustedStore::new());
    let _ = verify_at(&mut client, trusted(10, 1), 20).unwrap();
    assert!(matches!(
        client.handle(LightClientEvent::NewTrustedState(trusted(19, 2))),
        Err(LightClientError::NextHeightMismatch { expected: 20, got: 19 })
    ));
    let mut client2 = LightClient::new(TrustedStore::new());
    client2.save_trusted_state(trusted(3, 1));
    assert_eq!(client2.reset(), vec![trusted(3, 1)]);
    assert_eq!(client2.reset(), vec![]);
}

fn commit_of(sigs: Vec<CommitSig>) -> BlockCommit {
    BlockCommit { height: 7, round: 1, block_id: 77, signatures: sigs }
}

fn slot_commit(addr: u64) -> CommitSig {
    CommitSig::BlockIDFlagCommit { validator_address: addr, timestamp: 5, signature: vec![addr as u8, 1] }
}

fn slot_nil(addr: u64) -> CommitSig {
    CommitSig::BlockIDFlagNil { validator_address: addr, timestamp: 5, signature: vec![addr as u8, 2] }
}

fn vals(powers: &[u64]) -> Vec<Validator> {
    powers.iter().enumerate().map(|(i, p)| Validator { address: i as u64 + 1, power: *p }).collect()
}

#[test]
fn votes_rebuilt_from_slots() {
    let commit = commit_of(vec![slot_commit(1), slot_nil(2), CommitSig::BlockIDFlagAbsent]);
    let v = vote_from_non_absent_signature(&commit.signatures[0], 0, &commit).unwrap();
    assert_eq!((v.height, v.round, v.block_id, v.timestamp), (7, 1, Some(77), 5));
    assert_eq!((v.validator_address, v.validator_index, v.signature.clone()), (1, 0, vec![1, 1]));
    let n = vote_from_non_absent_signature(&commit.signatures[1], 1, &commit).unwrap();
    assert_eq!(n.block_id, None);
    assert_eq!(n.signature, vec![2, 2]);
    assert!(vote_from_non_absent_signature(&commit.signatures[2], 2, &commit).is_none());
    let all = commit.iter();
    assert_eq!(all.len(), 3);
    assert_eq!(all[1].as_ref().unwrap().validator_index, 1);
    assert!(all[2].is_none());
}

#[test]
fn total_power_sums_or_overflows() {
    assert_eq!(total_power(&vals(&[10, 20, 12])), Some(42));
    assert_eq!(total_power(&vals(&[])), Some(0));
    assert_eq!(total_power(&vals(&[u64::MAX, 1])), None);
    assert_eq!(find_validator(&vals(&[10, 20]), 2), Some(Validator { address: 2, power: 20 }));
    assert_eq!(find_validator(&vals(&[10, 20]), 3), None);
}

#[test]
fn prod_tally_counts_commit_slots_only() {
    let calc = ProdVotingPowerCalculator;
    let validators = vals(&[10, 20, 12, 30]);
    let commit = commit_of(vec![slot_commit(1), slot_nil(2), CommitSig::BlockIDFlagAbsent, slot_commit(4)]);
    // Needed is 72 * 2 / 3 = 48: the tally runs to the end.
    assert_eq!(calc.voting_power_in(&commit, &validators, &vec![true, true, false, true]), Ok(40));
    assert_eq!(calc.total_power_of(&validators), Some(72));
}

#[test]
fn prod_tally_stops_at_two_thirds() {
    let calc = ProdVotingPowerCalculator;
    let validators = vals(&[30, 20, 10]);
    let commit = commit_of(vec![slot_commit(1), slot_commit(2), slot_commit(3)]);
    // Needed is 40; the third signature is never looked at.
    assert_eq!(calc.voting_power_in(&commit, &validators, &vec![true, true, false]), Ok(50));
}

#[test]
fn prod_tally_fails_on_bad_signature_or_shape() {
    let calc = ProdVotingPowerCalculator;
    let validators = vals(&[10, 20]);
    let commit = commit_of(vec![slot_nil(1), slot_commit(2)]);
    assert_eq!(calc.voting_power_in(&commit, &validators, &vec![false, true]), Err(Error::ImplementationSpecific));
    let short = commit_of(vec![slot_commit(1)]);
    assert_eq!(calc.voting_power_in(&short, &validators, &vec![true]), Err(Error::ImplementationSpecific));
}

fn vote(addr: u64, block_id: Option<u64>) -> Option<Vote> {
    Some(Vote { height: 7, round: 1, block_id, timestamp: 5, validator_address: addr, validator_index: 0, signature: vec![] })
}

#[test]
fn commit_validation() {
    let ops = LightImplOps;
    let validators = vals(&[10, 20]);
    assert_eq!(ops.validate(&vec![vote(1, Some(77)), None], 77, &validators), Ok(()));
    assert_eq!(ops.validate(&vec![vote(1, None), vote(2, Some(77))], 77, &validators), Ok(()));
    assert_eq!(ops.validate(&vec![vote(1, Some(77))], 77, &validators), Err(Error::ImplementationSpecific));
    assert_eq!(ops.validate(&vec![vote(1, Some(78)), vote(9, None)], 77, &validators), Err(Error::ImplementationSpecific));
    assert_eq!(ops.validate(&vec![vote(9, Some(77)), vote(1, Some(78))], 77, &validators), Err(Error::InvalidCommit));
}

#[test]
fn signed_power_of_known_validators() {
    let ops = LightImplOps;
    let validators = vals(&[10, 20]);
    let precommits = vec![vote(1, Some(77)), vote(9, Some(77)), None, vote(2, None)];
    assert_eq!(ops.voting_power_in(&precommits, &validators, &vec![true, false, false, true]), Ok(30));
    assert_eq!(ops.voting_power_in(&precommits, &validators, &vec![true, true, true, false]), Err(Error::ImplementationSpecific));
    assert_eq!(ops.voting_power_in(&precommits, &validators, &vec![true]), Err(Error::ImplementationSpecific));
}

#[test]
fn varint_encoding() {
    assert_eq!(encode_varint(0), vec![0]);
    assert_eq!(encode_varint(127), vec![127]);
    assert_eq!(encode_varint(300), vec![0xAC, 0x02]);
    assert_eq!(encode_varint(u64::MAX).len(), 10);
}

#[test]
fn length_prefixed_bytes() {
    assert_eq!(bytes_enc(&[1, 2, 3]), vec![3, 1, 2, 3]);
    assert_eq!(bytes_enc(&[]), vec![0]);
    let long = vec![9u8; 200];
    let enc = bytes_enc(&long);
    assert_eq!(&enc[..2], &[0xC8, 0x01]);
    assert_eq!(enc.len(), 202);
}

#[test]
fn routing_table() {
    match route_event(Output::LightClient(LightClientEvent::NewTrustedStates {
        trusted_height: 20,
        trusted_states: vec![trusted(15, 2), trusted(20, 3)],
    })) {
        Route::Deliver { trusted_height, trusted_states } => {
            assert_eq!(trusted_height, 20);
            assert_eq!(trusted_states, vec![trusted(15, 2), trusted(20, 3)]);
        }
        _ => panic!("the final result leaves the core"),
    }
    assert!(matches!(
        route_event(Output::Verifier(VerifierOutput::StateNeeded(7))),
        Route::Next(Input::Requester(RequesterInput::FetchState(7)))
    ));
    match route_event(Output::Verifier(VerifierOutput::VerificationNeeded {
        trusted_state: trusted(10, 1),
        pivot_height: 15,
        trust_threshold: third(),
        trusting_period: 7,
        now: 9,
    })) {
        Route::Next(Input::LightClient(LightClientEvent::VerifyAtHeight { untrusted_height, .. })) => {
            assert_eq!(untrusted_height, 15)
        }
        _ => panic!("a pivot goes back to the light client"),
    }
    let sh = signed(10, 120);
    match route_event(Output::Requester(RequesterOutput::FetchedState {
        height: 10,
        signed_header: sh,
        validator_set: ValidatorSet { hash: 110 },
        next_validator_set: ValidatorSet { hash: 111 },
    })) {
        Route::Next(Input::Verifier(VerifierInput::FetchedState { height, untrusted_sh, .. })) => {
            assert_eq!((height, untrusted_sh), (10, sh))
        }
        _ => panic!("a fetched state goes to the verifier"),
    }
    assert!(matches!(
        route_event(Output::LightClient(LightClientEvent::NewTrustedState(trusted(3, 1)))),
        Route::Nowhere
    ));
}
