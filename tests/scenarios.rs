use light_spike::bisection::{Verifier, VerifierError, VerifierInput, VerifierOutput};
use light_spike::capabilities::{CommitValidator, HeaderHasher, VotingPowerCalculator};
use light_spike::events::Input;
use light_spike::inner_verifier::{InnerVerifier, InnerVerifierEvent, InnerVerifierReply};
use light_spike::light_client::{LightClient, LightClientEvent};
use light_spike::scheduler::{Action, Scheduler, SchedulerError};
use light_spike::trusted_store::TrustedStore;
use light_spike::Handler;
use light_spike::types::{
    Commit, Error, HashValue, Header, Height, SignedHeader, TrustThreshold, TrustedState,
    ValidatorSet,
};
use std::cell::Cell;
use std::rc::Rc;

const SECOND: u64 = 1_000_000_000;
const T0: u64 = 1_000 * SECOND;

fn vals_hash(h: Height) -> HashValue {
    1_000 + h
}

fn header_hash(h: Height) -> HashValue {
    500 + h
}

fn header_at(h: Height, bft_time: u64) -> Header {
    Header {
        height: h,
        bft_time,
        validator_set_hash: vals_hash(h),
        next_validator_set_hash: vals_hash(h + 1),
        hash: header_hash(h),
    }
}

fn trusted_at(h: Height, bft_time: u64) -> TrustedState {
    TrustedState { header: header_at(h, bft_time), validators: ValidatorSet { hash: vals_hash(h) } }
}

/// The state a well-behaved full node serves at `h`.
fn fetched_at(h: Height, bft_time: u64) -> (SignedHeader, ValidatorSet, ValidatorSet) {
    let header = header_at(h, bft_time);
    let sh = SignedHeader {
        header,
        commit: Commit { header_hash: header_hash(h) },
        validators: ValidatorSet { hash: vals_hash(h) },
        validator_hash: vals_hash(h),
    };
    (sh, ValidatorSet { hash: vals_hash(h) }, ValidatorSet { hash: vals_hash(h + 1) })
}

struct Hasher;

impl HeaderHasher for Hasher {
    fn spec_hash(&self, header: Header) -> HashValue {
        header.hash
    }

    fn hash(&self, header: &Header) -> HashValue {
        header.hash
    }
}

struct AcceptAll;

impl CommitValidator for AcceptAll {
    fn spec_validate(&self, _commit: Commit, _validators: ValidatorSet) -> Result<(), Error> {
        Ok(())
    }

    fn validate(&self, _commit: &Commit, _validators: &ValidatorSet) -> Result<(), Error> {
        Ok(())
    }
}

/// Answers a fixed total, and a signed power looked up by (untrusted height,
/// height of the validator set); `default` otherwise. Counts its calls.
struct Calculator {
    total: u64,
    table: Vec<((Height, Height), u64)>,
    default: u64,
    calls: Rc<Cell<u32>>,
}

impl Calculator {
    fn power(&self, commit: &Commit, validators: &ValidatorSet) -> u64 {
        let key = (commit.header_hash.wrapping_sub(500), validators.hash.wrapping_sub(1_000));
        for (k, p) in &self.table {
            if *k == key {
                return *p;
            }
        }
        self.default
    }
}

impl VotingPowerCalculator for Calculator {
    fn spec_voting_power_in(&self, commit: Commit, validators: ValidatorSet) -> Result<u64, Error> {
        Ok(self.power(&commit, &validators))
    }

    fn spec_total_power_of(&self, _validators: ValidatorSet) -> Result<u64, Error> {
        Ok(self.total)
    }

    fn voting_power_in(&self, commit: &Commit, validators: &ValidatorSet) -> Result<u64, Error> {
        self.calls.set(self.calls.get() + 1);
        Ok(self.power(commit, validators))
    }

    fn total_power_of(&self, _validators: &ValidatorSet) -> Result<u64, Error> {
        self.calls.set(self.calls.get() + 1);
        Ok(self.total)
    }
}

fn calculator(total: u64, table: Vec<((Height, Height), u64)>, default: u64) -> Calculator {
    Calculator { total, table, default, calls: Rc::new(Cell::new(0)) }
}

fn scheduler(calc: Calculator) -> Scheduler<Calculator, AcceptAll, Hasher> {
    let light_client = LightClient::new(TrustedStore::new());
    let verifier = Verifier::new(calc, AcceptAll, Hasher);
    Scheduler::new(light_client, verifier)
}

/// Runs one top-level request to its end; returns the heights fetched, in
/// order, and the result.
fn run(
    sched: &mut Scheduler<Calculator, AcceptAll, Hasher>,
    trusted: TrustedState,
    target: Height,
    period: u64,
    now: u64,
    bft_time: &dyn Fn(Height) -> u64,
) -> (Vec<Height>, Result<(Height, Vec<TrustedState>), SchedulerError>) {
    let mut fetched = Vec::new();
    let mut step = sched.handle(Input::LightClient(LightClientEvent::VerifyAtHeight {
        trusted_state: trusted,
        untrusted_height: target,
        trust_threshold: TrustThreshold::default(),
        trusting_period: period,
        now,
    }));
    loop {
        match step {
            Ok(Action::Fetch(h)) => {
                fetched.push(h);
                let (sh, vals, next_vals) = fetched_at(h, bft_time(h));
                step = sched.handle(Input::Verifier(VerifierInput::FetchedState {
                    height: h,
                    untrusted_sh: sh,
                    untrusted_vals: vals,
                    untrusted_next_vals: next_vals,
                }));
            }
            Ok(Action::Done { trusted_height, trusted_states }) => {
                return (fetched, Ok((trusted_height, trusted_states)));
            }
            Ok(Action::Idle) => panic!("the scheduler went idle mid-request"),
            Err(e) => return (fetched, Err(e)),
        }
    }
}

#[test]
fn trivial_direct_trust() {
    let mut sched = scheduler(calculator(42, vec![], 31));
    let trusted = trusted_at(9, T0);
    let (fetched, result) =
        run(&mut sched, trusted, 10, 3_600 * SECOND, T0 + 60 * SECOND, &|_| T0 + 10 * SECOND);
    assert_eq!(fetched, vec![10]);
    let (height, states) = result.unwrap();
    assert_eq!(height, 10);
    assert_eq!(states, vec![trusted_at(10, T0 + 10 * SECOND)]);
}

#[test]
fn outside_trust_period() {
    let mut sched = scheduler(calculator(42, vec![], 31));
    let trusted = trusted_at(9, T0);
    let (fetched, result) =
        run(&mut sched, trusted, 10, 10 * SECOND, T0 + 3_600 * SECOND, &|_| T0 + SECOND);
    assert!(fetched.is_empty());
    assert_eq!(
        result,
        Err(SchedulerError::Verifier(VerifierError::NotWithinTrustingPeriod {
            header: trusted.header,
            trusting_period: 10 * SECOND,
            now: T0 + 3_600 * SECOND,
        }))
    );
}

fn bisection_once() -> (Vec<Height>, Result<(Height, Vec<TrustedState>), SchedulerError>) {
    let mut sched = scheduler(calculator(42, vec![((20, 10), 5)], 20));
    let trusted = trusted_at(10, T0);
    run(&mut sched, trusted, 20, 3_600 * SECOND, T0 + 600 * SECOND, &|h| T0 + h * SECOND)
}

#[test]
fn bisection_needed_once() {
    let (fetched, result) = bisection_once();
    assert_eq!(fetched, vec![20, 15, 20]);
    let (height, states) = result.unwrap();
    assert_eq!(height, 20);
    assert_eq!(states, vec![trusted_at(15, T0 + 15 * SECOND), trusted_at(20, T0 + 20 * SECOND)]);
}

#[test]
fn same_inputs_give_same_result() {
    let first = bisection_once();
    let second = bisection_once();
    assert_eq!(first, second);
}

#[test]
fn non_monotonic_height() {
    let calc = calculator(42, vec![], 31);
    let calls = calc.calls.clone();
    let mut sched = scheduler(calc);
    let trusted = trusted_at(20, T0);
    let (fetched, result) =
        run(&mut sched, trusted, 15, 3_600 * SECOND, T0 + 600 * SECOND, &|_| T0 + 30 * SECOND);
    assert_eq!(fetched, vec![15]);
    assert_eq!(
        result,
        Err(SchedulerError::Verifier(VerifierError::VerificationFailed(Error::NonIncreasingHeight)))
    );
    assert_eq!(calls.get(), 0);
}

#[test]
fn validators_hash_mismatch() {
    let calc = calculator(42, vec![], 31);
    let calls = calc.calls.clone();
    let mut verifier = Verifier::new(calc, AcceptAll, Hasher);
    let trusted = trusted_at(9, T0);
    let out = verifier.handle(VerifierInput::VerifyAtHeight {
        trusted_state: trusted,
        untrusted_height: 10,
        trust_threshold: TrustThreshold::default(),
        trusting_period: 3_600 * SECOND,
        now: T0 + 60 * SECOND,
    });
    assert_eq!(out, Ok(VerifierOutput::StateNeeded(10)));
    let (sh, _, next_vals) = fetched_at(10, T0 + 10 * SECOND);
    let out = verifier.handle(VerifierInput::FetchedState {
        height: 10,
        untrusted_sh: sh,
        untrusted_vals: ValidatorSet { hash: 7 },
        untrusted_next_vals: next_vals,
    });
    assert_eq!(out, Err(VerifierError::VerificationFailed(Error::InvalidValidatorSet)));
    assert_eq!(calls.get(), 0);
}

#[test]
fn unsolicited_fetch_reply() {
    let mut verifier = Verifier::new(calculator(42, vec![], 31), AcceptAll, Hasher);
    let (sh, vals, next_vals) = fetched_at(42, T0);
    let out = Handler::handle(&mut verifier, VerifierInput::FetchedState {
        height: 42,
        untrusted_sh: sh,
        untrusted_vals: vals,
        untrusted_next_vals: next_vals,
    });
    assert_eq!(out, Err(VerifierError::NoMatchingPendingState(42)));
}

#[test]
fn fetched_state_clears_pending_request() {
    let mut verifier = Verifier::new(calculator(42, vec![], 31), AcceptAll, Hasher);
    let trusted = trusted_at(9, T0);
    let request = VerifierInput::VerifyAtHeight {
        trusted_state: trusted,
        untrusted_height: 10,
        trust_threshold: TrustThreshold::default(),
        trusting_period: 3_600 * SECOND,
        now: T0 + 60 * SECOND,
    };
    assert_eq!(verifier.handle(request), Ok(VerifierOutput::StateNeeded(10)));
    let (sh, vals, next_vals) = fetched_at(10, T0 + SECOND);
    let fetched = VerifierInput::FetchedState {
        height: 10,
        untrusted_sh: sh,
        untrusted_vals: vals,
        untrusted_next_vals: next_vals,
    };
    assert_eq!(
        verifier.handle(fetched),
        Ok(VerifierOutput::StateVerified(trusted_at(10, T0 + SECOND)))
    );
    assert_eq!(verifier.handle(fetched), Err(VerifierError::NoMatchingPendingState(10)));
}

#[test]
fn verified_state_pairs_header_with_fetched_validators() {
    let mut verifier = Verifier::new(calculator(42, vec![], 31), AcceptAll, Hasher);
    let trusted = trusted_at(9, T0);
    let _ = verifier.handle(VerifierInput::VerifyAtHeight {
        trusted_state: trusted,
        untrusted_height: 10,
        trust_threshold: TrustThreshold::default(),
        trusting_period: 3_600 * SECOND,
        now: T0 + 60 * SECOND,
    });
    let (sh, vals, next_vals) = fetched_at(10, T0 + SECOND);
    let out = verifier.handle(VerifierInput::FetchedState {
        height: 10,
        untrusted_sh: sh,
        untrusted_vals: vals,
        untrusted_next_vals: next_vals,
    });
    assert_eq!(
        out,
        Ok(VerifierOutput::StateVerified(TrustedState { header: sh.header, validators: vals }))
    );
}

#[test]
fn bisection_exhausted_at_gap_of_one() {
    let mut sched = scheduler(calculator(42, vec![], 5));
    let trusted = trusted_at(10, T0);
    let (fetched, result) =
        run(&mut sched, trusted, 11, 3_600 * SECOND, T0 + 600 * SECOND, &|h| T0 + h * SECOND);
    assert_eq!(fetched, vec![11]);
    assert_eq!(
        result,
        Err(SchedulerError::Verifier(VerifierError::BisectionExhausted {
            trusted_height: 10,
            untrusted_height: 11,
        }))
    );
}

#[test]
fn pivot_height_overflow() {
    let mut verifier = Verifier::new(calculator(42, vec![], 5), AcceptAll, Hasher);
    let low = u64::MAX - 2;
    let trusted = TrustedState {
        header: Header {
            height: low,
            bft_time: T0,
            validator_set_hash: 1,
            next_validator_set_hash: 2,
            hash: 3,
        },
        validators: ValidatorSet { hash: 1 },
    };
    let _ = verifier.handle(VerifierInput::VerifyAtHeight {
        trusted_state: trusted,
        untrusted_height: low + 1,
        trust_threshold: TrustThreshold::default(),
        trusting_period: 3_600 * SECOND,
        now: T0 + 60 * SECOND,
    });
    let header = Header {
        height: low + 1,
        bft_time: T0 + SECOND,
        validator_set_hash: 2,
        next_validator_set_hash: 4,
        hash: 600,
    };
    let sh = SignedHeader {
        header,
        commit: Commit { header_hash: 600 },
        validators: ValidatorSet { hash: 2 },
        validator_hash: 2,
    };
    let out = verifier.handle(VerifierInput::FetchedState {
        height: low + 1,
        untrusted_sh: sh,
        untrusted_vals: ValidatorSet { hash: 2 },
        untrusted_next_vals: ValidatorSet { hash: 4 },
    });
    assert_eq!(
        out,
        Err(VerifierError::HeightOverflow { trusted_height: low, untrusted_height: low + 1 })
    );
}

#[test]
fn pivot_is_rounded_down_midpoint() {
    let verifier = Verifier::new(calculator(42, vec![], 5), AcceptAll, Hasher);
    let trusted = trusted_at(10, T0);
    let (sh, _, _) = fetched_at(21, T0);
    assert_eq!(verifier.compute_pivot_height(&trusted, &sh), Some(15));
}

#[test]
fn bisection_depth_stays_logarithmic() {
    // Trust transfers only across a gap of one block, so every request bisects
    // down to the next height.
    let calc = calculator(42, vec![], 0);
    let mut table = Vec::new();
    for h in 1..=16u64 {
        table.push(((h, h - 1), 20));
        table.push(((h, h), 20));
    }
    let calc = Calculator { table, ..calc };
    let mut sched = scheduler(calc);
    let trusted = trusted_at(0, T0);
    let (fetched, result) =
        run(&mut sched, trusted, 16, 3_600 * SECOND, T0 + 600 * SECOND, &|h| T0 + h * SECOND);
    let (height, states) = result.unwrap();
    assert_eq!(height, 16);
    let heights: Vec<Height> = states.iter().map(|s| s.header.height).collect();
    assert_eq!(heights, (1..=16).collect::<Vec<Height>>());
    // The first descent bisects 16, 8, 4, 2, 1: five heights, ⌈log₂ 16⌉ + 1.
    assert_eq!(&fetched[..5], &[16, 8, 4, 2, 1]);
}

#[test]
fn second_request_while_busy_is_refused() {
    let mut sched = scheduler(calculator(42, vec![], 31));
    let trusted = trusted_at(9, T0);
    let request = Input::LightClient(LightClientEvent::VerifyAtHeight {
        trusted_state: trusted,
        untrusted_height: 10,
        trust_threshold: TrustThreshold::default(),
        trusting_period: 3_600 * SECOND,
        now: T0 + 60 * SECOND,
    });
    assert!(matches!(sched.handle(request.clone()), Ok(Action::Fetch(10))));
    assert!(matches!(sched.handle(request), Err(SchedulerError::Busy)));
    assert!(matches!(sched.handle(Input::Tick), Ok(Action::Idle)));
    assert!(matches!(
        sched.handle(Input::LightClient(LightClientEvent::NewTrustedState(trusted))),
        Err(SchedulerError::UnexpectedEvent)
    ));
}

#[test]
fn fetched_header_of_wrong_height_is_refused() {
    let mut sched = scheduler(calculator(42, vec![], 31));
    let trusted = trusted_at(9, T0);
    let _ = sched.handle(Input::LightClient(LightClientEvent::VerifyAtHeight {
        trusted_state: trusted,
        untrusted_height: 10,
        trust_threshold: TrustThreshold::default(),
        trusting_period: 3_600 * SECOND,
        now: T0 + 60 * SECOND,
    }));
    let (sh, vals, next_vals) = fetched_at(11, T0 + SECOND);
    let out = sched.handle(Input::Verifier(VerifierInput::FetchedState {
        height: 10,
        untrusted_sh: sh,
        untrusted_vals: vals,
        untrusted_next_vals: next_vals,
    }));
    assert!(matches!(
        out,
        Err(SchedulerError::FetchedHeightMismatch { expected: 10, got: 11 })
    ));
}

#[test]
fn cancel_frees_the_scheduler() {
    let mut sched = scheduler(calculator(42, vec![], 31));
    let trusted = trusted_at(9, T0);
    let request = Input::LightClient(LightClientEvent::VerifyAtHeight {
        trusted_state: trusted,
        untrusted_height: 10,
        trust_threshold: TrustThreshold::default(),
        trusting_period: 3_600 * SECOND,
        now: T0 + 60 * SECOND,
    });
    assert!(matches!(sched.handle(request.clone()), Ok(Action::Fetch(10))));
    sched.cancel();
    assert!(matches!(sched.handle(request), Ok(Action::Fetch(10))));
}

fn inner_request(trusted: TrustedState, height: Height, now: u64) -> InnerVerifierEvent {
    InnerVerifierEvent::VerifyAtHeight {
        trusted_state: trusted,
        untrusted_height: height,
        trust_threshold: TrustThreshold::default(),
        trusting_period: 3_600 * SECOND,
        now,
    }
}

fn inner_fetched(h: Height, bft_time: u64) -> InnerVerifierEvent {
    let (sh, vals, next_vals) = fetched_at(h, bft_time);
    InnerVerifierEvent::FetchedState {
        height: h,
        untrusted_sh: sh,
        untrusted_vals: vals,
        untrusted_next_vals: next_vals,
    }
}

#[test]
fn single_request_verifier_verifies() {
    let mut inner = InnerVerifier::new(calculator(42, vec![], 31), AcceptAll, Hasher);
    let trusted = trusted_at(9, T0);
    assert_eq!(inner.handle(inner_request(trusted, 10, T0 + 60 * SECOND)), InnerVerifierReply::FetchState(10));
    assert_eq!(
        inner.handle(inner_fetched(10, T0 + SECOND)),
        InnerVerifierReply::Event(InnerVerifierEvent::VerifiedTrustedState(trusted_at(10, T0 + SECOND)))
    );
    // Ready again: a second request is taken.
    assert_eq!(inner.handle(inner_request(trusted, 11, T0 + 60 * SECOND)), InnerVerifierReply::FetchState(11));
}

#[test]
fn single_request_verifier_bisects_and_fails_quietly() {
    let mut inner = InnerVerifier::new(calculator(42, vec![((20, 10), 5)], 20), AcceptAll, Hasher);
    let trusted = trusted_at(10, T0);
    let now = T0 + 600 * SECOND;
    assert_eq!(inner.handle(inner_request(trusted, 20, now)), InnerVerifierReply::FetchState(20));
    assert_eq!(
        inner.handle(inner_fetched(20, T0 + 20 * SECOND)),
        InnerVerifierReply::Event(InnerVerifierEvent::BisectionNeeded {
            trusted_state: trusted,
            pivot_height: 15,
            trust_threshold: TrustThreshold::default(),
            trusting_period: 3_600 * SECOND,
            now,
        })
    );
    // A state for another height than the one asked for is dropped.
    assert_eq!(inner.handle(inner_request(trusted, 15, now)), InnerVerifierReply::FetchState(15));
    assert_eq!(inner.handle(inner_fetched(16, T0 + 16 * SECOND)), InnerVerifierReply::NoOp);
    // Outside the trusting period.
    assert_eq!(inner.handle(inner_request(trusted, 15, T0 + 7_200 * SECOND)), InnerVerifierReply::NoOp);
    // A fetched state with no request waiting.
    assert_eq!(inner.handle(inner_fetched(15, T0 + 15 * SECOND)), InnerVerifierReply::NoOp);
}
