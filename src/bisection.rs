//! The bisecting verifier: a state machine that turns "verify height `h`
//! from trusted state `T`" into a fetch request, and the fetched state into a
//! verified state, a bisection step at the midpoint, or an error.
use crate::capabilities::{answers_of, CommitValidator, HeaderHasher, VotingPowerCalculator};
use crate::predicates::{
    spec_header_matches_commit, spec_invalid_next_validator_set, spec_monotonic_bft_time,
    spec_monotonic_height, spec_next_validators_match, spec_sufficient_voting_power,
    spec_validator_sets_match, _has_sufficient_signers_overlap, _has_sufficient_validators_overlap,
    _header_matches_commit, _invalid_next_validator_set,
    _is_monotonic_bft_time, _is_monotonic_height, _is_within_trust_period, _next_validators_match,
    _valid_commit, _validator_sets_match, spec_within_trust_period, verdict, Answers,
};
use crate::types::{
    Error, Header, Height, Nanos, SignedHeader, Time, TrustThreshold, TrustedState, ValidatorSet,
};
use std::collections::HashMap;
use vstd::prelude::*;

verus! {

broadcast use vstd::std_specs::hash::group_hash_axioms;

#[derive(Clone, Copy, Debug, PartialEq, Eq, Structural)]
pub enum VerifierError {
    VerificationFailed(Error),
    NoMatchingPendingState(Height),
    NotWithinTrustingPeriod { header: Header, trusting_period: Nanos, now: Time },
    /// The pivot would be the trusted height itself: the gap is one block and
    /// the trusted validators still do not sign enough of it.
    BisectionExhausted { trusted_height: Height, untrusted_height: Height },
    /// The sum of the two heights that bracket a bisection does not fit.
    HeightOverflow { trusted_height: Height, untrusted_height: Height },
}

#[derive(Clone, Copy, Debug, PartialEq, Eq, Structural)]
pub enum VerifierInput {
    VerifyAtHeight {
        trusted_state: TrustedState,
        untrusted_height: Height,
        trust_threshold: TrustThreshold,
        trusting_period: Nanos,
        now: Time,
    },
    FetchedState {
        height: Height,
        untrusted_sh: SignedHeader,
        untrusted_vals: ValidatorSet,
        untrusted_next_vals: ValidatorSet,
    },
}

#[derive(Clone, Copy, Debug, PartialEq, Eq, Structural)]
pub enum VerifierOutput {
    StateVerified(TrustedState),
    StateNeeded(Height),
    VerificationNeeded {
        trusted_state: TrustedState,
        pivot_height: Height,
        trust_threshold: TrustThreshold,
        trusting_period: Nanos,
        now: Time,
    },
}

/// A request waiting for the state fetched at `untrusted_height`.
#[derive(Clone, Copy, Debug, PartialEq, Eq, Structural)]
pub struct PendingState {
    pub trusted_state: TrustedState,
    pub untrusted_height: Height,
    pub trust_threshold: TrustThreshold,
    pub trusting_period: Nanos,
    pub now: Time,
}

pub struct Verifier<P, C, H> {
    voting_power_calculator: P,
    commit_validator: C,
    header_hasher: H,
    pending_states: HashMap<Height, PendingState>,
}

/// The midpoint of `trusted_height` and `untrusted_height`, rounded down,
/// when their sum fits in a height.
pub open spec fn spec_pivot(trusted_height: Height, untrusted_height: Height) -> Option<Height> {
    if trusted_height + untrusted_height <= u64::MAX {
        Some(((trusted_height + untrusted_height) / 2) as Height)
    } else {
        None
    }
}

/// What the verifier answers for a fetched state after overlap with the
/// trusted validators fell short: verify at the midpoint first.
pub open spec fn bisect(pending: PendingState, untrusted_sh: SignedHeader) -> Result<
    VerifierOutput,
    VerifierError,
> {
    let t = pending.trusted_state.header.height;
    let u = untrusted_sh.header.height;
    match spec_pivot(t, u) {
        None => Err(VerifierError::HeightOverflow { trusted_height: t, untrusted_height: u }),
        Some(pivot) => if pivot <= t {
            Err(VerifierError::BisectionExhausted { trusted_height: t, untrusted_height: u })
        } else {
            Ok(
                VerifierOutput::VerificationNeeded {
                    trusted_state: pending.trusted_state,
                    pivot_height: pivot,
                    trust_threshold: pending.trust_threshold,
                    trusting_period: pending.trusting_period,
                    now: pending.now,
                },
            )
        },
    }
}

/// What the verifier answers for a fetched state, given the pending request
/// it completes and what the capabilities answered.
pub open spec fn fetched_outcome(
    pending: PendingState,
    untrusted_sh: SignedHeader,
    untrusted_vals: ValidatorSet,
    untrusted_next_vals: ValidatorSet,
    answers: Answers,
) -> Result<VerifierOutput, VerifierError> {
    match verdict(
        pending.trusted_state,
        untrusted_sh,
        untrusted_vals,
        untrusted_next_vals,
        pending.trust_threshold,
        pending.trusting_period,
        pending.now,
        answers,
    ) {
        Ok(()) => Ok(
            VerifierOutput::StateVerified(
                TrustedState { header: untrusted_sh.header, validators: untrusted_vals },
            ),
        ),
        Err(Error::InsufficientValidatorsOverlap) => bisect(pending, untrusted_sh),
        Err(kind) => Err(VerifierError::VerificationFailed(kind)),
    }
}

/// When the verifier promotes a fetched state, the new trusted state is the
/// fetched header with the fetched validators, and every check held under
/// the pending request's parameters and the capabilities' answers.
pub proof fn lemma_state_verified_sound(
    pending: PendingState,
    untrusted_sh: SignedHeader,
    untrusted_vals: ValidatorSet,
    untrusted_next_vals: ValidatorSet,
    answers: Answers,
    verified: TrustedState,
)
    requires
        fetched_outcome(pending, untrusted_sh, untrusted_vals, untrusted_next_vals, answers)
            == Ok::<VerifierOutput, VerifierError>(VerifierOutput::StateVerified(verified)),
    ensures
        verified.header == untrusted_sh.header,
        verified.validators == untrusted_vals,
        spec_within_trust_period(
            pending.trusted_state.header,
            pending.trusting_period,
            pending.now,
        ),
        spec_validator_sets_match(untrusted_sh, untrusted_vals),
        spec_next_validators_match(untrusted_sh, untrusted_next_vals),
        spec_header_matches_commit(answers.header_hash, untrusted_sh.commit),
        answers.commit_check is Ok,
        spec_monotonic_bft_time(pending.trusted_state.header, untrusted_sh.header),
        spec_monotonic_height(untrusted_sh.header, pending.trusted_state.header),
        !spec_invalid_next_validator_set(
            pending.trusted_state,
            untrusted_sh,
            untrusted_next_vals,
        ),
        spec_sufficient_voting_power(
            answers.trusted_power,
            answers.trusted_total,
            pending.trust_threshold,
        ),
        spec_sufficient_voting_power(
            answers.signers_power,
            answers.signers_total,
            pending.trust_threshold,
        ),
{
}

/// How one event changes the pending requests.
pub open spec fn pending_step(pending: Map<Height, PendingState>, event: VerifierInput) -> Map<
    Height,
    PendingState,
> {
    match event {
        VerifierInput::VerifyAtHeight {
            trusted_state,
            untrusted_height,
            trust_threshold,
            trusting_period,
            now,
        } => if spec_within_trust_period(trusted_state.header, trusting_period, now) {
            pending.insert(
                untrusted_height,
                PendingState { trusted_state, untrusted_height, trust_threshold, trusting_period, now },
            )
        } else {
            pending
        },
        VerifierInput::FetchedState { height, .. } => pending.remove(height),
    }
}

/// The pending requests after `events`, handled in order from `pending`.
pub open spec fn pending_after(pending: Map<Height, PendingState>, events: Seq<VerifierInput>) -> Map<
    Height,
    PendingState,
>
    decreases events.len(),
{
    if events.len() == 0 {
        pending
    } else {
        pending_after(pending_step(pending, events[0]), events.drop_first())
    }
}

/// `event` asks to verify `height`.
pub open spec fn requests_height(event: VerifierInput, height: Height) -> bool {
    match event {
        VerifierInput::VerifyAtHeight { untrusted_height, .. } => untrusted_height == height,
        _ => false,
    }
}

/// `event` brings the state fetched at `height`.
pub open spec fn fetches_height(event: VerifierInput, height: Height) -> bool {
    match event {
        VerifierInput::FetchedState { height: h, .. } => h == height,
        _ => false,
    }
}

proof fn lemma_stays_clear(pending: Map<Height, PendingState>, events: Seq<VerifierInput>, height: Height)
    requires
        !pending.contains_key(height),
        forall|j: int| 0 <= j < events.len() ==> !requests_height(#[trigger] events[j], height),
    ensures
        !pending_after(pending, events).contains_key(height),
    decreases events.len(),
{
    if events.len() > 0 {
        assert(!requests_height(events[0], height));
        let rest = events.drop_first();
        assert forall|j: int| 0 <= j < rest.len() implies !requests_height(#[trigger] rest[j], height) by {
            assert(rest[j] == events[j + 1]);
        }
        lemma_stays_clear(pending_step(pending, events[0]), rest, height);
    }
}

/// No pending request outlives the state fetched for it: once a state at
/// `height` has been handled, `height` is pending again only if a later
/// event asked for it anew.
pub proof fn lemma_fetched_state_clears_pending(
    pending: Map<Height, PendingState>,
    events: Seq<VerifierInput>,
    i: int,
    height: Height,
)
    requires
        0 <= i < events.len(),
        fetches_height(events[i], height),
        forall|j: int| i < j < events.len() ==> !requests_height(#[trigger] events[j], height),
    ensures
        !pending_after(pending, events).contains_key(height),
    decreases i,
{
    let rest = events.drop_first();
    if i == 0 {
        assert forall|j: int| 0 <= j < rest.len() implies !requests_height(#[trigger] rest[j], height) by {
            assert(rest[j] == events[j + 1]);
        }
        lemma_stays_clear(pending_step(pending, events[0]), rest, height);
    } else {
        assert(rest[i - 1] == events[i]);
        assert forall|j: int| i - 1 < j < rest.len() implies !requests_height(#[trigger] rest[j], height) by {
            assert(rest[j] == events[j + 1]);
        }
        lemma_fetched_state_clears_pending(pending_step(pending, events[0]), rest, i - 1, height);
    }
}

impl<P: VotingPowerCalculator, C: CommitValidator, H: HeaderHasher> View for Verifier<P, C, H> {
    type V = Map<Height, PendingState>;

    /// The pending requests, by the height that they wait for.
    closed spec fn view(&self) -> Map<Height, PendingState> {
        self.pending_states@
    }
}

impl<P: VotingPowerCalculator, C: CommitValidator, H: HeaderHasher> Verifier<P, C, H> {
    pub closed spec fn calculator(&self) -> P {
        self.voting_power_calculator
    }

    pub closed spec fn validator(&self) -> C {
        self.commit_validator
    }

    pub closed spec fn hasher(&self) -> H {
        self.header_hasher
    }

    /// What this verifier's capabilities answer for checking `untrusted_sh`
    /// and `untrusted_vals` against `trusted_state`.
    pub open spec fn answers(
        &self,
        trusted_state: TrustedState,
        untrusted_sh: SignedHeader,
        untrusted_vals: ValidatorSet,
    ) -> Answers {
        answers_of(
            self.calculator(),
            self.validator(),
            self.hasher(),
            trusted_state,
            untrusted_sh,
            untrusted_vals,
        )
    }

    /// Each pending request is stored under the height that it waits for.
    pub open spec fn keyed_by_height(&self) -> bool {
        forall|h: Height| #[trigger] self@.contains_key(h) ==> self@[h].untrusted_height == h
    }

    /// `other` has the same capabilities as `self`.
    pub open spec fn same_capabilities(&self, other: Self) -> bool {
        &&& other.calculator() == self.calculator()
        &&& other.validator() == self.validator()
        &&& other.hasher() == self.hasher()
    }

    pub fn new(voting_power_calculator: P, commit_validator: C, header_hasher: H) -> (r: Self)
        ensures
            r@ == Map::<Height, PendingState>::empty(),
            r.keyed_by_height(),
            r.calculator() == voting_power_calculator,
            r.validator() == commit_validator,
            r.hasher() == header_hasher,
    {
        Verifier {
            voting_power_calculator,
            commit_validator,
            header_hasher,
            pending_states: HashMap::new(),
        }
    }

    /// Drops every pending request.
    pub fn discard_pending(&mut self)
        ensures
            final(self)@ == Map::<Height, PendingState>::empty(),
            old(self).same_capabilities(*final(self)),
    {
        self.pending_states.clear();
    }

    /// Handles one event: a request to verify a height, or the state fetched
    /// for a pending request. No request outlives the state fetched for it.
    pub fn handle(&mut self, event: VerifierInput) -> (r: Result<VerifierOutput, VerifierError>)
        ensures
            old(self).same_capabilities(*final(self)),
            old(self).keyed_by_height() ==> final(self).keyed_by_height(),
            final(self)@ == pending_step(old(self)@, event),
            match event {
                VerifierInput::VerifyAtHeight {
                    trusted_state,
                    untrusted_height,
                    trust_threshold,
                    trusting_period,
                    now,
                } => if spec_within_trust_period(trusted_state.header, trusting_period, now) {
                    &&& r == Ok::<VerifierOutput, VerifierError>(
                        VerifierOutput::StateNeeded(untrusted_height),
                    )
                    &&& final(self)@ == old(self)@.insert(
                        untrusted_height,
                        PendingState {
                            trusted_state,
                            untrusted_height,
                            trust_threshold,
                            trusting_period,
                            now,
                        },
                    )
                } else {
                    &&& r == Err::<VerifierOutput, VerifierError>(
                        VerifierError::NotWithinTrustingPeriod {
                            header: trusted_state.header,
                            trusting_period,
                            now,
                        },
                    )
                    &&& final(self)@ == old(self)@
                },
                VerifierInput::FetchedState {
                    height,
                    untrusted_sh,
                    untrusted_vals,
                    untrusted_next_vals,
                } => !final(self)@.contains_key(height) && if old(self)@.contains_key(height) {
                    &&& final(self)@ == old(self)@.remove(height)
                    &&& r == fetched_outcome(
                        old(self)@[height],
                        untrusted_sh,
                        untrusted_vals,
                        untrusted_next_vals,
                        old(self).answers(old(self)@[height].trusted_state, untrusted_sh, untrusted_vals),
                    )
                } else {
                    &&& r == Err::<VerifierOutput, VerifierError>(
                        VerifierError::NoMatchingPendingState(height),
                    )
                    &&& final(self)@ == old(self)@
                },
            },
    {
        match event {
            VerifierInput::VerifyAtHeight {
                trusted_state,
                untrusted_height,
                trust_threshold,
                trusting_period,
                now,
            } => self.on_verify_at_height(
                trusted_state,
                untrusted_height,
                trust_threshold,
                trusting_period,
                now,
            ),
            VerifierInput::FetchedState {
                height,
                untrusted_sh,
                untrusted_vals,
                untrusted_next_vals,
            } => self.on_fetched_state(height, untrusted_sh, untrusted_vals, untrusted_next_vals),
        }
    }

    fn on_verify_at_height(
        &mut self,
        trusted_state: TrustedState,
        untrusted_height: Height,
        trust_threshold: TrustThreshold,
        trusting_period: Nanos,
        now: Time,
    ) -> (r: Result<VerifierOutput, VerifierError>)
        ensures
            old(self).same_capabilities(*final(self)),
            if spec_within_trust_period(trusted_state.header, trusting_period, now) {
                &&& r == Ok::<VerifierOutput, VerifierError>(
                    VerifierOutput::StateNeeded(untrusted_height),
                )
                &&& final(self)@ == old(self)@.insert(
                    untrusted_height,
                    PendingState {
                        trusted_state,
                        untrusted_height,
                        trust_threshold,
                        trusting_period,
                        now,
                    },
                )
            } else {
                &&& r == Err::<VerifierOutput, VerifierError>(
                    VerifierError::NotWithinTrustingPeriod {
                        header: trusted_state.header,
                        trusting_period,
                        now,
                    },
                )
                &&& final(self)@ == old(self)@
            },
    {
        if !_is_within_trust_period(&trusted_state.header, trusting_period, now) {
            return Err(
                VerifierError::NotWithinTrustingPeriod {
                    header: trusted_state.header,
                    trusting_period,
                    now,
                },
            );
        }
        self.start_verification(
            trusted_state,
            untrusted_height,
            trust_threshold,
            trusting_period,
            now,
        )
    }

    fn start_verification(
        &mut self,
        trusted_state: TrustedState,
        untrusted_height: Height,
        trust_threshold: TrustThreshold,
        trusting_period: Nanos,
        now: Time,
    ) -> (r: Result<VerifierOutput, VerifierError>)
        ensures
            old(self).same_capabilities(*final(self)),
            r == Ok::<VerifierOutput, VerifierError>(VerifierOutput::StateNeeded(untrusted_height)),
            final(self)@ == old(self)@.insert(
                untrusted_height,
                PendingState { trusted_state, untrusted_height, trust_threshold, trusting_period, now },
            ),
    {
        self.pending_states.insert(
            untrusted_height,
            PendingState { trusted_state, untrusted_height, trust_threshold, trusting_period, now },
        );
        Ok(VerifierOutput::StateNeeded(untrusted_height))
    }

    fn on_fetched_state(
        &mut self,
        height: Height,
        untrusted_sh: SignedHeader,
        untrusted_vals: ValidatorSet,
        untrusted_next_vals: ValidatorSet,
    ) -> (r: Result<VerifierOutput, VerifierError>)
        ensures
            old(self).same_capabilities(*final(self)),
            if old(self)@.contains_key(height) {
                &&& final(self)@ == old(self)@.remove(height)
                &&& r == fetched_outcome(
                    old(self)@[height],
                    untrusted_sh,
                    untrusted_vals,
                    untrusted_next_vals,
                    old(self).answers(old(self)@[height].trusted_state, untrusted_sh, untrusted_vals),
                )
            } else {
                &&& r == Err::<VerifierOutput, VerifierError>(
                    VerifierError::NoMatchingPendingState(height),
                )
                &&& final(self)@ == old(self)@
            },
    {
        match self.pending_states.remove(&height) {
            None => Err(VerifierError::NoMatchingPendingState(height)),
            Some(pending_state) => self.perform_verification(
                &pending_state,
                untrusted_sh,
                untrusted_vals,
                untrusted_next_vals,
            ),
        }
    }

    /// Checks a fetched state against a pending request.
    fn perform_verification(
        &self,
        pending_state: &PendingState,
        untrusted_sh: SignedHeader,
        untrusted_vals: ValidatorSet,
        untrusted_next_vals: ValidatorSet,
    ) -> (r: Result<VerifierOutput, VerifierError>)
        ensures
            r == fetched_outcome(
                *pending_state,
                untrusted_sh,
                untrusted_vals,
                untrusted_next_vals,
                self.answers(pending_state.trusted_state, untrusted_sh, untrusted_vals),
            ),
    {
        let result = self.verify_untrusted_state(
            &pending_state.trusted_state,
            &untrusted_sh,
            &untrusted_vals,
            &untrusted_next_vals,
            &pending_state.trust_threshold,
            pending_state.trusting_period,
            pending_state.now,
        );
        match result {
            Ok(()) => Ok(
                VerifierOutput::StateVerified(
                    TrustedState { header: untrusted_sh.header, validators: untrusted_vals },
                ),
            ),
            Err(Error::InsufficientValidatorsOverlap) => {
                let trusted_h = pending_state.trusted_state.header.height;
                let untrusted_h = untrusted_sh.header.height;
                match self.compute_pivot_height(&pending_state.trusted_state, &untrusted_sh) {
                    None => Err(
                        VerifierError::HeightOverflow {
                            trusted_height: trusted_h,
                            untrusted_height: untrusted_h,
                        },
                    ),
                    Some(pivot_height) => if pivot_height <= trusted_h {
                        Err(
                            VerifierError::BisectionExhausted {
                                trusted_height: trusted_h,
                                untrusted_height: untrusted_h,
                            },
                        )
                    } else {
                        Ok(
                            VerifierOutput::VerificationNeeded {
                                trusted_state: pending_state.trusted_state,
                                pivot_height,
                                trust_threshold: pending_state.trust_threshold,
                                trusting_period: pending_state.trusting_period,
                                now: pending_state.now,
                            },
                        )
                    },
                }
            },
            Err(kind) => Err(VerifierError::VerificationFailed(kind)),
        }
    }

    /// The midpoint of the trusted and the untrusted height, rounded down;
    /// `None` when their sum does not fit in a height.
    pub fn compute_pivot_height(
        &self,
        trusted_state: &TrustedState,
        untrusted_sh: &SignedHeader,
    ) -> (r: Option<Height>)
        ensures
            r == spec_pivot(trusted_state.header.height, untrusted_sh.header.height),
    {
        match trusted_state.header.height.checked_add(untrusted_sh.header.height) {
            Some(sum) => Some(sum / 2),
            None => None,
        }
    }

    /// Runs the conjunction of checks in order, asking each capability only
    /// when a check that needs it is reached.
    pub fn verify_untrusted_state(
        &self,
        trusted_state: &TrustedState,
        untrusted_sh: &SignedHeader,
        untrusted_vals: &ValidatorSet,
        untrusted_next_vals: &ValidatorSet,
        trust_threshold: &TrustThreshold,
        trusting_period: Nanos,
        now: Time,
    ) -> (r: Result<(), Error>)
        ensures
            r == verdict(
                *trusted_state,
                *untrusted_sh,
                *untrusted_vals,
                *untrusted_next_vals,
                *trust_threshold,
                trusting_period,
                now,
                self.answers(*trusted_state, *untrusted_sh, *untrusted_vals),
            ),
    {
        if !_is_within_trust_period(&trusted_state.header, trusting_period, now) {
            return Err(Error::NotWithinTrustPeriod);
        }
        if !_validator_sets_match(untrusted_sh, untrusted_vals) {
            return Err(Error::InvalidValidatorSet);
        }
        if !_next_validators_match(untrusted_sh, untrusted_next_vals) {
            return Err(Error::InvalidNextValidatorSet);
        }
        let header_hash = self.header_hasher.hash(&untrusted_sh.header);
        if !_header_matches_commit(header_hash, &untrusted_sh.commit) {
            return Err(Error::InvalidCommitValue);
        }
        let commit_check = self.commit_validator.validate(&untrusted_sh.commit, untrusted_vals);
        if !_valid_commit(&commit_check) {
            return Err(Error::ImplementationSpecific);
        }
        if !_is_monotonic_bft_time(&trusted_state.header, &untrusted_sh.header) {
            return Err(Error::NonMonotonicBftTime);
        }
        if !_is_monotonic_height(&untrusted_sh.header, &trusted_state.header) {
            return Err(Error::NonIncreasingHeight);
        }
        if _invalid_next_validator_set(trusted_state, untrusted_sh, untrusted_next_vals) {
            return Err(Error::InvalidNextValidatorSet);
        }
        let trusted_total = self.voting_power_calculator.total_power_of(&trusted_state.validators);
        let trusted_power = self.voting_power_calculator.voting_power_in(
            &untrusted_sh.commit,
            &trusted_state.validators,
        );
        if !_has_sufficient_validators_overlap(trusted_power, trusted_total, trust_threshold) {
            return Err(Error::InsufficientValidatorsOverlap);
        }
        let signers_total = self.voting_power_calculator.total_power_of(untrusted_vals);
        let signers_power = self.voting_power_calculator.voting_power_in(
            &untrusted_sh.commit,
            untrusted_vals,
        );
        if !_has_sufficient_signers_overlap(signers_power, signers_total, trust_threshold) {
            return Err(Error::InvalidCommit);
        }
        Ok(())
    }
}

} // verus!
