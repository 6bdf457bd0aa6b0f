//! The scheduler: owns the light client and the verifier, routes each
//! component's output to the next one, and stops where the fetcher is needed
//! or a top-level request ends. The fetcher itself, and the loop that feeds
//! the scheduler, belong to the caller.
use crate::bisection::{
    fetched_outcome, PendingState as VerifierPending, Verifier, VerifierError, VerifierInput,
    VerifierOutput,
};
use crate::capabilities::{answers_of, CommitValidator, HeaderHasher, VotingPowerCalculator};
use crate::chain::{
    bisection_stack, ceil_log2, chain_last, halves, heights_increase, is_trust_chain,
    lemma_bisection_depth, lemma_trust_chain_heights_increase, link_accepts,
};
use crate::events::{route_event, Input, Output, RequesterInput, Route};
use crate::light_client::{LightClient, LightClientError, LightClientEvent, PendingState};
use crate::predicates::{spec_within_trust_period, verdict};
use crate::types::{
    Height, Nanos, SignedHeader, Time, TrustThreshold, TrustedState, ValidatorSet,
};
use vstd::prelude::*;

verus! {

#[derive(Clone, Copy, Debug, PartialEq, Eq, Structural)]
pub enum SchedulerError {
    Verifier(VerifierError),
    LightClient(LightClientError),
    /// The fetcher brought a header of another height than the one asked for.
    FetchedHeightMismatch { expected: Height, got: Height },
    /// A top-level request arrived while another one is in flight.
    Busy,
    /// An event that only another component emits, or that the caller handles.
    UnexpectedEvent,
}

/// What the caller has to do next.
#[derive(Clone, Debug)]
pub enum Action {
    /// Fetch the signed header and the validator sets at this height and
    /// hand them back as a `FetchedState` event.
    Fetch(Height),
    /// The request is done: the states verified on the way, in order.
    Done { trusted_height: Height, trusted_states: Vec<TrustedState> },
    /// Nothing to do.
    Idle,
}

/// A top-level request: verify up to `target_height` from `trusted_state`.
#[derive(Clone, Copy, Debug, PartialEq, Eq, Structural)]
pub struct Request {
    pub trusted_state: TrustedState,
    pub target_height: Height,
    pub trust_threshold: TrustThreshold,
    pub trusting_period: Nanos,
    pub now: Time,
}

pub struct Scheduler<P, C, H> {
    light_client: LightClient,
    verifier: Verifier<P, C, H>,
    /// The height that the fetcher was asked for, while a request is in flight.
    awaiting: Option<Height>,
    request: Ghost<Request>,
}

/// `requests` holds a record for `height` made under `request`'s parameters.
pub open spec fn records(requests: Map<Height, PendingState>, height: Height, request: Request) -> bool {
    &&& requests.contains_key(height)
    &&& requests[height].trust_threshold == request.trust_threshold
    &&& requests[height].trusting_period == request.trusting_period
    &&& requests[height].now == request.now
}

/// `states` is a non-empty chain of trust, under these capabilities, from
/// the request's trusted state to a state at the request's target height.
pub open spec fn chain_done<P: VotingPowerCalculator, C: CommitValidator, H: HeaderHasher>(
    calculator: P,
    commit_validator: C,
    header_hasher: H,
    request: Request,
    states: Seq<TrustedState>,
) -> bool {
    &&& states.len() > 0
    &&& states.last().header.height == request.target_height
    &&& is_trust_chain(
        calculator,
        commit_validator,
        header_hasher,
        request.trusted_state,
        states,
        request.trust_threshold,
        request.trusting_period,
        request.now,
    )
    &&& heights_increase(request.trusted_state, states)
}

/// The gap between a request's trusted height and its target.
pub open spec fn gap(request: Request) -> nat {
    if request.target_height > request.trusted_state.header.height {
        (request.target_height - request.trusted_state.header.height) as nat
    } else {
        0
    }
}

/// What the caller is told, with the states of a finished request as a
/// sequence.
pub enum Reply {
    Fetch(Height),
    Done(Height, Seq<TrustedState>),
    Idle,
}

pub open spec fn reply_of(r: Result<Action, SchedulerError>) -> Result<Reply, SchedulerError> {
    match r {
        Ok(Action::Fetch(h)) => Ok(Reply::Fetch(h)),
        Ok(Action::Done { trusted_height, trusted_states }) => Ok(
            Reply::Done(trusted_height, trusted_states@),
        ),
        Ok(Action::Idle) => Ok(Reply::Idle),
        Err(e) => Err(e),
    }
}

/// The scheduler's state: whether a request is in flight, the request, the
/// heights still to verify (bottom first) and the states verified so far.
pub struct SchedulerView {
    pub in_flight: bool,
    pub request: Request,
    pub heights: Seq<Height>,
    pub verified: Seq<TrustedState>,
}

/// No request in flight; `request` is the last one seen.
pub open spec fn idle_view(request: Request) -> SchedulerView {
    SchedulerView {
        in_flight: false,
        request,
        heights: Seq::<Height>::empty(),
        verified: Seq::<TrustedState>::empty(),
    }
}

/// The reply to the state fetched at `height`, and the state after it, from
/// state `s` with these capabilities.
pub open spec fn fetched_step<P: VotingPowerCalculator, C: CommitValidator, H: HeaderHasher>(
    calculator: P,
    commit_validator: C,
    header_hasher: H,
    s: SchedulerView,
    height: Height,
    untrusted_sh: SignedHeader,
    untrusted_vals: ValidatorSet,
    untrusted_next_vals: ValidatorSet,
) -> (Result<Reply, SchedulerError>, SchedulerView) {
    let req = s.request;
    let idle = idle_view(req);
    let top = s.heights.last();
    let a = chain_last(req.trusted_state, s.verified);
    if !s.in_flight {
        (Err(SchedulerError::Verifier(VerifierError::NoMatchingPendingState(height))), s)
    } else if height == top && untrusted_sh.header.height != top {
        (
            Err(
                SchedulerError::FetchedHeightMismatch {
                    expected: top,
                    got: untrusted_sh.header.height,
                },
            ),
            idle,
        )
    } else if height != top {
        (Err(SchedulerError::Verifier(VerifierError::NoMatchingPendingState(height))), idle)
    } else {
        let pending = VerifierPending {
            trusted_state: a,
            untrusted_height: top,
            trust_threshold: req.trust_threshold,
            trusting_period: req.trusting_period,
            now: req.now,
        };
        let answers = answers_of(
            calculator,
            commit_validator,
            header_hasher,
            a,
            untrusted_sh,
            untrusted_vals,
        );
        match fetched_outcome(pending, untrusted_sh, untrusted_vals, untrusted_next_vals, answers) {
            Err(e) => (Err(SchedulerError::Verifier(e)), idle),
            Ok(VerifierOutput::StateVerified(ts)) => {
                let rest = s.heights.drop_last();
                if rest.len() == 0 {
                    (Ok(Reply::Done(top, s.verified.push(ts))), idle)
                } else if spec_within_trust_period(ts.header, req.trusting_period, req.now) {
                    (
                        Ok(Reply::Fetch(rest.last())),
                        SchedulerView {
                            in_flight: true,
                            request: req,
                            heights: rest,
                            verified: s.verified.push(ts),
                        },
                    )
                } else {
                    (
                        Err(
                            SchedulerError::Verifier(
                                VerifierError::NotWithinTrustingPeriod {
                                    header: ts.header,
                                    trusting_period: req.trusting_period,
                                    now: req.now,
                                },
                            ),
                        ),
                        idle,
                    )
                }
            },
            Ok(VerifierOutput::VerificationNeeded { pivot_height, .. }) => (
                Ok(Reply::Fetch(pivot_height)),
                SchedulerView {
                    in_flight: true,
                    request: req,
                    heights: s.heights.push(pivot_height),
                    verified: s.verified,
                },
            ),
            Ok(VerifierOutput::StateNeeded(_)) => (Err(SchedulerError::UnexpectedEvent), idle),
        }
    }
}

/// The reply to a top-level request, and the state after it, from state `s`.
pub open spec fn start_step(
    s: SchedulerView,
    trusted_state: TrustedState,
    untrusted_height: Height,
    trust_threshold: TrustThreshold,
    trusting_period: Nanos,
    now: Time,
) -> (Result<Reply, SchedulerError>, SchedulerView) {
    if s.in_flight {
        (Err(SchedulerError::Busy), s)
    } else if spec_within_trust_period(trusted_state.header, trusting_period, now) {
        (
            Ok(Reply::Fetch(untrusted_height)),
            SchedulerView {
                in_flight: true,
                request: Request {
                    trusted_state,
                    target_height: untrusted_height,
                    trust_threshold,
                    trusting_period,
                    now,
                },
                heights: seq![untrusted_height],
                verified: Seq::<TrustedState>::empty(),
            },
        )
    } else {
        (
            Err(
                SchedulerError::Verifier(
                    VerifierError::NotWithinTrustingPeriod {
                        header: trusted_state.header,
                        trusting_period,
                        now,
                    },
                ),
            ),
            idle_view(s.request),
        )
    }
}

/// The reply to `event`, and the state after it, from state `s` with these
/// capabilities. Being a function of its arguments, it answers a run
/// repeated on the same inputs with the same replies.
pub open spec fn step<P: VotingPowerCalculator, C: CommitValidator, H: HeaderHasher>(
    calculator: P,
    commit_validator: C,
    header_hasher: H,
    s: SchedulerView,
    event: Input,
) -> (Result<Reply, SchedulerError>, SchedulerView) {
    match event {
        Input::LightClient(
            LightClientEvent::VerifyAtHeight {
                trusted_state,
                untrusted_height,
                trust_threshold,
                trusting_period,
                now,
            },
        ) => start_step(s, trusted_state, untrusted_height, trust_threshold, trusting_period, now),
        Input::Verifier(
            VerifierInput::FetchedState { height, untrusted_sh, untrusted_vals, untrusted_next_vals },
        ) => fetched_step(
            calculator,
            commit_validator,
            header_hasher,
            s,
            height,
            untrusted_sh,
            untrusted_vals,
            untrusted_next_vals,
        ),
        Input::NoOp | Input::Tick | Input::Terminate => (Ok(Reply::Idle), s),
        _ => (Err(SchedulerError::UnexpectedEvent), s),
    }
}

/// The replies to `events`, handled one after another from state `s`.
pub open spec fn run_replies<P: VotingPowerCalculator, C: CommitValidator, H: HeaderHasher>(
    calculator: P,
    commit_validator: C,
    header_hasher: H,
    s: SchedulerView,
    events: Seq<Input>,
) -> Seq<Result<Reply, SchedulerError>>
    decreases events.len(),
{
    if events.len() == 0 {
        Seq::empty()
    } else {
        let (reply, next) = step(calculator, commit_validator, header_hasher, s, events[0]);
        seq![reply] + run_replies(
            calculator,
            commit_validator,
            header_hasher,
            next,
            events.drop_first(),
        )
    }
}

/// A run does not depend on the runs before it: from any idle state, the
/// same inputs get the same replies. In particular, running a request again
/// with the same fetched data and the same `now` yields identical results.
pub proof fn lemma_runs_repeat<P: VotingPowerCalculator, C: CommitValidator, H: HeaderHasher>(
    calculator: P,
    commit_validator: C,
    header_hasher: H,
    first: Request,
    second: Request,
    events: Seq<Input>,
)
    ensures
        run_replies(calculator, commit_validator, header_hasher, idle_view(first), events)
            == run_replies(calculator, commit_validator, header_hasher, idle_view(second), events),
    decreases events.len(),
{
    if events.len() > 0 {
        let (r1, n1) = step(calculator, commit_validator, header_hasher, idle_view(first), events[0]);
        let (r2, n2) = step(
            calculator,
            commit_validator,
            header_hasher,
            idle_view(second),
            events[0],
        );
        assert(r1 == r2);
        if n1 == n2 {
        } else {
            assert(n1 == idle_view(n1.request) && n2 == idle_view(n2.request));
            lemma_runs_repeat(
                calculator,
                commit_validator,
                header_hasher,
                n1.request,
                n2.request,
                events.drop_first(),
            );
        }
    }
}

impl<P: VotingPowerCalculator, C: CommitValidator, H: HeaderHasher> View for Scheduler<P, C, H> {
    type V = SchedulerView;

    closed spec fn view(&self) -> SchedulerView {
        SchedulerView {
            in_flight: self.awaiting is Some,
            request: self.request@,
            heights: self.light_client.heights(),
            verified: self.light_client.verified(),
        }
    }
}

impl<P: VotingPowerCalculator, C: CommitValidator, H: HeaderHasher> Scheduler<P, C, H> {
    /// A request is in flight.
    pub open spec fn in_flight(&self) -> bool {
        self@.in_flight
    }

    /// The request in flight.
    pub open spec fn request(&self) -> Request {
        self@.request
    }

    /// The heights still to verify, bottom first.
    pub open spec fn pending_heights(&self) -> Seq<Height> {
        self@.heights
    }

    /// The states verified so far for the request in flight.
    pub open spec fn verified(&self) -> Seq<TrustedState> {
        self@.verified
    }

    /// The verifier that the scheduler drives.
    pub closed spec fn bisector(&self) -> Verifier<P, C, H> {
        self.verifier
    }

    /// `states` completes the request in flight under this scheduler's
    /// capabilities.
    pub open spec fn completes(&self, states: Seq<TrustedState>) -> bool {
        chain_done(
            self.bisector().calculator(),
            self.bisector().validator(),
            self.bisector().hasher(),
            self.request(),
            states,
        )
    }

    /// The latest trusted state of the request in flight.
    pub open spec fn anchor(&self) -> TrustedState {
        chain_last(self.request().trusted_state, self.verified())
    }

    pub closed spec fn inv(&self) -> bool {
        match self.awaiting {
            None => {
                &&& self.light_client.is_idle()
                &&& self.verifier@ == Map::<Height, VerifierPending>::empty()
            },
            Some(top) => {
                let req = self.request@;
                let hs = self.light_client.heights();
                let a = chain_last(req.trusted_state, self.light_client.verified());
                &&& hs.len() > 0
                &&& hs.last() == top
                &&& hs[0] == req.target_height
                &&& self.verifier@ == Map::<Height, VerifierPending>::empty().insert(
                    top,
                    VerifierPending {
                        trusted_state: a,
                        untrusted_height: top,
                        trust_threshold: req.trust_threshold,
                        trusting_period: req.trusting_period,
                        now: req.now,
                    },
                )
                &&& spec_within_trust_period(a.header, req.trusting_period, req.now)
                &&& forall|i: int|
                    0 <= i < hs.len() ==> #[trigger] records(
                        self.light_client.requests(),
                        hs[i],
                        req,
                    )
                &&& bisection_stack(hs, a.header.height)
                &&& is_trust_chain(
                    self.verifier.calculator(),
                    self.verifier.validator(),
                    self.verifier.hasher(),
                    req.trusted_state,
                    self.light_client.verified(),
                    req.trust_threshold,
                    req.trusting_period,
                    req.now,
                )
                &&& a.header.height >= req.trusted_state.header.height
            },
        }
    }

    pub fn new(light_client: LightClient, verifier: Verifier<P, C, H>) -> (r: Self)
        requires
            light_client.is_idle(),
            verifier@ == Map::<Height, VerifierPending>::empty(),
        ensures
            r.inv(),
            r@ == idle_view(r@.request),
            r.bisector().calculator() == verifier.calculator(),
            r.bisector().validator() == verifier.validator(),
            r.bisector().hasher() == verifier.hasher(),
    {
        Scheduler {
            light_client,
            verifier,
            awaiting: None,
            request: Ghost(
                Request {
                    trusted_state: TrustedState {
                        header: crate::types::Header {
                            height: 0,
                            bft_time: 0,
                            validator_set_hash: 0,
                            next_validator_set_hash: 0,
                            hash: 0,
                        },
                        validators: ValidatorSet { hash: 0 },
                    },
                    target_height: 0,
                    trust_threshold: TrustThreshold { numerator: 1, denominator: 3 },
                    trusting_period: 0,
                    now: 0,
                },
            ),
        }
    }

    /// Bisection never nests deeper than `⌈log₂ G⌉ + 1` heights, where `G`
    /// is the gap between the request's trusted height and its target.
    pub proof fn lemma_depth_within_log(&self)
        requires
            self.inv(),
            self.in_flight(),
        ensures
            self.pending_heights().len() <= ceil_log2(gap(self.request())) + 1,
    {
        let hs = self.light_client.heights();
        let a = chain_last(self.request@.trusted_state, self.light_client.verified());
        lemma_bisection_depth(hs, a.header.height, gap(self.request()));
    }

    /// Starts a top-level request: asks for the fetch at its target height,
    /// or fails when its trusted state is outside the trusting period.
    pub fn start_request(
        &mut self,
        trusted_state: TrustedState,
        untrusted_height: Height,
        trust_threshold: TrustThreshold,
        trusting_period: Nanos,
        now: Time,
    ) -> (r: Result<Action, SchedulerError>)
        requires
            old(self).inv(),
        ensures
            final(self).inv(),
            old(self).bisector().same_capabilities(final(self).bisector()),
            (reply_of(r), final(self)@) == start_step(
                old(self)@,
                trusted_state,
                untrusted_height,
                trust_threshold,
                trusting_period,
                now,
            ),
    {
        if self.awaiting.is_some() {
            return Err(SchedulerError::Busy);
        }
        let performed = self.light_client.handle(
            LightClientEvent::VerifyAtHeight {
                trusted_state,
                untrusted_height,
                trust_threshold,
                trusting_period,
                now,
            },
        );
        let verified = match performed {
            Ok(out) => match route_event(Output::LightClient(out)) {
                Route::Next(Input::Verifier(input)) => self.verifier.handle(input),
                _ => {
                    self.cancel();
                    return Err(SchedulerError::UnexpectedEvent);
                },
            },
            Err(e) => {
                self.cancel();
                return Err(SchedulerError::LightClient(e));
            },
        };
        let routed = match verified {
            Ok(out) => route_event(Output::Verifier(out)),
            Err(e) => {
                self.cancel();
                return Err(SchedulerError::Verifier(e));
            },
        };
        match routed {
            Route::Next(Input::Requester(RequesterInput::FetchState(height))) => {
                self.awaiting = Some(height);
                self.request = Ghost(
                    Request {
                        trusted_state,
                        target_height: untrusted_height,
                        trust_threshold,
                        trusting_period,
                        now,
                    },
                );
                proof {
                    let hs = self.light_client.heights();
                    assert(hs == seq![untrusted_height]);
                    assert forall|i: int| 0 <= i < hs.len() implies #[trigger] records(
                        self.light_client.requests(),
                        hs[i],
                        self.request@,
                    ) by {
                        assert(hs[i] == untrusted_height);
                    }
                }
                Ok(Action::Fetch(height))
            },
            _ => {
                self.cancel();
                Err(SchedulerError::UnexpectedEvent)
            },
        }
    }

    /// Takes the state fetched for the height in flight and runs the
    /// components until the next fetch, the end of the request, or an error,
    /// which ends the request.
    pub fn on_fetched_state(
        &mut self,
        height: Height,
        untrusted_sh: SignedHeader,
        untrusted_vals: ValidatorSet,
        untrusted_next_vals: ValidatorSet,
    ) -> (r: Result<Action, SchedulerError>)
        requires
            old(self).inv(),
        ensures
            final(self).inv(),
            match r {
                Ok(Action::Done { trusted_height, trusted_states }) => {
                    &&& trusted_height == old(self).request().target_height
                    &&& old(self).completes(trusted_states@)
                },
                _ => true,
            },
            old(self).bisector().same_capabilities(final(self).bisector()),
            (reply_of(r), final(self)@) == fetched_step(
                old(self).bisector().calculator(),
                old(self).bisector().validator(),
                old(self).bisector().hasher(),
                old(self)@,
                height,
                untrusted_sh,
                untrusted_vals,
                untrusted_next_vals,
            ),
    {
        let top = match self.awaiting {
            Some(top) => top,
            None => {
                return Err(SchedulerError::Verifier(VerifierError::NoMatchingPendingState(height)));
            },
        };
        if height == top && untrusted_sh.header.height != top {
            self.cancel();
            return Err(
                SchedulerError::FetchedHeightMismatch {
                    expected: top,
                    got: untrusted_sh.header.height,
                },
            );
        }
        let ghost req = self.request@;
        let ghost hs = self.light_client.heights();
        let ghost vs = self.light_client.verified();
        let ghost reqs = self.light_client.requests();
        let ghost a = chain_last(req.trusted_state, vs);
        let ghost pending = self.verifier@[top];
        let fetched = self.verifier.handle(
            VerifierInput::FetchedState {
                height,
                untrusted_sh,
                untrusted_vals,
                untrusted_next_vals,
            },
        );
        let ghost calculator = self.verifier.calculator();
        let ghost commit_validator = self.verifier.validator();
        let ghost header_hasher = self.verifier.hasher();
        let ghost answers = self.verifier.answers(a, untrusted_sh, untrusted_vals);
        proof {
            if height == top {
                assert(self.verifier@ =~= Map::<Height, VerifierPending>::empty());
            }
        }
        match fetched {
            Err(e) => {
                self.cancel();
                Err(SchedulerError::Verifier(e))
            },
            Ok(VerifierOutput::StateVerified(ts)) => {
                proof {
                    assert(height == top);
                    assert(verdict(
                        a,
                        untrusted_sh,
                        untrusted_vals,
                        untrusted_next_vals,
                        req.trust_threshold,
                        req.trusting_period,
                        req.now,
                        answers,
                    ) == Ok::<(), crate::types::Error>(()));
                    assert(link_accepts(
                        calculator,
                        commit_validator,
                        header_hasher,
                        a,
                        ts,
                        untrusted_sh,
                        untrusted_next_vals,
                        req.trust_threshold,
                        req.trusting_period,
                        req.now,
                    ));
                }
                proof {
                    assert(top == ts.header.height);
                    if hs.len() > 1 {
                        assert(records(reqs, hs[hs.len() - 2], req));
                        assert(hs.drop_last().last() == hs[hs.len() - 2]);
                    }
                }
                let stepped = match route_event(Output::Verifier(VerifierOutput::StateVerified(ts))) {
                    Route::Next(Input::LightClient(event)) => self.light_client.handle(event),
                    _ => {
                        self.cancel();
                        return Err(SchedulerError::UnexpectedEvent);
                    },
                };
                proof {
                    let vs2 = vs.push(ts);
                    assert forall|i: int| 0 <= i < vs2.len() implies #[trigger] crate::chain::accepts(
                        calculator,
                        commit_validator,
                        header_hasher,
                        crate::chain::chain_prev(req.trusted_state, vs2, i),
                        vs2[i],
                        req.trust_threshold,
                        req.trusting_period,
                        req.now,
                    ) by {
                        if i < vs.len() {
                            assert(crate::chain::chain_prev(req.trusted_state, vs2, i)
                                == crate::chain::chain_prev(req.trusted_state, vs, i));
                            assert(vs2[i] == vs[i]);
                        } else {
                            assert(crate::chain::chain_prev(req.trusted_state, vs2, i) == a);
                        }
                    }
                    assert(is_trust_chain(
                        calculator,
                        commit_validator,
                        header_hasher,
                        req.trusted_state,
                        vs2,
                        req.trust_threshold,
                        req.trusting_period,
                        req.now,
                    ));
                    lemma_trust_chain_heights_increase(
                        calculator,
                        commit_validator,
                        header_hasher,
                        req.trusted_state,
                        vs2,
                        req.trust_threshold,
                        req.trusting_period,
                        req.now,
                    );
                }
                let routed = match stepped {
                    Ok(out) => route_event(Output::LightClient(out)),
                    Err(e) => {
                        self.cancel();
                        return Err(SchedulerError::LightClient(e));
                    },
                };
                match routed {
                    Route::Deliver { trusted_height, trusted_states } => {
                        self.awaiting = None;
                        Ok(Action::Done { trusted_height, trusted_states })
                    },
                    Route::Next(Input::Verifier(input)) => {
                        proof {
                            lemma_stack_pop(hs, a.header.height);
                            let rest = hs.drop_last();
                            assert(records(self.light_client.requests(), rest[rest.len() - 1], req));
                        }
                        let next = match self.verifier.handle(input) {
                            Ok(out) => route_event(Output::Verifier(out)),
                            Err(e) => {
                                self.cancel();
                                return Err(SchedulerError::Verifier(e));
                            },
                        };
                        match next {
                            Route::Next(Input::Requester(RequesterInput::FetchState(h))) => {
                                self.awaiting = Some(h);
                                proof {
                                    let hs2 = self.light_client.heights();
                                    assert(hs2 == hs.drop_last());
                                    assert forall|i: int| 0 <= i < hs2.len() implies #[trigger] records(
                                        self.light_client.requests(),
                                        hs2[i],
                                        req,
                                    ) by {
                                        assert(hs2[i] == hs[i]);
                                    }
                                }
                                Ok(Action::Fetch(h))
                            },
                            _ => {
                                self.cancel();
                                Err(SchedulerError::UnexpectedEvent)
                            },
                        }
                    },
                    _ => {
                        self.cancel();
                        Err(SchedulerError::UnexpectedEvent)
                    },
                }
            },
            Ok(
                VerifierOutput::VerificationNeeded {
                    trusted_state,
                    pivot_height,
                    trust_threshold,
                    trusting_period,
                    now,
                },
            ) => {
                let pushed = match route_event(
                    Output::Verifier(
                        VerifierOutput::VerificationNeeded {
                            trusted_state,
                            pivot_height,
                            trust_threshold,
                            trusting_period,
                            now,
                        },
                    ),
                ) {
                    Route::Next(Input::LightClient(event)) => self.light_client.handle(event),
                    _ => {
                        self.cancel();
                        return Err(SchedulerError::UnexpectedEvent);
                    },
                };
                let verified = match pushed {
                    Ok(out) => match route_event(Output::LightClient(out)) {
                        Route::Next(Input::Verifier(input)) => self.verifier.handle(input),
                        _ => {
                            self.cancel();
                            return Err(SchedulerError::UnexpectedEvent);
                        },
                    },
                    Err(e) => {
                        self.cancel();
                        return Err(SchedulerError::LightClient(e));
                    },
                };
                let next = match verified {
                    Ok(out) => route_event(Output::Verifier(out)),
                    Err(e) => {
                        self.cancel();
                        return Err(SchedulerError::Verifier(e));
                    },
                };
                match next {
                    Route::Next(Input::Requester(RequesterInput::FetchState(h))) => {
                        self.awaiting = Some(h);
                        proof {
                            let hs2 = self.light_client.heights();
                            assert(hs2 == hs.push(pivot_height));
                            assert(halves(hs2, a.header.height, hs.len() as int));
                            assert forall|i: int| 1 <= i < hs2.len() implies #[trigger] halves(
                                hs2,
                                a.header.height,
                                i,
                            ) by {
                                if i < hs.len() {
                                    assert(halves(hs, a.header.height, i));
                                }
                            }
                            assert forall|i: int| 0 <= i < hs2.len() implies #[trigger] records(
                                self.light_client.requests(),
                                hs2[i],
                                req,
                            ) by {
                                if i < hs.len() {
                                    assert(records(reqs, hs[i], req));
                                }
                            }
                        }
                        Ok(Action::Fetch(h))
                    },
                    _ => {
                        self.cancel();
                        Err(SchedulerError::UnexpectedEvent)
                    },
                }
            },
            Ok(VerifierOutput::StateNeeded(_)) => {
                self.cancel();
                Err(SchedulerError::UnexpectedEvent)
            },
        }
    }

    /// Dispatches one event from the caller: a top-level request, the state
    /// that the fetcher brought, or a sentinel of the loop.
    pub fn handle(&mut self, event: Input) -> (r: Result<Action, SchedulerError>)
        requires
            old(self).inv(),
        ensures
            final(self).inv(),
            old(self).bisector().same_capabilities(final(self).bisector()),
            (reply_of(r), final(self)@) == step(
                old(self).bisector().calculator(),
                old(self).bisector().validator(),
                old(self).bisector().hasher(),
                old(self)@,
                event,
            ),
            match r {
                Ok(Action::Done { trusted_height, trusted_states }) => {
                    &&& trusted_height == old(self).request().target_height
                    &&& old(self).completes(trusted_states@)
                },
                _ => true,
            },
            final(self).in_flight() ==> final(self).pending_heights().len() <= ceil_log2(
                gap(final(self).request()),
            ) + 1,
    {
        let r = match event {
            Input::LightClient(
                LightClientEvent::VerifyAtHeight {
                    trusted_state,
                    untrusted_height,
                    trust_threshold,
                    trusting_period,
                    now,
                },
            ) => self.start_request(
                trusted_state,
                untrusted_height,
                trust_threshold,
                trusting_period,
                now,
            ),
            Input::Verifier(
                VerifierInput::FetchedState {
                    height,
                    untrusted_sh,
                    untrusted_vals,
                    untrusted_next_vals,
                },
            ) => self.on_fetched_state(height, untrusted_sh, untrusted_vals, untrusted_next_vals),
            Input::NoOp | Input::Tick | Input::Terminate => Ok(Action::Idle),
            _ => Err(SchedulerError::UnexpectedEvent),
        };
        proof {
            if self.in_flight() {
                self.lemma_depth_within_log();
            }
        }
        r
    }

    /// Abandons the request in flight, if any.
    pub fn cancel(&mut self)
        ensures
            final(self)@ == idle_view(old(self)@.request),
            old(self).bisector().same_capabilities(final(self).bisector()),
            final(self).inv(),
            !final(self).in_flight(),
    {
        let _ = self.light_client.reset();
        self.verifier.discard_pending();
        self.awaiting = None;
    }
}

/// Popping the top of a bisection stack, and trusting the popped height,
/// leaves a bisection stack above that height.
proof fn lemma_stack_pop(heights: Seq<Height>, anchor: Height)
    requires
        heights.len() > 0,
        heights.last() >= anchor,
        bisection_stack(heights, anchor),
    ensures
        bisection_stack(heights.drop_last(), heights.last()),
{
    let rest = heights.drop_last();
    let top = heights.last();
    assert forall|i: int| 1 <= i < rest.len() implies #[trigger] halves(rest, top, i) by {
        lemma_stack_decreasing(heights, anchor, i, heights.len() - 1);
        assert(halves(heights, anchor, i));
    }
}

/// Heights on a bisection stack strictly decrease toward the top.
proof fn lemma_stack_decreasing(heights: Seq<Height>, anchor: Height, i: int, j: int)
    requires
        bisection_stack(heights, anchor),
        0 <= i < j < heights.len(),
    ensures
        heights[i] > heights[j],
    decreases j - i,
{
    assert(halves(heights, anchor, j));
    if i + 1 < j {
        lemma_stack_decreasing(heights, anchor, i, j - 1);
    }
}

} // verus!
