//! Chains of trusted states and the depth of bisection.
use crate::capabilities::{answers_of, CommitValidator, HeaderHasher, VotingPowerCalculator};
use crate::predicates::verdict;
use crate::types::{Height, Nanos, SignedHeader, Time, TrustThreshold, TrustedState, ValidatorSet};
use vstd::prelude::*;

verus! {

/// The verifier, with these capabilities, accepts `next` against `prev` when
/// shown the signed header `sh` and the next validators `next_vals`.
pub open spec fn link_accepts<P: VotingPowerCalculator, C: CommitValidator, H: HeaderHasher>(
    calculator: P,
    commit_validator: C,
    header_hasher: H,
    prev: TrustedState,
    next: TrustedState,
    sh: SignedHeader,
    next_vals: ValidatorSet,
    threshold: TrustThreshold,
    trusting_period: Nanos,
    now: Time,
) -> bool {
    &&& sh.header == next.header
    &&& verdict(
        prev,
        sh,
        next.validators,
        next_vals,
        threshold,
        trusting_period,
        now,
        answers_of(calculator, commit_validator, header_hasher, prev, sh, next.validators),
    ) == Ok::<(), crate::types::Error>(())
}

/// The verifier, with these capabilities, accepts `next` against `prev` on
/// some signed header of `next`'s header and some next validators.
pub open spec fn accepts<P: VotingPowerCalculator, C: CommitValidator, H: HeaderHasher>(
    calculator: P,
    commit_validator: C,
    header_hasher: H,
    prev: TrustedState,
    next: TrustedState,
    threshold: TrustThreshold,
    trusting_period: Nanos,
    now: Time,
) -> bool {
    exists|sh: SignedHeader, next_vals: ValidatorSet|
        #[trigger] link_accepts(
            calculator,
            commit_validator,
            header_hasher,
            prev,
            next,
            sh,
            next_vals,
            threshold,
            trusting_period,
            now,
        )
}

/// The state that `states[i]` was verified against: `first` for the first.
pub open spec fn chain_prev(first: TrustedState, states: Seq<TrustedState>, i: int) -> TrustedState {
    if i == 0 {
        first
    } else {
        states[i - 1]
    }
}

/// The last state of the chain that starts at `first`.
pub open spec fn chain_last(first: TrustedState, states: Seq<TrustedState>) -> TrustedState {
    if states.len() == 0 {
        first
    } else {
        states.last()
    }
}

/// Each state is accepted against the one before it, the first against `first`.
pub open spec fn is_trust_chain<P: VotingPowerCalculator, C: CommitValidator, H: HeaderHasher>(
    calculator: P,
    commit_validator: C,
    header_hasher: H,
    first: TrustedState,
    states: Seq<TrustedState>,
    threshold: TrustThreshold,
    trusting_period: Nanos,
    now: Time,
) -> bool {
    forall|i: int|
        0 <= i < states.len() ==> #[trigger] accepts(
            calculator,
            commit_validator,
            header_hasher,
            chain_prev(first, states, i),
            states[i],
            threshold,
            trusting_period,
            now,
        )
}

/// The heights of `first` and then `states` strictly increase.
pub open spec fn heights_increase(first: TrustedState, states: Seq<TrustedState>) -> bool {
    forall|i: int|
        0 <= i < states.len() ==> chain_prev(first, states, i).header.height
            < #[trigger] states[i].header.height
}

/// In a chain of trust, heights strictly increase from the first state on.
pub proof fn lemma_trust_chain_heights_increase<
    P: VotingPowerCalculator,
    C: CommitValidator,
    H: HeaderHasher,
>(
    calculator: P,
    commit_validator: C,
    header_hasher: H,
    first: TrustedState,
    states: Seq<TrustedState>,
    threshold: TrustThreshold,
    trusting_period: Nanos,
    now: Time,
)
    requires
        is_trust_chain(
            calculator,
            commit_validator,
            header_hasher,
            first,
            states,
            threshold,
            trusting_period,
            now,
        ),
    ensures
        heights_increase(first, states),
        states.len() > 0 ==> first.header.height < states.last().header.height,
{
    assert forall|i: int| 0 <= i < states.len() implies chain_prev(first, states, i).header.height
        < #[trigger] states[i].header.height by {
        assert(accepts(
            calculator,
            commit_validator,
            header_hasher,
            chain_prev(first, states, i),
            states[i],
            threshold,
            trusting_period,
            now,
        ));
    }
    if states.len() > 0 {
        lemma_increasing_from_first(first, states, states.len() - 1);
    }
}

proof fn lemma_increasing_from_first(first: TrustedState, states: Seq<TrustedState>, i: int)
    requires
        heights_increase(first, states),
        0 <= i < states.len(),
    ensures
        first.header.height < states[i].header.height,
    decreases i,
{
    if i > 0 {
        lemma_increasing_from_first(first, states, i - 1);
        assert(chain_prev(first, states, i) == states[i - 1]);
    }
}

/// `⌈log₂ g⌉`, with `0` for `g <= 1`.
pub open spec fn ceil_log2(g: nat) -> nat
    decreases g,
{
    if g <= 1 {
        0
    } else {
        1 + ceil_log2(((g + 1) / 2) as nat)
    }
}

/// `2^n`.
pub open spec fn pow2(n: nat) -> nat
    decreases n,
{
    if n == 0 {
        1
    } else {
        2 * pow2((n - 1) as nat)
    }
}

/// The height pushed at `i` lies above `anchor` and at most halfway from
/// `anchor` to the height below it: the shape bisection gives the stack.
pub open spec fn halves(heights: Seq<Height>, anchor: Height, i: int) -> bool {
    &&& heights[i] > anchor
    &&& 2 * (heights[i] - anchor) <= heights[i - 1] - anchor
}

/// A stack of heights built by bisection.
pub open spec fn bisection_stack(heights: Seq<Height>, anchor: Height) -> bool {
    forall|i: int| 1 <= i < heights.len() ==> #[trigger] halves(heights, anchor, i)
}

/// The midpoint of `trusted` and `untrusted` (rounded down) halves the gap.
pub proof fn lemma_pivot_halves_gap(trusted: Height, untrusted: Height)
    requires
        trusted < untrusted,
        trusted + untrusted <= u64::MAX,
    ensures
        ({
            let pivot = (trusted + untrusted) / 2;
            &&& trusted <= pivot < untrusted
            &&& pivot - trusted == (untrusted - trusted) / 2
            &&& 2 * (pivot - trusted) <= untrusted - trusted
        }),
{
}

proof fn lemma_pow2_le_ceil_log2(m: nat, g: nat)
    requires
        pow2(m) <= g,
    ensures
        m <= ceil_log2(g),
    decreases m,
{
    if m > 0 {
        assert(pow2(m) == 2 * pow2((m - 1) as nat));
        assert(g >= 2) by {
            lemma_pow2_positive((m - 1) as nat);
        }
        lemma_pow2_le_ceil_log2((m - 1) as nat, ((g + 1) / 2) as nat);
    }
}

proof fn lemma_pow2_positive(n: nat)
    ensures
        pow2(n) >= 1,
    decreases n,
{
    if n > 0 {
        lemma_pow2_positive((n - 1) as nat);
    }
}

proof fn lemma_stack_scaled(heights: Seq<Height>, anchor: Height, i: int)
    requires
        bisection_stack(heights, anchor),
        1 <= i < heights.len(),
    ensures
        (heights[i] - anchor) * pow2(i as nat) <= heights[0] - anchor,
    decreases i,
{
    assert(halves(heights, anchor, i));
    if i == 1 {
        assert(pow2(0) == 1);
        assert(pow2(1) == 2 * pow2(0));
        assert((heights[1] - anchor) * 2 <= heights[0] - anchor);
    } else {
        lemma_stack_scaled(heights, anchor, i - 1);
        assert(pow2(i as nat) == 2 * pow2((i - 1) as nat));
        let x = heights[i] - anchor;
        let y = heights[i - 1] - anchor;
        let p = pow2((i - 1) as nat);
        assert(2 * x <= y);
        assert(x * (2 * p) == (2 * x) * p) by (nonlinear_arith);
        assert((2 * x) * p <= y * p) by (nonlinear_arith)
            requires
                2 * x <= y,
                p >= 0,
        ;
        assert(x * pow2(i as nat) == x * (2 * p));
        assert(y * p <= heights[0] - anchor);
        assert(x * pow2(i as nat) <= heights[0] - anchor);
    }
}

/// Bisection from `anchor` toward a target at most `gap` above it keeps at
/// most `⌈log₂ gap⌉ + 1` heights on the stack.
pub proof fn lemma_bisection_depth(heights: Seq<Height>, anchor: Height, gap: nat)
    requires
        heights.len() > 0,
        heights[0] - anchor <= gap,
        bisection_stack(heights, anchor),
    ensures
        heights.len() <= ceil_log2(gap) + 1,
{
    let k = heights.len() - 1;
    if k >= 1 {
        lemma_stack_scaled(heights, anchor, k);
        assert(halves(heights, anchor, k));
        let x = heights[k] - anchor;
        assert(x >= 1);
        assert(pow2(k as nat) <= x * pow2(k as nat)) by (nonlinear_arith)
            requires
                x >= 1,
        ;
        lemma_pow2_le_ceil_log2(k as nat, gap);
    }
}

} // verus!
