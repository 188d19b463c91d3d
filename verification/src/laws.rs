use vstd::prelude::*;

use crate::state::{
    claim_allowed, counters_consistent, spec_round_after_purchase, spec_user_after_claim,
    spec_user_after_purchase, RoundState, UserInfo,
};

verus! {

/// The round counters after a whole sequence of purchases, applied oldest
/// first. `buy_slot` ensures that each successful purchase takes a round
/// exactly one step along this function.
pub open spec fn spec_round_after_purchases(r: RoundState, amounts: Seq<u32>) -> RoundState
    decreases amounts.len(),
{
    if amounts.len() == 0 {
        r
    } else {
        spec_round_after_purchases(spec_round_after_purchase(r, amounts[0]), amounts.drop_first())
    }
}

/// The sum of a sequence of purchase amounts.
pub open spec fn spec_amount_sum(amounts: Seq<u32>) -> int
    decreases amounts.len(),
{
    if amounts.len() == 0 {
        0
    } else {
        amounts[0] + spec_amount_sum(amounts.drop_first())
    }
}

/// Law: a round whose two counters agree keeps them agreeing through every
/// sequence of purchases, of any length and any amounts — the engine
/// advances both counters identically on every sale.
pub proof fn lemma_counters_stay_equal(r: RoundState, amounts: Seq<u32>)
    requires
        counters_consistent(r),
    ensures
        counters_consistent(spec_round_after_purchases(r, amounts)),
    decreases amounts.len(),
{
    if amounts.len() > 0 {
        lemma_counters_stay_equal(spec_round_after_purchase(r, amounts[0]), amounts.drop_first());
    }
}

/// A sequence of purchase amounts sums to at least its first element and
/// never to less than zero.
proof fn lemma_amount_sum_nonneg(amounts: Seq<u32>)
    ensures
        spec_amount_sum(amounts) >= 0,
    decreases amounts.len(),
{
    if amounts.len() > 0 {
        lemma_amount_sum_nonneg(amounts.drop_first());
    }
}

/// Law: no update is lost. Serializing any sequence of purchases against one
/// round — in particular `n` concurrent unit purchases by distinct users,
/// run one at a time in some order — grows the total slot counter by exactly
/// the sum of the amounts, as long as that sum stays within the counter's
/// range.
pub proof fn lemma_purchases_accumulate(r: RoundState, amounts: Seq<u32>)
    requires
        r.total_slot_number + spec_amount_sum(amounts) <= u32::MAX,
        counters_consistent(r),
    ensures
        spec_round_after_purchases(r, amounts).total_slot_number == r.total_slot_number
            + spec_amount_sum(amounts),
        spec_round_after_purchases(r, amounts).current_slot_number == r.current_slot_number
            + spec_amount_sum(amounts),
    decreases amounts.len(),
{
    if amounts.len() > 0 {
        lemma_amount_sum_nonneg(amounts.drop_first());
        lemma_purchases_accumulate(spec_round_after_purchase(r, amounts[0]), amounts.drop_first());
    }
}

/// Law: `n` serialized unit purchases against a fresh round leave its total
/// slot counter at exactly `n`.
pub proof fn lemma_unit_purchases_count(r: RoundState, amounts: Seq<u32>)
    requires
        r.total_slot_number == 0,
        counters_consistent(r),
        amounts.len() <= u32::MAX,
        forall|i: int| 0 <= i < amounts.len() ==> amounts[i] == 1,
    ensures
        spec_round_after_purchases(r, amounts).total_slot_number == amounts.len(),
    decreases amounts.len(),
{
    lemma_unit_sum(amounts);
    lemma_purchases_accumulate(r, amounts);
}

/// A sequence of ones sums to its length.
proof fn lemma_unit_sum(amounts: Seq<u32>)
    requires
        forall|i: int| 0 <= i < amounts.len() ==> amounts[i] == 1,
    ensures
        spec_amount_sum(amounts) == amounts.len(),
    decreases amounts.len(),
{
    if amounts.len() > 0 {
        lemma_unit_sum(amounts.drop_first());
    }
}

/// The user record after one claim attempt: changed only when the claim
/// succeeds. `claim_slot` ensures that each call takes the record exactly
/// one step along this function, succeeding exactly when `claim_allowed`
/// held before.
pub open spec fn spec_user_after_claim_attempt(u: UserInfo) -> UserInfo {
    if claim_allowed(u) {
        spec_user_after_claim(u)
    } else {
        u
    }
}

/// How many of `n` consecutive claim attempts on this record succeed.
pub open spec fn spec_claim_successes(u: UserInfo, n: nat) -> nat
    decreases n,
{
    if n == 0 {
        0
    } else {
        (if claim_allowed(u) {
            1nat
        } else {
            0nat
        }) + spec_claim_successes(spec_user_after_claim_attempt(u), (n - 1) as nat)
    }
}

/// Once a claim is barred it stays barred: no further attempt succeeds.
proof fn lemma_no_claims_once_barred(u: UserInfo, n: nat)
    requires
        !claim_allowed(u),
    ensures
        spec_claim_successes(u, n) == 0,
    decreases n,
{
    if n > 0 {
        lemma_no_claims_once_barred(spec_user_after_claim_attempt(u), (n - 1) as nat);
    }
}

/// Law: claims are one-shot. In any run of claim attempts against one user
/// record, at most one succeeds; every attempt after a success fails.
pub proof fn lemma_at_most_one_claim(u: UserInfo, n: nat)
    ensures
        spec_claim_successes(u, n) <= 1,
    decreases n,
{
    if n > 0 {
        if claim_allowed(u) {
            lemma_no_claims_once_barred(spec_user_after_claim(u), (n - 1) as nat);
        } else {
            lemma_at_most_one_claim(spec_user_after_claim_attempt(u), (n - 1) as nat);
        }
    }
}

/// Law: buying slots neither grants nor revokes a claim — a purchase leaves
/// the claim state of the user record exactly as it found it.
pub proof fn lemma_purchase_preserves_claim_state(u: UserInfo, amount: u32, method: bool)
    ensures
        claim_allowed(spec_user_after_purchase(u, amount, method)) == claim_allowed(u),
        spec_user_after_purchase(u, amount, method).claimed_slot_number == u.claimed_slot_number,
{
}

} // verus!
