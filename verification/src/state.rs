use vstd::prelude::*;

use crate::ids::AccountId;

verus! {

/// The global configuration record, one per deployment. The engine is its
/// sole writer.
#[derive(Clone, Copy, Debug)]
pub struct GlobalState {
    /// The identity with administrative rights. Mutated only by
    /// `transfer_ownership`.
    pub owner: AccountId,
    /// Price per slot in minimal currency units. Set once at initialization;
    /// no operation mutates it afterwards.
    pub slot_token_price: u64,
    /// Basis-points-like fee value, kept at or below `MAX_FEE` by
    /// `update_fee`.
    pub fee: u32,
    /// Blocks purchases while set; toggled by the emergency controls.
    pub paused: bool,
    /// Read by the purchase gate; no operation toggles it.
    pub emergency_mode: bool,
    /// A staged fee awaiting its timelock.
    pub pending_fee: u32,
    /// The unix time at or after which the staged fee may be committed.
    pub fee_execution_time: i64,
}

/// One counter record per round, created explicitly by `create_round`.
#[derive(Clone, Copy, Debug)]
pub struct RoundState {
    /// Caller-supplied identifier; uniqueness is the key space's concern.
    pub round_index: u16,
    /// Slots sold over the round's whole life.
    pub total_slot_number: u32,
    /// Slots currently outstanding; advanced identically to the total.
    pub current_slot_number: u32,
}

/// One purchase record per user identity, created by the host on the user's
/// first purchase or claim and never deleted.
#[derive(Clone, Copy, Debug)]
pub struct UserInfo {
    /// The identity this record belongs to.
    pub address: AccountId,
    /// Cumulative slots bought across all rounds.
    pub total_slots_purchased: u32,
    /// Zero until a successful claim, then exactly one: claims are one-shot.
    pub claimed_slot_number: u32,
    /// The amount of the user's latest qualifying bulk purchase; overwritten,
    /// never accumulated.
    pub chad_last_slot_number: u32,
}

/// The notification returned on a successful purchase, meant for off-engine
/// observers such as indexers; the engine never reads it back.
#[derive(Clone, Copy, Debug)]
pub struct SlotPurchased {
    pub user: AccountId,
    pub round_index: u16,
    pub amount: u32,
    pub chad_mod: bool,
    pub user_total_slots: u32,
}

/// A round's two counters agree. Fresh rounds start this way and every
/// purchase advances both counters identically, so it is never broken.
pub open spec fn counters_consistent(r: RoundState) -> bool {
    r.total_slot_number == r.current_slot_number
}

/// The round counters after a purchase of `amount` slots. The additions
/// truncate; `buy_slot` itself only runs where they fit.
pub open spec fn spec_round_after_purchase(r: RoundState, amount: u32) -> RoundState {
    RoundState {
        round_index: r.round_index,
        total_slot_number: (r.total_slot_number + amount) as u32,
        current_slot_number: (r.current_slot_number + amount) as u32,
    }
}

/// The user record after a purchase of `amount` slots. A flagged purchase of
/// at least `CHAD_THRESHOLD` slots overwrites the bulk-purchase mark.
pub open spec fn spec_user_after_purchase(u: UserInfo, amount: u32, method: bool) -> UserInfo {
    UserInfo {
        address: u.address,
        total_slots_purchased: (u.total_slots_purchased + amount) as u32,
        claimed_slot_number: u.claimed_slot_number,
        chad_last_slot_number: if method && amount >= crate::engine::CHAD_THRESHOLD {
            amount
        } else {
            u.chad_last_slot_number
        },
    }
}

/// Whether a claim would succeed on this record.
pub open spec fn claim_allowed(u: UserInfo) -> bool {
    u.claimed_slot_number == 0
}

/// The user record after a successful claim.
pub open spec fn spec_user_after_claim(u: UserInfo) -> UserInfo {
    UserInfo { claimed_slot_number: 1, ..u }
}

} // verus!
