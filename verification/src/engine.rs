use vstd::prelude::*;

use crate::errors::RoundError;
use crate::ids::{derive_vault_address, vault_address_of, AccountId};
use crate::state::{
    claim_allowed, counters_consistent, spec_round_after_purchase, spec_user_after_claim,
    spec_user_after_purchase, GlobalState, RoundState, SlotPurchased, UserInfo,
};

verus! {

/// The largest fee `update_fee` accepts.
pub const MAX_FEE: u32 = 1000;

/// The smallest flagged purchase that counts as a bulk ("chad") purchase.
pub const CHAD_THRESHOLD: u32 = 4;

/// Purchases are allowed only while neither pause gate is set.
pub open spec fn purchase_allowed(gs: GlobalState) -> bool {
    !gs.paused && !gs.emergency_mode
}

/// The provided vault is the address derived from the configured owner under
/// the given program.
pub open spec fn vault_matches(gs: GlobalState, vault: AccountId, program_id: AccountId) -> bool {
    vault_address_of(gs.owner@, program_id@) == Some(vault@)
}

/// The configuration with its fee replaced.
pub open spec fn spec_with_fee(gs: GlobalState, fee: u32) -> GlobalState {
    GlobalState { fee, ..gs }
}

/// The configuration with its pause flag replaced.
pub open spec fn spec_with_paused(gs: GlobalState, paused: bool) -> GlobalState {
    GlobalState { paused, ..gs }
}

/// The configuration with a staged fee change.
pub open spec fn spec_with_pending(gs: GlobalState, pending_fee: u32, fee_execution_time: i64) -> GlobalState {
    GlobalState { pending_fee, fee_execution_time, ..gs }
}

/// The configuration with its owner replaced.
pub open spec fn spec_with_owner(gs: GlobalState, owner: AccountId) -> GlobalState {
    GlobalState { owner, ..gs }
}

/// Creates the deployment's configuration. Succeeds exactly when the
/// provided vault is the address derived from the owner under the given
/// program; running it at most once per deployment is the host's concern.
pub fn initialize(
    slot_token_price: u64,
    fee: u32,
    owner: &AccountId,
    program_id: &AccountId,
    vault: &AccountId,
) -> (r: Result<GlobalState, RoundError>)
    ensures
        r is Ok <==> vault_address_of(owner@, program_id@) == Some(vault@),
        r matches Ok(gs) ==> gs == (GlobalState {
            owner: *owner,
            slot_token_price,
            fee,
            paused: false,
            emergency_mode: false,
            pending_fee: 0,
            fee_execution_time: 0,
        }),
        r matches Err(e) ==> e == RoundError::VaultMismatch,
{
    let derived = derive_vault_address(owner, program_id);
    match derived {
        Some(pda) => {
            if *vault == pda {
                Ok(
                    GlobalState {
                        owner: *owner,
                        slot_token_price,
                        fee,
                        paused: false,
                        emergency_mode: false,
                        pending_fee: 0,
                        fee_execution_time: 0,
                    },
                )
            } else {
                Err(RoundError::VaultMismatch)
            }
        },
        None => Err(RoundError::VaultMismatch),
    }
}

/// Opens a new round with both counters at zero. Owner-only. The engine does
/// not check that `round_index` is unused or sequential: keeping indices
/// unique is the key space's concern.
pub fn create_round(global_state: &GlobalState, caller: &AccountId, round_index: u16) -> (r:
    Result<RoundState, RoundError>)
    ensures
        r is Ok <==> caller@ == global_state.owner@,
        r matches Ok(round) ==> round == (RoundState {
            round_index,
            total_slot_number: 0,
            current_slot_number: 0,
        }),
        r matches Ok(round) ==> counters_consistent(round),
        r matches Err(e) ==> e == RoundError::Unauthorized,
{
    if *caller == global_state.owner {
        Ok(RoundState { round_index, total_slot_number: 0, current_slot_number: 0 })
    } else {
        Err(RoundError::Unauthorized)
    }
}

/// Sells `amount` slots of a round to `user`, moving the price from the
/// buyer's balance into the pooled vault and advancing the round and user
/// counters, all or nothing. Blocked while either pause gate is set; refused
/// when the vault is not the address derived from the configured owner. On
/// success it returns the purchase notification for off-engine observers.
///
/// The price is a fixed per-slot constant; the engine deliberately does not
/// bound the slot count of a round nor require `amount > 0`.
pub fn buy_slot(
    global_state: &GlobalState,
    round: &mut RoundState,
    user_info: &mut UserInfo,
    user_lamports: &mut u64,
    vault_lamports: &mut u64,
    user: &AccountId,
    vault: &AccountId,
    program_id: &AccountId,
    round_index: u16,
    amount: u32,
    method: bool,
) -> (r: Result<SlotPurchased, RoundError>)
    requires
        purchase_allowed(*global_state) ==> {
            &&& global_state.slot_token_price * amount <= u64::MAX
            &&& global_state.slot_token_price * amount <= *old(user_lamports)
            &&& *old(vault_lamports) + global_state.slot_token_price * amount <= u64::MAX
            &&& old(user_info).total_slots_purchased + amount <= u32::MAX
            &&& old(round).total_slot_number + amount <= u32::MAX
            &&& old(round).current_slot_number + amount <= u32::MAX
        },
    ensures
        r is Ok <==> purchase_allowed(*global_state) && vault_matches(
            *global_state,
            *vault,
            *program_id,
        ),
        !purchase_allowed(*global_state) ==> r == Err::<SlotPurchased, RoundError>(
            RoundError::ContractPaused,
        ),
        purchase_allowed(*global_state) && !vault_matches(*global_state, *vault, *program_id)
            ==> r == Err::<SlotPurchased, RoundError>(RoundError::VaultMismatch),
        // a failed purchase leaves every record and balance untouched
        r is Err ==> {
            &&& *final(round) == *old(round)
            &&& *final(user_info) == *old(user_info)
            &&& *final(user_lamports) == *old(user_lamports)
            &&& *final(vault_lamports) == *old(vault_lamports)
        },
        // a successful purchase moves the price and advances the counters
        r is Ok ==> {
            &&& *final(user_lamports) == *old(user_lamports) - global_state.slot_token_price
                * amount
            &&& *final(vault_lamports) == *old(vault_lamports) + global_state.slot_token_price
                * amount
            &&& *final(round) == spec_round_after_purchase(*old(round), amount)
            &&& *final(user_info) == spec_user_after_purchase(*old(user_info), amount, method)
        },
        r matches Ok(ev) ==> ev == (SlotPurchased {
            user: *user,
            round_index,
            amount,
            chad_mod: method,
            user_total_slots: final(user_info).total_slots_purchased,
        }),
        // funds are conserved: what leaves the buyer enters the vault
        *final(user_lamports) + *final(vault_lamports) == *old(user_lamports) + *old(
            vault_lamports,
        ),
        counters_consistent(*old(round)) ==> counters_consistent(*final(round)),
{
    if global_state.paused || global_state.emergency_mode {
        return Err(RoundError::ContractPaused);
    }
    let price: u64 = global_state.slot_token_price * (amount as u64);

    let vault_ok: bool = match derive_vault_address(&global_state.owner, program_id) {
        Some(pda) => *vault == pda,
        None => false,
    };
    if !vault_ok {
        return Err(RoundError::VaultMismatch);
    }

    *user_lamports = *user_lamports - price;
    *vault_lamports = *vault_lamports + price;

    if method && amount >= CHAD_THRESHOLD {
        user_info.chad_last_slot_number = amount;
    }
    user_info.total_slots_purchased = user_info.total_slots_purchased + amount;
    round.current_slot_number = round.current_slot_number + amount;
    round.total_slot_number = round.total_slot_number + amount;

    Ok(
        SlotPurchased {
            user: *user,
            round_index,
            amount,
            chad_mod: method,
            user_total_slots: user_info.total_slots_purchased,
        },
    )
}

/// Marks the caller's one-shot claim. Fails once a claim has succeeded
/// before; the engine deliberately does not require any prior purchase.
pub fn claim_slot(user_info: &mut UserInfo) -> (r: Result<(), RoundError>)
    ensures
        r is Ok <==> claim_allowed(*old(user_info)),
        r matches Err(e) ==> e == RoundError::AlreadyClaimed && *final(user_info) == *old(
            user_info,
        ),
        r is Ok ==> *final(user_info) == spec_user_after_claim(*old(user_info)),
{
    if user_info.claimed_slot_number > 0 {
        return Err(RoundError::AlreadyClaimed);
    }
    user_info.claimed_slot_number = user_info.claimed_slot_number + 1;
    Ok(())
}

/// Sets the fee immediately. Owner-only; succeeds exactly when the new fee
/// is at most `MAX_FEE`.
pub fn update_fee(global_state: &mut GlobalState, caller: &AccountId, new_fee: u32) -> (r: Result<
    (),
    RoundError,
>)
    ensures
        r is Ok <==> caller@ == old(global_state).owner@ && new_fee <= MAX_FEE,
        caller@ != old(global_state).owner@ ==> r == Err::<(), RoundError>(
            RoundError::Unauthorized,
        ),
        caller@ == old(global_state).owner@ && new_fee > MAX_FEE ==> r == Err::<(), RoundError>(
            RoundError::MaxFeeExceeded,
        ),
        r is Err ==> *final(global_state) == *old(global_state),
        r is Ok ==> *final(global_state) == spec_with_fee(*old(global_state), new_fee),
{
    if !(*caller == global_state.owner) {
        return Err(RoundError::Unauthorized);
    }
    if new_fee > MAX_FEE {
        return Err(RoundError::MaxFeeExceeded);
    }
    global_state.fee = new_fee;
    Ok(())
}

/// Blocks purchases until `emergency_unpause`. Owner-only.
pub fn emergency_pause(global_state: &mut GlobalState, caller: &AccountId) -> (r: Result<
    (),
    RoundError,
>)
    ensures
        r is Ok <==> caller@ == old(global_state).owner@,
        r matches Err(e) ==> e == RoundError::Unauthorized && *final(global_state) == *old(
            global_state,
        ),
        r is Ok ==> *final(global_state) == spec_with_paused(*old(global_state), true),
{
    if !(*caller == global_state.owner) {
        return Err(RoundError::Unauthorized);
    }
    global_state.paused = true;
    Ok(())
}

/// Lifts the pause set by `emergency_pause`. Owner-only.
pub fn emergency_unpause(global_state: &mut GlobalState, caller: &AccountId) -> (r: Result<
    (),
    RoundError,
>)
    ensures
        r is Ok <==> caller@ == old(global_state).owner@,
        r matches Err(e) ==> e == RoundError::Unauthorized && *final(global_state) == *old(
            global_state,
        ),
        r is Ok ==> *final(global_state) == spec_with_paused(*old(global_state), false),
{
    if !(*caller == global_state.owner) {
        return Err(RoundError::Unauthorized);
    }
    global_state.paused = false;
    Ok(())
}

/// Sweeps the vault's whole balance to the owner. Owner-only; deliberately
/// not gated on `emergency_mode`, which no operation consults beyond the
/// purchase gate.
pub fn emergency_withdraw_all(
    global_state: &GlobalState,
    caller: &AccountId,
    vault_lamports: &mut u64,
    owner_lamports: &mut u64,
) -> (r: Result<(), RoundError>)
    requires
        caller@ == global_state.owner@ ==> *old(owner_lamports) + *old(vault_lamports)
            <= u64::MAX,
    ensures
        r is Ok <==> caller@ == global_state.owner@,
        r matches Err(e) ==> {
            &&& e == RoundError::Unauthorized
            &&& *final(vault_lamports) == *old(vault_lamports)
            &&& *final(owner_lamports) == *old(owner_lamports)
        },
        r is Ok ==> *final(vault_lamports) == 0 && *final(owner_lamports) == *old(owner_lamports)
            + *old(vault_lamports),
        // funds are conserved: what leaves the vault reaches the owner
        *final(owner_lamports) + *final(vault_lamports) == *old(owner_lamports) + *old(
            vault_lamports,
        ),
{
    if !(*caller == global_state.owner) {
        return Err(RoundError::Unauthorized);
    }
    let amount: u64 = *vault_lamports;
    *vault_lamports = 0;
    *owner_lamports = *owner_lamports + amount;
    Ok(())
}

/// Stages a fee change behind a timelock. Owner-only. Deliberately validates
/// neither the staged fee against `MAX_FEE` nor that the execution time lies
/// in the future: only `update_fee` bounds the fee it sets.
pub fn update_fee_with_timelock(
    global_state: &mut GlobalState,
    caller: &AccountId,
    new_fee: u32,
    execution_time: i64,
) -> (r: Result<(), RoundError>)
    ensures
        r is Ok <==> caller@ == old(global_state).owner@,
        r matches Err(e) ==> e == RoundError::Unauthorized && *final(global_state) == *old(
            global_state,
        ),
        r is Ok ==> *final(global_state) == spec_with_pending(
            *old(global_state),
            new_fee,
            execution_time,
        ),
{
    if !(*caller == global_state.owner) {
        return Err(RoundError::Unauthorized);
    }
    global_state.pending_fee = new_fee;
    global_state.fee_execution_time = execution_time;
    Ok(())
}

/// Commits the staged fee once the timelock has expired. Callable by anyone;
/// `now` is the current unix time, read by the host from its clock.
pub fn execute_fee_change(global_state: &mut GlobalState, now: i64) -> (r: Result<(), RoundError>)
    ensures
        r is Ok <==> now >= old(global_state).fee_execution_time,
        r matches Err(e) ==> e == RoundError::TimelockNotExpired && *final(global_state) == *old(
            global_state,
        ),
        r is Ok ==> *final(global_state) == spec_with_fee(
            *old(global_state),
            old(global_state).pending_fee,
        ),
{
    if now < global_state.fee_execution_time {
        return Err(RoundError::TimelockNotExpired);
    }
    global_state.fee = global_state.pending_fee;
    Ok(())
}

/// Replaces the owner unconditionally. Owner-only. The vault address is
/// derived from the owner, so after a transfer the old vault no longer
/// matches: purchases check against the address derived from the new owner.
pub fn transfer_ownership(
    global_state: &mut GlobalState,
    caller: &AccountId,
    new_owner: &AccountId,
) -> (r: Result<(), RoundError>)
    ensures
        r is Ok <==> caller@ == old(global_state).owner@,
        r matches Err(e) ==> e == RoundError::Unauthorized && *final(global_state) == *old(
            global_state,
        ),
        r is Ok ==> *final(global_state) == spec_with_owner(*old(global_state), *new_owner),
{
    if !(*caller == global_state.owner) {
        return Err(RoundError::Unauthorized);
    }
    global_state.owner = *new_owner;
    Ok(())
}

} // verus!
