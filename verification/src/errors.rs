use vstd::prelude::*;

verus! {

/// The reasons an engine operation refuses to run. Every error is terminal
/// for the attempted operation: a failed precondition aborts before any
/// mutation, so no partial effect is ever observable.
#[derive(Clone, Copy, Debug, PartialEq, Eq, Structural)]
pub enum RoundError {
    /// The operation is blocked by the pause or emergency gate.
    ContractPaused,
    /// The user has already claimed their slot.
    AlreadyClaimed,
    /// The fee exceeds the maximum allowed.
    MaxFeeExceeded,
    /// The timelock has not expired yet.
    TimelockNotExpired,
    /// The vault does not match the address derived from the owner.
    VaultMismatch,
    /// The caller is not the permitted principal.
    Unauthorized,
}

impl RoundError {
    /// A human-readable description, surfaced verbatim to the caller.
    pub fn message(&self) -> (m: &'static str)
        ensures
            m@.len() > 0,
    {
        let m: &'static str = match self {
            RoundError::ContractPaused => "The contract is paused.",
            RoundError::AlreadyClaimed => "The user has already claimed their slot.",
            RoundError::MaxFeeExceeded => "Fee exceeds the maximum allowed.",
            RoundError::TimelockNotExpired => "The timelock has not expired yet.",
            RoundError::VaultMismatch => "The vault PDA does not match the expected address.",
            RoundError::Unauthorized => "The caller is not the permitted principal.",
        };
        proof {
            reveal_strlit("The contract is paused.");
            reveal_strlit("The user has already claimed their slot.");
            reveal_strlit("Fee exceeds the maximum allowed.");
            reveal_strlit("The timelock has not expired yet.");
            reveal_strlit("The vault PDA does not match the expected address.");
            reveal_strlit("The caller is not the permitted principal.");
        }
        m
    }
}

} // verus!
