use vstd::prelude::*;

verus! {

/// Why an operation of the registry was rejected.
#[derive(Clone, Copy, Debug, PartialEq, Eq, Structural)]
pub enum ErrorCode {
    /// The caller's balance is below the rent-exempt minimum of the new slot.
    NotEnoughFunds,
    /// The singleton index slot already exists.
    AlreadyInitialized,
    /// The singleton index slot has not been created yet.
    NotInitialized,
    /// The caller's review slot is already occupied.
    SlotOccupied,
    /// The caller did not sign, or is not the configured authority.
    Unauthorized,
    /// The token ledger rejected the creation of the reward account or the transfer.
    TransferFailed,
}

} // verus!
