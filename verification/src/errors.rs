//! Why the contract refuses a call.
use vstd::prelude::*;

verus! {

/// The reasons for which a call is refused.
#[derive(Clone, Copy, Debug, PartialEq, Eq, Structural)]
pub enum EscrowError {
    /// The escrow is not in a state that allows the call.
    InvalidState,
    /// The deadline is too close to the current ledger, or behind it.
    DeadlinePassed,
    /// A refund is not due: the deadline has not passed, or the escrow is neither
    /// funded nor delivered.
    DeadlineNotReached,
    /// The escrow exists already.
    AlreadyInitialized,
    /// Something that the call reads was never stored.
    NotInitialized,
    /// More was asked for than is held.
    InsufficientFunds,
    /// The amount is not positive.
    InvalidAmount,
    /// Buyer, seller and arbiter are not three different addresses.
    InvalidParties,
}

impl EscrowError {
    /// The number under which clients of the contract see this error.
    pub open spec fn spec_code(self) -> u32 {
        match self {
            EscrowError::InvalidState => 2,
            EscrowError::DeadlinePassed => 3,
            EscrowError::DeadlineNotReached => 4,
            EscrowError::AlreadyInitialized => 5,
            EscrowError::NotInitialized => 6,
            EscrowError::InsufficientFunds => 7,
            EscrowError::InvalidAmount => 8,
            EscrowError::InvalidParties => 9,
        }
    }

    /// Returns the number under which clients of the contract see this error.
    pub fn code(&self) -> (code: u32)
        ensures
            code == self.spec_code(),
    {
        match self {
            EscrowError::InvalidState => 2,
            EscrowError::DeadlinePassed => 3,
            EscrowError::DeadlineNotReached => 4,
            EscrowError::AlreadyInitialized => 5,
            EscrowError::NotInitialized => 6,
            EscrowError::InsufficientFunds => 7,
            EscrowError::InvalidAmount => 8,
            EscrowError::InvalidParties => 9,
        }
    }
}

} // verus!
