//! What the contract keeps between calls.
use crate::address::Address;
use vstd::prelude::*;

verus! {

/// Where an escrow stands.
#[derive(Clone, Copy, Debug, PartialEq, Eq, Structural)]
pub enum EscrowState {
    /// Agreed on, not paid for.
    Created,
    /// The buyer's tokens are held.
    Funded,
    /// The seller says that the goods or services were delivered.
    Delivered,
    /// The arbiter has to decide.
    Disputed,
    /// The tokens went to the seller.
    Completed,
    /// The tokens went back to the buyer.
    Refunded,
    /// Called off before it was funded.
    Cancelled,
}

/// A side of the trade.
#[derive(Clone, Copy, Debug, PartialEq, Eq, Structural)]
pub enum Party {
    Buyer,
    Seller,
}

/// The contract's instance storage: one field per key, `None` where nothing
/// is stored under it.
#[derive(Clone, Copy, Debug, PartialEq, Eq)]
pub struct Instance {
    pub buyer: Option<Address>,
    pub seller: Option<Address>,
    pub arbiter: Option<Address>,
    pub token_contract: Option<Address>,
    /// Tokens that the escrow is about, less what was released in part.
    pub amount: Option<i128>,
    /// The last ledger before the buyer may take the tokens back.
    pub deadline: Option<u32>,
    pub state: Option<EscrowState>,
    pub buyer_approved: Option<bool>,
    pub seller_delivered: Option<bool>,
    pub admin: Option<Address>,
    pub paused: Option<bool>,
}

/// The details of an escrow, as shown to clients.
#[derive(Clone, Copy, Debug, PartialEq, Eq)]
pub struct EscrowInfo {
    pub buyer: Address,
    pub seller: Address,
    pub arbiter: Address,
    pub token_contract: Address,
    pub amount: i128,
    pub deadline: u32,
    pub state: EscrowState,
}

impl Instance {
    /// Nothing is stored yet.
    pub open spec fn spec_empty() -> Instance {
        Instance {
            buyer: None,
            seller: None,
            arbiter: None,
            token_contract: None,
            amount: None,
            deadline: None,
            state: None,
            buyer_approved: None,
            seller_delivered: None,
            admin: None,
            paused: None,
        }
    }

    /// The storage of a contract that was never called.
    pub fn empty() -> (instance: Instance)
        ensures
            instance == Instance::spec_empty(),
    {
        Instance {
            buyer: None,
            seller: None,
            arbiter: None,
            token_contract: None,
            amount: None,
            deadline: None,
            state: None,
            buyer_approved: None,
            seller_delivered: None,
            admin: None,
            paused: None,
        }
    }

    /// The address stored for a side of the trade.
    pub open spec fn party(self, party: Party) -> Option<Address> {
        match party {
            Party::Buyer => self.buyer,
            Party::Seller => self.seller,
        }
    }

    /// The terms of an escrow are stored together: with the state come the
    /// three roles, the token, the deadline, the delivery marks and an amount
    /// that is not negative; without it none of them is there. An escrow in
    /// which delivery is claimed has it on record.
    pub open spec fn well_formed(self) -> bool {
        &&& self.buyer is Some <==> self.state is Some
        &&& self.seller is Some <==> self.state is Some
        &&& self.arbiter is Some <==> self.state is Some
        &&& self.token_contract is Some <==> self.state is Some
        &&& self.amount is Some <==> self.state is Some
        &&& self.deadline is Some <==> self.state is Some
        &&& self.buyer_approved is Some <==> self.state is Some
        &&& self.seller_delivered is Some <==> self.state is Some
        &&& self.amount is Some ==> self.amount->0 >= 0
        &&& self.state == Some(EscrowState::Delivered) ==> self.seller_delivered == Some(true)
    }

    /// The buyer's tokens are held and no dispute is open.
    pub open spec fn active(self) -> bool {
        self.state == Some(EscrowState::Funded) || self.state == Some(EscrowState::Delivered)
    }

    /// Nothing can happen to the escrow any more.
    pub open spec fn settled(self) -> bool {
        ||| self.state == Some(EscrowState::Completed)
        ||| self.state == Some(EscrowState::Refunded)
        ||| self.state == Some(EscrowState::Cancelled)
    }
}

} // verus!
