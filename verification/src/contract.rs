//! The entry points of the contract.
use crate::address::Address;
use crate::admin::require_admin;
use crate::env::{Effect, Env, Event};
use crate::errors::EscrowError;
use crate::model::{
    LEDGER_BUMP_AMOUNT, LEDGER_LIFETIME_THRESHOLD, MIN_DEADLINE_BUFFER,
};
use crate::storage::{EscrowInfo, EscrowState, Party};
use vstd::prelude::*;

verus! {

/// Keeps the instance storage alive.
fn bump_instance(env: &mut Env)
    ensures
        final(env)@ == old(env)@.asking(seq![crate::model::kept_alive()]),
{
    env.ask(
        Effect::ExtendTtl { threshold: LEDGER_LIFETIME_THRESHOLD, extend_to: LEDGER_BUMP_AMOUNT },
    );
}

/// The escrow contract.
pub struct EscrowContract;

impl EscrowContract {
    /// Initialize a new escrow. Must be called exactly once.
    ///
    /// The amount must be positive, the three roles must be taken by three
    /// addresses, and the deadline must leave the parties some ledgers.
    pub fn initialize(
        env: &mut Env,
        buyer: Address,
        seller: Address,
        arbiter: Address,
        token_contract: Address,
        amount: i128,
        deadline_ledger: u32,
    ) -> (r: Result<(), EscrowError>)
        requires
            crate::model::initialize_ready(old(env)@, buyer, seller, arbiter, amount),
        ensures
            crate::model::initialize_step(
                old(env)@,
                final(env)@,
                r,
                buyer,
                seller,
                arbiter,
                token_contract,
                amount,
                deadline_ledger,
            ),
    {
        if env.instance.state.is_some() {
            return Err(EscrowError::AlreadyInitialized);
        }
        if amount <= 0 {
            return Err(EscrowError::InvalidAmount);
        }
        if buyer == seller || buyer == arbiter || seller == arbiter {
            return Err(EscrowError::InvalidParties);
        }
        if deadline_ledger < env.sequence + MIN_DEADLINE_BUFFER {
            return Err(EscrowError::DeadlinePassed);
        }
        env.ask(Effect::ProbeToken { token: token_contract });

        env.instance.buyer = Some(buyer);
        env.instance.seller = Some(seller);
        env.instance.arbiter = Some(arbiter);
        env.instance.token_contract = Some(token_contract);
        env.instance.amount = Some(amount);
        env.instance.deadline = Some(deadline_ledger);
        env.instance.state = Some(EscrowState::Created);
        env.instance.buyer_approved = Some(false);
        env.instance.seller_delivered = Some(false);
        bump_instance(env);

        env.ask(Effect::Publish { event: Event::EscrowCreated { buyer, seller, amount } });
        assert(env@.effects =~= old(env)@.effects + seq![
            Effect::ProbeToken { token: token_contract },
            crate::model::kept_alive(),
            Effect::Publish { event: Event::EscrowCreated { buyer, seller, amount } },
        ]);
        Ok(())
    }

    /// Buyer funds the escrow. Escrow must be in `Created` state.
    pub fn fund(env: &mut Env) -> (r: Result<(), EscrowError>)
        requires
            crate::model::fund_ready(old(env)@),
        ensures
            crate::model::fund_step(old(env)@, final(env)@, r),
    {
        let buyer = match env.instance.buyer {
            Some(buyer) => buyer,
            None => {
                assert(env@ =~= old(env)@.asking(seq![]));
                return Err(EscrowError::NotInitialized);
            },
        };
        env.ask(Effect::RequireAuth { address: buyer });

        let state = match env.instance.state {
            Some(state) => state,
            None => return Err(EscrowError::NotInitialized),
        };
        if state != EscrowState::Created {
            return Err(EscrowError::InvalidState);
        }
        let token = env.instance.token_contract.unwrap();
        let amount: i128 = env.instance.amount.unwrap();
        let contract = env.contract;
        env.ask(Effect::Transfer { token, from: buyer, to: contract, amount });

        env.instance.state = Some(EscrowState::Funded);
        bump_instance(env);

        env.ask(Effect::Publish { event: Event::EscrowFunded { buyer, amount } });
        assert(env@.effects =~= old(env)@.effects + seq![
            Effect::RequireAuth { address: buyer },
            Effect::Transfer { token, from: buyer, to: contract, amount },
            crate::model::kept_alive(),
            Effect::Publish { event: Event::EscrowFunded { buyer, amount } },
        ]);
        Ok(())
    }

    /// Seller marks goods/services as delivered. Escrow must be in `Funded` state.
    pub fn mark_delivered(env: &mut Env) -> (r: Result<(), EscrowError>)
        ensures
            crate::model::mark_delivered_step(old(env)@, final(env)@, r),
    {
        let seller = match env.instance.seller {
            Some(seller) => seller,
            None => {
                assert(env@ =~= old(env)@.asking(seq![]));
                return Err(EscrowError::NotInitialized);
            },
        };
        env.ask(Effect::RequireAuth { address: seller });

        let state = match env.instance.state {
            Some(state) => state,
            None => return Err(EscrowError::NotInitialized),
        };
        if state != EscrowState::Funded {
            return Err(EscrowError::InvalidState);
        }
        env.instance.seller_delivered = Some(true);
        env.instance.state = Some(EscrowState::Delivered);
        bump_instance(env);

        env.ask(Effect::Publish { event: Event::DeliveryMarked { seller } });
        assert(env@.effects =~= old(env)@.effects + seq![
            Effect::RequireAuth { address: seller },
            crate::model::kept_alive(),
            Effect::Publish { event: Event::DeliveryMarked { seller } },
        ]);
        Ok(())
    }

    /// Buyer approves delivery, releasing funds to the seller. Escrow must be in
    /// `Delivered` state.
    pub fn approve_delivery(env: &mut Env) -> (r: Result<(), EscrowError>)
        requires
            crate::model::approve_delivery_ready(old(env)@),
        ensures
            crate::model::approve_delivery_step(old(env)@, final(env)@, r),
    {
        let buyer = match env.instance.buyer {
            Some(buyer) => buyer,
            None => {
                assert(env@ =~= old(env)@.asking(seq![]));
                return Err(EscrowError::NotInitialized);
            },
        };
        env.ask(Effect::RequireAuth { address: buyer });

        let state = match env.instance.state {
            Some(state) => state,
            None => return Err(EscrowError::NotInitialized),
        };
        if state != EscrowState::Delivered {
            return Err(EscrowError::InvalidState);
        }
        Self::release_to_seller(env)
    }

    /// Buyer requests a refund after the deadline has passed. Escrow must be in
    /// `Funded` or `Delivered` state.
    pub fn request_refund(env: &mut Env) -> (r: Result<(), EscrowError>)
        requires
            crate::model::request_refund_ready(old(env)@),
        ensures
            crate::model::request_refund_step(old(env)@, final(env)@, r),
    {
        let buyer = match env.instance.buyer {
            Some(buyer) => buyer,
            None => {
                assert(env@ =~= old(env)@.asking(seq![]));
                return Err(EscrowError::NotInitialized);
            },
        };
        env.ask(Effect::RequireAuth { address: buyer });

        let state = match env.instance.state {
            Some(state) => state,
            None => return Err(EscrowError::NotInitialized),
        };
        let deadline: u32 = match env.instance.deadline {
            Some(deadline) => deadline,
            None => return Err(EscrowError::NotInitialized),
        };
        let can_refund = matches!(state, EscrowState::Funded | EscrowState::Delivered)
            && env.sequence > deadline;
        if !can_refund {
            return Err(EscrowError::DeadlineNotReached);
        }
        Self::refund_to_buyer(env)
    }

    /// Buyer or seller raises a dispute. Escrow must be in `Funded` or `Delivered`
    /// state.
    pub fn raise_dispute(env: &mut Env, by: Party) -> (r: Result<(), EscrowError>)
        requires
            crate::model::raise_dispute_ready(old(env)@, by),
        ensures
            crate::model::raise_dispute_step(old(env)@, final(env)@, r, by),
    {
        let state = match env.instance.state {
            Some(state) => state,
            None => return Err(EscrowError::NotInitialized),
        };
        if !matches!(state, EscrowState::Funded | EscrowState::Delivered) {
            return Err(EscrowError::InvalidState);
        }
        let raiser = match by {
            Party::Buyer => env.instance.buyer.unwrap(),
            Party::Seller => env.instance.seller.unwrap(),
        };
        env.ask(Effect::RequireAuth { address: raiser });

        env.instance.state = Some(EscrowState::Disputed);
        bump_instance(env);

        env.ask(Effect::Publish { event: Event::DisputeRaised { raiser } });
        assert(env@.effects =~= old(env)@.effects + seq![
            Effect::RequireAuth { address: raiser },
            crate::model::kept_alive(),
            Effect::Publish { event: Event::DisputeRaised { raiser } },
        ]);
        Ok(())
    }

    /// Arbiter resolves a dispute. Escrow must be in `Disputed` state.
    pub fn resolve_dispute(env: &mut Env, release_to_seller: bool) -> (r: Result<
        (),
        EscrowError,
    >)
        requires
            crate::model::resolve_dispute_ready(old(env)@, release_to_seller),
        ensures
            crate::model::resolve_dispute_step(old(env)@, final(env)@, r, release_to_seller),
    {
        let arbiter = match env.instance.arbiter {
            Some(arbiter) => arbiter,
            None => {
                assert(env@ =~= old(env)@.asking(seq![]));
                return Err(EscrowError::NotInitialized);
            },
        };
        env.ask(Effect::RequireAuth { address: arbiter });

        let state = match env.instance.state {
            Some(state) => state,
            None => return Err(EscrowError::NotInitialized),
        };
        if state != EscrowState::Disputed {
            return Err(EscrowError::InvalidState);
        }
        if release_to_seller {
            Self::release_to_seller(env)
        } else {
            Self::refund_to_buyer(env)
        }
    }

    /// Buyer partially releases `amount` tokens to the seller. Escrow must be in
    /// `Funded` or `Delivered` state.
    pub fn release_partial(env: &mut Env, amount: i128) -> (r: Result<(), EscrowError>)
        requires
            crate::model::release_partial_ready(old(env)@, amount),
        ensures
            crate::model::release_partial_step(old(env)@, final(env)@, r, amount),
    {
        let buyer = match env.instance.buyer {
            Some(buyer) => buyer,
            None => {
                assert(env@ =~= old(env)@.asking(seq![]));
                return Err(EscrowError::NotInitialized);
            },
        };
        env.ask(Effect::RequireAuth { address: buyer });

        let state = match env.instance.state {
            Some(state) => state,
            None => return Err(EscrowError::NotInitialized),
        };
        if !matches!(state, EscrowState::Funded | EscrowState::Delivered) {
            return Err(EscrowError::InvalidState);
        }
        let stored_amount: i128 = env.instance.amount.unwrap();
        if amount > stored_amount {
            return Err(EscrowError::InsufficientFunds);
        }
        let seller = env.instance.seller.unwrap();
        let token = env.instance.token_contract.unwrap();
        let contract = env.contract;
        env.ask(Effect::Transfer { token, from: contract, to: seller, amount });

        env.instance.amount = Some(stored_amount - amount);
        bump_instance(env);

        env.ask(Effect::Publish { event: Event::PartialReleased { seller, amount } });
        assert(env@.effects =~= old(env)@.effects + seq![
            Effect::RequireAuth { address: buyer },
            Effect::Transfer { token, from: contract, to: seller, amount },
            crate::model::kept_alive(),
            Effect::Publish { event: Event::PartialReleased { seller, amount } },
        ]);
        Ok(())
    }

    /// Buyer cancels an unfunded escrow (`Created` state only).
    pub fn cancel(env: &mut Env) -> (r: Result<(), EscrowError>)
        ensures
            crate::model::cancel_step(old(env)@, final(env)@, r),
    {
        let buyer = match env.instance.buyer {
            Some(buyer) => buyer,
            None => {
                assert(env@ =~= old(env)@.asking(seq![]));
                return Err(EscrowError::NotInitialized);
            },
        };
        env.ask(Effect::RequireAuth { address: buyer });

        let state = match env.instance.state {
            Some(state) => state,
            None => return Err(EscrowError::NotInitialized),
        };
        if state != EscrowState::Created {
            return Err(EscrowError::InvalidState);
        }
        env.instance.state = Some(EscrowState::Cancelled);
        bump_instance(env);
        assert(env@.effects =~= old(env)@.effects + seq![
            Effect::RequireAuth { address: buyer },
            crate::model::kept_alive(),
        ]);
        Ok(())
    }

    /// Extend storage TTL. Anyone can call this to keep an active escrow alive.
    pub fn bump(env: &mut Env) -> (r: Result<(), EscrowError>)
        ensures
            crate::model::bump_step(old(env)@, final(env)@, r),
    {
        if env.instance.state.is_none() {
            return Err(EscrowError::NotInitialized);
        }
        bump_instance(env);
        Ok(())
    }

    /// Pause the contract. Admin only.
    pub fn pause(env: &mut Env) -> (r: Result<(), EscrowError>)
        ensures
            crate::model::pause_step(old(env)@, final(env)@, r),
    {
        let admin = match require_admin(env) {
            Ok(admin) => admin,
            Err(error) => return Err(error),
        };
        env.ask(Effect::RequireAuth { address: admin });
        env.instance.paused = Some(true);
        bump_instance(env);
        assert(env@.effects =~= old(env)@.effects + seq![
            Effect::RequireAuth { address: admin },
            crate::model::kept_alive(),
        ]);
        Ok(())
    }

    /// Upgrade the contract WASM. Admin only.
    pub fn upgrade(env: &mut Env, new_wasm_hash: [u8; 32]) -> (r: Result<(), EscrowError>)
        ensures
            crate::model::upgrade_step(old(env)@, final(env)@, r, new_wasm_hash),
    {
        let admin = match require_admin(env) {
            Ok(admin) => admin,
            Err(error) => return Err(error),
        };
        env.ask(Effect::RequireAuth { address: admin });
        env.ask(Effect::UpdateWasm { hash: new_wasm_hash });
        assert(env@.effects =~= old(env)@.effects + seq![
            Effect::RequireAuth { address: admin },
            Effect::UpdateWasm { hash: new_wasm_hash },
        ]);
        Ok(())
    }

    /// Return full escrow details as an [`EscrowInfo`] struct.
    pub fn get_escrow_info(env: &Env) -> (info: EscrowInfo)
        requires
            crate::model::info_ready(env@.instance),
        ensures
            info == crate::model::info(env@.instance),
    {
        EscrowInfo {
            buyer: env.instance.buyer.unwrap(),
            seller: env.instance.seller.unwrap(),
            arbiter: env.instance.arbiter.unwrap(),
            token_contract: env.instance.token_contract.unwrap(),
            amount: env.instance.amount.unwrap(),
            deadline: env.instance.deadline.unwrap(),
            state: env.instance.state.unwrap(),
        }
    }

    /// Return the current [`EscrowState`], or `None` if not initialized.
    pub fn get_state(env: &Env) -> (state: Option<EscrowState>)
        ensures
            state == env@.instance.state,
    {
        env.instance.state
    }

    /// Return `true` if the deadline ledger has been passed.
    pub fn is_deadline_passed(env: &Env) -> (passed: bool)
        ensures
            passed == crate::model::past_deadline(env@),
    {
        let deadline: u32 = match env.instance.deadline {
            Some(deadline) => deadline,
            None => 0,
        };
        env.sequence > deadline
    }

    /// Pays everything that is held to the seller.
    fn release_to_seller(env: &mut Env) -> (r: Result<(), EscrowError>)
        requires
            crate::model::payable(old(env)@.instance, old(env)@.instance.seller),
        ensures
            r is Ok,
            final(env)@ == crate::model::released(old(env)@),
    {
        let seller = env.instance.seller.unwrap();
        let token = env.instance.token_contract.unwrap();
        let amount: i128 = env.instance.amount.unwrap();
        let contract = env.contract;
        env.ask(Effect::Transfer { token, from: contract, to: seller, amount });

        env.instance.state = Some(EscrowState::Completed);
        bump_instance(env);

        env.ask(Effect::Publish { event: Event::FundsReleased { seller, amount } });
        assert(env@ =~= crate::model::released(old(env)@));
        Ok(())
    }

    /// Pays everything that is held back to the buyer.
    fn refund_to_buyer(env: &mut Env) -> (r: Result<(), EscrowError>)
        requires
            crate::model::payable(old(env)@.instance, old(env)@.instance.buyer),
        ensures
            r is Ok,
            final(env)@ == crate::model::refunded(old(env)@),
    {
        let buyer = env.instance.buyer.unwrap();
        let token = env.instance.token_contract.unwrap();
        let amount: i128 = env.instance.amount.unwrap();
        let contract = env.contract;
        env.ask(Effect::Transfer { token, from: contract, to: buyer, amount });

        env.instance.state = Some(EscrowState::Refunded);
        bump_instance(env);

        env.ask(Effect::Publish { event: Event::FundsRefunded { buyer, amount } });
        assert(env@ =~= crate::model::refunded(old(env)@));
        Ok(())
    }
}

} // verus!
