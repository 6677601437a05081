//! What each call comes to, for those who make it.
//!
//! The laws here hold of every call on every storage, at every ledger and
//! whatever has been asked of the host before. They speak of the fields that are
//! stored and of the list that the host gets, one call at a time and two calls
//! side by side.
use crate::address::Address;
use crate::env::{Effect, Env, EnvView, Event};
use crate::errors::EscrowError;
use crate::laws::added;
use crate::model::Call;
use crate::storage::{EscrowInfo, EscrowState, Instance, Party};
use vstd::prelude::*;

verus! {

// ---------------------------------------------------------------------------
// Two calls side by side
// ---------------------------------------------------------------------------

proof fn lemma_success_is_one_answer(a: Result<(), EscrowError>, b: Result<(), EscrowError>)
    ensures
        a is Ok && b is Ok ==> a == b,
{
    if a is Ok && b is Ok {
        assert(a->Ok_0 == ());
        assert(b->Ok_0 == ());
    }
}

/// A call is settled by what is stored, the ledger, the contract's address and its
/// arguments. What was asked of the host before, in this invocation or another,
/// makes no difference to the answer, to what is left in storage or to what the
/// call asks for.
pub proof fn law_earlier_requests_decide_nothing(
    call: Call,
    a: EnvView,
    after_a: EnvView,
    ra: Result<(), EscrowError>,
    b: EnvView,
    after_b: EnvView,
    rb: Result<(), EscrowError>,
)
    requires
        crate::model::step(call, a, after_a, ra),
        crate::model::step(call, b, after_b, rb),
        a.instance == b.instance,
        a.sequence == b.sequence,
        a.contract == b.contract,
    ensures
        ra == rb,
        after_a.instance == after_b.instance,
        added(a, after_a) == added(b, after_b),
{
    assert(added(a, after_a) =~= added(b, after_b));
    lemma_success_is_one_answer(ra, rb);
}

/// Only setting up an escrow and asking for a refund look at the ledger. Every
/// other call comes to the same at every ledger.
pub proof fn law_the_ledger_decides_refunds_only(
    call: Call,
    a: EnvView,
    after_a: EnvView,
    ra: Result<(), EscrowError>,
    b: EnvView,
    after_b: EnvView,
    rb: Result<(), EscrowError>,
)
    requires
        crate::model::step(call, a, after_a, ra),
        crate::model::step(call, b, after_b, rb),
        a.instance == b.instance,
        a.contract == b.contract,
        !(call is Initialize),
        !(call is RequestRefund),
    ensures
        ra == rb,
        after_a.instance == after_b.instance,
        added(a, after_a) == added(b, after_b),
{
    assert(added(a, after_a) =~= added(b, after_b));
    lemma_success_is_one_answer(ra, rb);
}

/// The delivery marks, the pause flag and the administrator are no part of the
/// trade: storages that differ in these alone give the parties and the arbiter
/// the same answer and the same requests, and end in the same state with the same
/// amount.
#[verifier::spinoff_prover]
#[verifier::rlimit(60)]
pub proof fn law_marks_decide_nothing(
    call: Call,
    a: EnvView,
    after_a: EnvView,
    ra: Result<(), EscrowError>,
    b: EnvView,
    after_b: EnvView,
    rb: Result<(), EscrowError>,
)
    requires
        crate::model::step(call, a, after_a, ra),
        crate::model::step(call, b, after_b, rb),
        a.instance == (Instance {
            buyer_approved: a.instance.buyer_approved,
            seller_delivered: a.instance.seller_delivered,
            admin: a.instance.admin,
            paused: a.instance.paused,
            ..b.instance
        }),
        a.sequence == b.sequence,
        a.contract == b.contract,
        !(call is Pause),
        !(call is Upgrade),
    ensures
        ra == rb,
        after_a.instance.state == after_b.instance.state,
        after_a.instance.amount == after_b.instance.amount,
        added(a, after_a) == added(b, after_b),
{
    assert(added(a, after_a) =~= added(b, after_b));
    lemma_success_is_one_answer(ra, rb);
}

/// Whether a part is released before or after delivery is marked makes no
/// difference: both orders are allowed, pay the same and leave the same.
pub proof fn law_release_and_delivery_commute(
    pre: EnvView,
    released: EnvView,
    r1: Result<(), EscrowError>,
    one: EnvView,
    r2: Result<(), EscrowError>,
    delivered: EnvView,
    r3: Result<(), EscrowError>,
    other: EnvView,
    r4: Result<(), EscrowError>,
    amount: i128,
)
    requires
        pre.instance.well_formed(),
        pre.instance.state == Some(EscrowState::Funded),
        crate::model::release_partial_step(pre, released, r1, amount),
        crate::model::mark_delivered_step(released, one, r2),
        crate::model::mark_delivered_step(pre, delivered, r3),
        crate::model::release_partial_step(delivered, other, r4, amount),
    ensures
        r1 == r4,
        r2 is Ok,
        r3 is Ok,
        one.instance == other.instance,
        added(pre, released) == added(delivered, other),
        added(released, one) == added(pre, delivered),
{
    assert(added(pre, released) =~= added(delivered, other));
    assert(added(released, one) =~= added(pre, delivered));
    lemma_success_is_one_answer(r1, r4);
}

/// A seller whom the arbiter finds for ends up as one whose delivery was approved,
/// and a buyer as one who was refunded: the same state, and the same requests but
/// for who signs.
pub proof fn law_verdicts_pay_like_the_parties_would(
    active: EnvView,
    disputed: EnvView,
    released: EnvView,
    refunded: EnvView,
    approved: EnvView,
    reclaimed: EnvView,
)
    requires
        disputed.instance == (Instance {
            state: Some(EscrowState::Disputed),
            ..active.instance
        }),
        disputed.contract == active.contract,
        crate::model::approve_delivery_step(active, approved, Ok(())),
        crate::model::request_refund_step(active, reclaimed, Ok(())),
        crate::model::resolve_dispute_step(disputed, released, Ok(()), true),
        crate::model::resolve_dispute_step(disputed, refunded, Ok(()), false),
    ensures
        released.instance == approved.instance,
        refunded.instance == reclaimed.instance,
        added(disputed, released).skip(1) == added(active, approved).skip(1),
        added(disputed, refunded).skip(1) == added(active, reclaimed).skip(1),
{
    assert(added(disputed, released).skip(1) =~= added(active, approved).skip(1));
    assert(added(disputed, refunded).skip(1) =~= added(active, reclaimed).skip(1));
}

// ---------------------------------------------------------------------------
// Setting up
// ---------------------------------------------------------------------------

/// An escrow is set up where there is none, for a positive amount, between three
/// different addresses, with at least a hundred ledgers to go. Of several grounds
/// against it the answer names the first in this order.
pub proof fn law_acceptable_terms_open_an_escrow(
    pre: EnvView,
    post: EnvView,
    r: Result<(), EscrowError>,
    buyer: Address,
    seller: Address,
    arbiter: Address,
    token_contract: Address,
    amount: i128,
    deadline_ledger: u32,
)
    requires
        crate::model::initialize_step(
            pre,
            post,
            r,
            buyer,
            seller,
            arbiter,
            token_contract,
            amount,
            deadline_ledger,
        ),
    ensures
        r is Ok <==> pre.instance.state is None && amount > 0 && buyer != seller && buyer != arbiter
            && seller != arbiter && deadline_ledger - pre.sequence >= 100,
        r == Err::<(), _>(EscrowError::AlreadyInitialized) <==> pre.instance.state is Some,
        r == Err::<(), _>(EscrowError::InvalidAmount) <==> pre.instance.state is None && amount
            <= 0,
        r == Err::<(), _>(EscrowError::InvalidParties) <==> pre.instance.state is None && amount > 0
            && (buyer == seller || buyer == arbiter || seller == arbiter),
        r == Err::<(), _>(EscrowError::DeadlinePassed) <==> pre.instance.state is None && amount > 0
            && buyer != seller && buyer != arbiter && seller != arbiter && deadline_ledger
            - pre.sequence < 100,
{
}

/// An escrow that is set up has its terms on record, nothing approved and nothing
/// delivered; the token was probed, nobody had to sign, and the event names buyer,
/// seller and amount. One that is not set up leaves nothing.
pub proof fn law_new_escrow_is_on_record(
    pre: EnvView,
    post: EnvView,
    r: Result<(), EscrowError>,
    buyer: Address,
    seller: Address,
    arbiter: Address,
    token_contract: Address,
    amount: i128,
    deadline_ledger: u32,
)
    requires
        crate::model::initialize_step(
            pre,
            post,
            r,
            buyer,
            seller,
            arbiter,
            token_contract,
            amount,
            deadline_ledger,
        ),
    ensures
        r is Err ==> post.instance == pre.instance && post.effects == pre.effects,
        r is Ok ==> {
            &&& post.instance.buyer == Some(buyer)
            &&& post.instance.seller == Some(seller)
            &&& post.instance.arbiter == Some(arbiter)
            &&& post.instance.token_contract == Some(token_contract)
            &&& post.instance.amount == Some(amount)
            &&& post.instance.deadline == Some(deadline_ledger)
            &&& post.instance.state == Some(EscrowState::Created)
            &&& post.instance.buyer_approved == Some(false)
            &&& post.instance.seller_delivered == Some(false)
            &&& post.instance.admin == pre.instance.admin
            &&& post.instance.paused == pre.instance.paused
        },
        r is Ok ==> post.effects == pre.effects.push(
            Effect::ProbeToken { token: token_contract },
        ).push(Effect::ExtendTtl { threshold: 120_960, extend_to: 518_400 }).push(
            Effect::Publish { event: Event::EscrowCreated { buyer, seller, amount } },
        ),
        post.sequence == pre.sequence,
        post.contract == pre.contract,
{
}

// ---------------------------------------------------------------------------
// The trade
// ---------------------------------------------------------------------------

/// A created escrow, and no other, can be funded, at any ledger: the buyer signs,
/// and the whole stored amount of the stored token goes from the buyer to the
/// contract. Nothing else on record changes.
pub proof fn law_funding_takes_the_whole_amount(
    pre: EnvView,
    post: EnvView,
    r: Result<(), EscrowError>,
)
    requires
        crate::model::fund_step(pre, post, r),
    ensures
        r is Ok <==> pre.instance.buyer is Some && pre.instance.state == Some(
            EscrowState::Created,
        ),
        r == Err::<(), _>(EscrowError::NotInitialized) <==> pre.instance.buyer is None
            || pre.instance.state is None,
        r == Err::<(), _>(EscrowError::InvalidState) <==> pre.instance.buyer is Some
            && pre.instance.state is Some && pre.instance.state != Some(EscrowState::Created),
        r is Err ==> post.instance == pre.instance,
        r is Err && pre.instance.buyer is None ==> post.effects == pre.effects,
        r is Err && pre.instance.buyer is Some ==> post.effects == pre.effects.push(
            Effect::RequireAuth { address: pre.instance.buyer->0 },
        ),
        r is Ok ==> post.instance == (Instance {
            state: Some(EscrowState::Funded),
            ..pre.instance
        }),
        r is Ok ==> post.effects == pre.effects.push(
            Effect::RequireAuth { address: pre.instance.buyer->0 },
        ).push(
            Effect::Transfer {
                token: pre.instance.token_contract->0,
                from: pre.instance.buyer->0,
                to: pre.contract,
                amount: pre.instance.amount->0,
            },
        ).push(
            Effect::ExtendTtl { threshold: 120_960, extend_to: 518_400 },
        ).push(
            Effect::Publish {
                event: Event::EscrowFunded {
                    buyer: pre.instance.buyer->0,
                    amount: pre.instance.amount->0,
                },
            },
        ),
        post.sequence == pre.sequence,
        post.contract == pre.contract,
{
}

/// A funded escrow, and no other, can be marked as delivered, at any ledger: the
/// seller signs, no tokens move, and delivery is on record.
pub proof fn law_delivery_is_marked_while_funded(
    pre: EnvView,
    post: EnvView,
    r: Result<(), EscrowError>,
)
    requires
        crate::model::mark_delivered_step(pre, post, r),
    ensures
        r is Ok <==> pre.instance.seller is Some && pre.instance.state == Some(
            EscrowState::Funded,
        ),
        r == Err::<(), _>(EscrowError::NotInitialized) <==> pre.instance.seller is None
            || pre.instance.state is None,
        r == Err::<(), _>(EscrowError::InvalidState) <==> pre.instance.seller is Some
            && pre.instance.state is Some && pre.instance.state != Some(EscrowState::Funded),
        r is Err ==> post.instance == pre.instance,
        r is Err && pre.instance.seller is None ==> post.effects == pre.effects,
        r is Err && pre.instance.seller is Some ==> post.effects == pre.effects.push(
            Effect::RequireAuth { address: pre.instance.seller->0 },
        ),
        r is Ok ==> post.instance == (Instance {
            state: Some(EscrowState::Delivered),
            seller_delivered: Some(true),
            ..pre.instance
        }),
        r is Ok ==> post.effects == pre.effects.push(
            Effect::RequireAuth { address: pre.instance.seller->0 },
        ).push(
            Effect::ExtendTtl { threshold: 120_960, extend_to: 518_400 },
        ).push(
            Effect::Publish { event: Event::DeliveryMarked { seller: pre.instance.seller->0 } },
        ),
        post.sequence == pre.sequence,
        post.contract == pre.contract,
{
}

/// A delivered escrow, and no other, can be approved, at any ledger: the buyer
/// signs, and the whole stored amount goes from the contract to the seller.
/// Nothing but the state changes on record.
pub proof fn law_approval_pays_the_seller_everything(
    pre: EnvView,
    post: EnvView,
    r: Result<(), EscrowError>,
)
    requires
        crate::model::approve_delivery_step(pre, post, r),
    ensures
        r is Ok <==> pre.instance.buyer is Some && pre.instance.state == Some(
            EscrowState::Delivered,
        ),
        r == Err::<(), _>(EscrowError::NotInitialized) <==> pre.instance.buyer is None
            || pre.instance.state is None,
        r == Err::<(), _>(EscrowError::InvalidState) <==> pre.instance.buyer is Some
            && pre.instance.state is Some && pre.instance.state != Some(EscrowState::Delivered),
        r is Err ==> post.instance == pre.instance,
        r is Err && pre.instance.buyer is None ==> post.effects == pre.effects,
        r is Err && pre.instance.buyer is Some ==> post.effects == pre.effects.push(
            Effect::RequireAuth { address: pre.instance.buyer->0 },
        ),
        r is Ok ==> post.instance == (Instance {
            state: Some(EscrowState::Completed),
            ..pre.instance
        }),
        r is Ok ==> post.effects == pre.effects.push(
            Effect::RequireAuth { address: pre.instance.buyer->0 },
        ).push(
            Effect::Transfer {
                token: pre.instance.token_contract->0,
                from: pre.contract,
                to: pre.instance.seller->0,
                amount: pre.instance.amount->0,
            },
        ).push(
            Effect::ExtendTtl { threshold: 120_960, extend_to: 518_400 },
        ).push(
            Effect::Publish {
                event: Event::FundsReleased {
                    seller: pre.instance.seller->0,
                    amount: pre.instance.amount->0,
                },
            },
        ),
        post.sequence == pre.sequence,
        post.contract == pre.contract,
{
}

/// A funded or delivered escrow, and no other, can be refunded, from the ledger
/// after the deadline on: the buyer signs, and the whole stored amount goes from
/// the contract to the buyer. Nothing but the state changes on record.
pub proof fn law_refund_returns_everything(
    pre: EnvView,
    post: EnvView,
    r: Result<(), EscrowError>,
)
    requires
        crate::model::request_refund_step(pre, post, r),
    ensures
        r is Ok <==> pre.instance.buyer is Some && (pre.instance.state == Some(EscrowState::Funded)
            || pre.instance.state == Some(EscrowState::Delivered)) && pre.instance.deadline is Some
            && pre.sequence > pre.instance.deadline->0,
        r == Err::<(), _>(EscrowError::NotInitialized) <==> pre.instance.buyer is None
            || pre.instance.state is None || pre.instance.deadline is None,
        r is Err ==> r == Err::<(), _>(EscrowError::NotInitialized) || r == Err::<(), _>(
            EscrowError::DeadlineNotReached,
        ),
        r is Err ==> post.instance == pre.instance,
        r is Err && pre.instance.buyer is None ==> post.effects == pre.effects,
        r is Err && pre.instance.buyer is Some ==> post.effects == pre.effects.push(
            Effect::RequireAuth { address: pre.instance.buyer->0 },
        ),
        r is Ok ==> post.instance == (Instance {
            state: Some(EscrowState::Refunded),
            ..pre.instance
        }),
        r is Ok ==> post.effects == pre.effects.push(
            Effect::RequireAuth { address: pre.instance.buyer->0 },
        ).push(
            Effect::Transfer {
                token: pre.instance.token_contract->0,
                from: pre.contract,
                to: pre.instance.buyer->0,
                amount: pre.instance.amount->0,
            },
        ).push(
            Effect::ExtendTtl { threshold: 120_960, extend_to: 518_400 },
        ).push(
            Effect::Publish {
                event: Event::FundsRefunded {
                    buyer: pre.instance.buyer->0,
                    amount: pre.instance.amount->0,
                },
            },
        ),
        post.sequence == pre.sequence,
        post.contract == pre.contract,
{
}

/// A funded or delivered escrow, and no other, can be disputed, by either side and
/// at any ledger: the one who raises the dispute signs, and nobody else; no tokens
/// move; and nothing but the state changes on record. A refusal asks for nothing.
pub proof fn law_either_side_can_dispute_what_is_held(
    pre: EnvView,
    post: EnvView,
    r: Result<(), EscrowError>,
    by: Party,
)
    requires
        crate::model::raise_dispute_step(pre, post, r, by),
    ensures
        r is Ok <==> pre.instance.state == Some(EscrowState::Funded) || pre.instance.state == Some(
            EscrowState::Delivered,
        ),
        r == Err::<(), _>(EscrowError::NotInitialized) <==> pre.instance.state is None,
        r is Err && pre.instance.state is Some ==> r == Err::<(), _>(EscrowError::InvalidState),
        r is Err ==> post.instance == pre.instance && post.effects == pre.effects,
        r is Ok ==> post.instance == (Instance {
            state: Some(EscrowState::Disputed),
            ..pre.instance
        }),
        r is Ok ==> post.effects == pre.effects.push(
            Effect::RequireAuth {
                address: (match by {
                    Party::Buyer => pre.instance.buyer,
                    Party::Seller => pre.instance.seller,
                })->0,
            },
        ).push(
            Effect::ExtendTtl { threshold: 120_960, extend_to: 518_400 },
        ).push(
            Effect::Publish {
                event: Event::DisputeRaised {
                    raiser: (match by {
                        Party::Buyer => pre.instance.buyer,
                        Party::Seller => pre.instance.seller,
                    })->0,
                },
            },
        ),
        post.sequence == pre.sequence,
        post.contract == pre.contract,
{
}

/// A disputed escrow, and no other, can be resolved, at any ledger and whatever was
/// delivered: the arbiter signs, and the whole stored amount goes from the contract
/// to the seller or to the buyer, as the verdict says. Nothing but the state changes
/// on record, and it tells who was paid.
pub proof fn law_verdict_pays_whom_it_names(
    pre: EnvView,
    post: EnvView,
    r: Result<(), EscrowError>,
    release_to_seller: bool,
)
    requires
        crate::model::resolve_dispute_step(pre, post, r, release_to_seller),
    ensures
        r is Ok <==> pre.instance.arbiter is Some && pre.instance.state == Some(
            EscrowState::Disputed,
        ),
        r == Err::<(), _>(EscrowError::NotInitialized) <==> pre.instance.arbiter is None
            || pre.instance.state is None,
        r == Err::<(), _>(EscrowError::InvalidState) <==> pre.instance.arbiter is Some
            && pre.instance.state is Some && pre.instance.state != Some(EscrowState::Disputed),
        r is Err ==> post.instance == pre.instance,
        r is Err && pre.instance.arbiter is None ==> post.effects == pre.effects,
        r is Err && pre.instance.arbiter is Some ==> post.effects == pre.effects.push(
            Effect::RequireAuth { address: pre.instance.arbiter->0 },
        ),
        r is Ok ==> post.instance == (Instance {
            state: Some(
                if release_to_seller { EscrowState::Completed } else { EscrowState::Refunded },
            ),
            ..pre.instance
        }),
        r is Ok ==> post.effects == pre.effects.push(
            Effect::RequireAuth { address: pre.instance.arbiter->0 },
        ).push(
            Effect::Transfer {
                token: pre.instance.token_contract->0,
                from: pre.contract,
                to: if release_to_seller {
                    pre.instance.seller->0
                } else {
                    pre.instance.buyer->0
                },
                amount: pre.instance.amount->0,
            },
        ).push(
            Effect::ExtendTtl { threshold: 120_960, extend_to: 518_400 },
        ).push(
            Effect::Publish {
                event: if release_to_seller {
                    Event::FundsReleased {
                        seller: pre.instance.seller->0,
                        amount: pre.instance.amount->0,
                    }
                } else {
                    Event::FundsRefunded {
                        buyer: pre.instance.buyer->0,
                        amount: pre.instance.amount->0,
                    }
                },
            },
        ),
        post.sequence == pre.sequence,
        post.contract == pre.contract,
{
}

/// From a funded or delivered escrow, and from no other, any part of what is held
/// can be released, and no more than that, at any ledger: the buyer signs, the part
/// goes from the contract to the seller, and the amount on record is less by it.
/// Nothing else changes on record.
pub proof fn law_part_of_what_is_held_can_be_released(
    pre: EnvView,
    post: EnvView,
    r: Result<(), EscrowError>,
    amount: i128,
)
    requires
        crate::model::release_partial_step(pre, post, r, amount),
        crate::model::release_partial_ready(pre, amount),
    ensures
        r is Ok <==> pre.instance.buyer is Some && (pre.instance.state == Some(EscrowState::Funded)
            || pre.instance.state == Some(EscrowState::Delivered)) && amount
            <= pre.instance.amount->0,
        r == Err::<(), _>(EscrowError::NotInitialized) <==> pre.instance.buyer is None
            || pre.instance.state is None,
        r == Err::<(), _>(EscrowError::InsufficientFunds) <==> pre.instance.buyer is Some && (
        pre.instance.state == Some(EscrowState::Funded) || pre.instance.state == Some(
            EscrowState::Delivered,
        )) && amount > pre.instance.amount->0,
        r == Err::<(), _>(EscrowError::InvalidState) <==> pre.instance.buyer is Some
            && pre.instance.state is Some && pre.instance.state != Some(EscrowState::Funded)
            && pre.instance.state != Some(EscrowState::Delivered),
        r is Ok ==> post.instance.amount is Some && post.instance.amount->0 + amount
            == pre.instance.amount->0,
        r is Err ==> post.instance == pre.instance,
        r is Err && pre.instance.buyer is None ==> post.effects == pre.effects,
        r is Err && pre.instance.buyer is Some ==> post.effects == pre.effects.push(
            Effect::RequireAuth { address: pre.instance.buyer->0 },
        ),
        r is Ok ==> post.instance == (Instance {
            amount: post.instance.amount,
            ..pre.instance
        }),
        r is Ok ==> post.effects == pre.effects.push(
            Effect::RequireAuth { address: pre.instance.buyer->0 },
        ).push(
            Effect::Transfer {
                token: pre.instance.token_contract->0,
                from: pre.contract,
                to: pre.instance.seller->0,
                amount: amount,
            },
        ).push(
            Effect::ExtendTtl { threshold: 120_960, extend_to: 518_400 },
        ).push(
            Effect::Publish {
                event: Event::PartialReleased { seller: pre.instance.seller->0, amount },
            },
        ),
        post.sequence == pre.sequence,
        post.contract == pre.contract,
{
}

/// A created escrow, and no other, can be called off, at any ledger: the buyer
/// signs, no tokens move, no event is published, and nothing but the state changes
/// on record.
pub proof fn law_unfunded_escrow_can_be_called_off(
    pre: EnvView,
    post: EnvView,
    r: Result<(), EscrowError>,
)
    requires
        crate::model::cancel_step(pre, post, r),
    ensures
        r is Ok <==> pre.instance.buyer is Some && pre.instance.state == Some(
            EscrowState::Created,
        ),
        r == Err::<(), _>(EscrowError::NotInitialized) <==> pre.instance.buyer is None
            || pre.instance.state is None,
        r == Err::<(), _>(EscrowError::InvalidState) <==> pre.instance.buyer is Some
            && pre.instance.state is Some && pre.instance.state != Some(EscrowState::Created),
        r is Err ==> post.instance == pre.instance,
        r is Err && pre.instance.buyer is None ==> post.effects == pre.effects,
        r is Err && pre.instance.buyer is Some ==> post.effects == pre.effects.push(
            Effect::RequireAuth { address: pre.instance.buyer->0 },
        ),
        r is Ok ==> post.instance == (Instance {
            state: Some(EscrowState::Cancelled),
            ..pre.instance
        }),
        r is Ok ==> post.effects == pre.effects.push(
            Effect::RequireAuth { address: pre.instance.buyer->0 },
        ).push(
            Effect::ExtendTtl { threshold: 120_960, extend_to: 518_400 },
        ),
        post.sequence == pre.sequence,
        post.contract == pre.contract,
{
}

// ---------------------------------------------------------------------------
// Upkeep
// ---------------------------------------------------------------------------

/// Every escrow, in whatever state, can be kept alive, by anyone: nobody signs, and
/// nothing changes on record. Where there is none, the call is refused and asks for
/// nothing.
pub proof fn law_anyone_keeps_an_escrow_alive(
    pre: EnvView,
    post: EnvView,
    r: Result<(), EscrowError>,
)
    requires
        crate::model::bump_step(pre, post, r),
    ensures
        r is Ok <==> pre.instance.state is Some,
        r is Err ==> r == Err::<(), _>(EscrowError::NotInitialized),
        r is Err ==> post.instance == pre.instance && post.effects == pre.effects,
        r is Ok ==> post.instance == (pre.instance),
        r is Ok ==> post.effects == pre.effects.push(
            Effect::ExtendTtl { threshold: 120_960, extend_to: 518_400 },
        ),
        post.sequence == pre.sequence,
        post.contract == pre.contract,
{
}

/// A contract with an administrator can be paused, in whatever state the escrow is:
/// the administrator signs, and nothing but the flag changes on record. Without an
/// administrator the call is refused and asks for nothing.
pub proof fn law_administrator_pauses(
    pre: EnvView,
    post: EnvView,
    r: Result<(), EscrowError>,
)
    requires
        crate::model::pause_step(pre, post, r),
    ensures
        r is Ok <==> pre.instance.admin is Some,
        r is Err ==> r == Err::<(), _>(EscrowError::NotInitialized),
        r is Err ==> post.instance == pre.instance && post.effects == pre.effects,
        r is Ok ==> post.instance == (Instance { paused: Some(true), ..pre.instance }),
        r is Ok ==> post.effects == pre.effects.push(
            Effect::RequireAuth { address: pre.instance.admin->0 },
        ).push(
            Effect::ExtendTtl { threshold: 120_960, extend_to: 518_400 },
        ),
        post.sequence == pre.sequence,
        post.contract == pre.contract,
{
}

/// A contract with an administrator can be upgraded, in whatever state the escrow
/// is: the administrator signs, the code becomes the one that was named, and nothing
/// changes on record. Without an administrator the call is refused and asks for
/// nothing.
pub proof fn law_administrator_upgrades(
    pre: EnvView,
    post: EnvView,
    r: Result<(), EscrowError>,
    new_wasm_hash: [u8; 32],
)
    requires
        crate::model::upgrade_step(pre, post, r, new_wasm_hash),
    ensures
        r is Ok <==> pre.instance.admin is Some,
        r is Err ==> r == Err::<(), _>(EscrowError::NotInitialized),
        r is Err ==> post.instance == pre.instance && post.effects == pre.effects,
        r is Ok ==> post.instance == (pre.instance),
        r is Ok ==> post.effects == pre.effects.push(
            Effect::RequireAuth { address: pre.instance.admin->0 },
        ).push(
            Effect::UpdateWasm { hash: new_wasm_hash },
        ),
        post.sequence == pre.sequence,
        post.contract == pre.contract,
{
}

// ---------------------------------------------------------------------------
// Reading
// ---------------------------------------------------------------------------

/// Clients are shown what is stored, field by field, in every state: on storages
/// that hold all the terms, what is shown tells them apart exactly as far as the
/// terms differ, and it fits the terms that are stored.
pub proof fn law_clients_see_what_is_stored(instance: Instance, shown: EscrowInfo)
    requires
        instance.buyer is Some,
        instance.seller is Some,
        instance.arbiter is Some,
        instance.token_contract is Some,
        instance.amount is Some,
        instance.deadline is Some,
        instance.state is Some,
    ensures
        crate::model::info_ready(instance),
        shown == crate::model::info(instance) <==> instance == (Instance {
            buyer: Some(shown.buyer),
            seller: Some(shown.seller),
            arbiter: Some(shown.arbiter),
            token_contract: Some(shown.token_contract),
            amount: Some(shown.amount),
            deadline: Some(shown.deadline),
            state: Some(shown.state),
            ..instance
        }),
{
}

/// The deadline reads as passed from the ledger after it on, and at no ledger
/// before. Without a deadline every ledger but the first reads so.
pub proof fn law_deadline_passes_after_its_ledger(env: EnvView)
    ensures
        env.instance.deadline is Some ==> (crate::model::past_deadline(env) <==> env.sequence
            - env.instance.deadline->0 >= 1),
        env.instance.deadline is None ==> (crate::model::past_deadline(env) <==> env.sequence >= 1),
{
}

/// An invocation is seen as it is.
pub proof fn law_view_hides_nothing(env: Env)
    ensures
        env@.instance == env.instance,
        env@.sequence == env.sequence,
        env@.contract == env.contract,
        env@.effects == env.effects@,
{
}

/// An event goes out under its name, followed by the addresses it is about, with
/// the amount as its data where tokens are concerned.
pub proof fn law_events_say_what_happened(a: Address, b: Address, amount: i128)
    ensures
        ({
            let event = Event::EscrowCreated { buyer: a, seller: b, amount };
            event.spec_name() == "escrow_created"@ && event.spec_topics() == seq![a, b]
                && event.spec_data() == Some(amount)
        }),
        ({
            let event = Event::EscrowFunded { buyer: a, amount };
            event.spec_name() == "escrow_funded"@ && event.spec_topics() == seq![a]
                && event.spec_data() == Some(amount)
        }),
        ({
            let event = Event::DeliveryMarked { seller: a };
            event.spec_name() == "delivery_marked"@ && event.spec_topics() == seq![a]
                && event.spec_data() is None
        }),
        ({
            let event = Event::DisputeRaised { raiser: a };
            event.spec_name() == "dispute_raised"@ && event.spec_topics() == seq![a]
                && event.spec_data() is None
        }),
        ({
            let event = Event::PartialReleased { seller: a, amount };
            event.spec_name() == "partial_released"@ && event.spec_topics() == seq![a]
                && event.spec_data() == Some(amount)
        }),
        ({
            let event = Event::FundsReleased { seller: a, amount };
            event.spec_name() == "funds_released"@ && event.spec_topics() == seq![a]
                && event.spec_data() == Some(amount)
        }),
        ({
            let event = Event::FundsRefunded { buyer: a, amount };
            event.spec_name() == "funds_refunded"@ && event.spec_topics() == seq![a]
                && event.spec_data() == Some(amount)
        }),
{
}

/// Clients tell errors apart by their numbers: each error has one, no two share it,
/// and no error goes out under any other.
pub proof fn law_errors_have_their_own_numbers(a: EscrowError, b: EscrowError)
    ensures
        a.spec_code() == b.spec_code() <==> a == b,
        a.spec_code() == 2 <==> a == EscrowError::InvalidState,
        a.spec_code() == 3 <==> a == EscrowError::DeadlinePassed,
        a.spec_code() == 4 <==> a == EscrowError::DeadlineNotReached,
        a.spec_code() == 5 <==> a == EscrowError::AlreadyInitialized,
        a.spec_code() == 6 <==> a == EscrowError::NotInitialized,
        a.spec_code() == 7 <==> a == EscrowError::InsufficientFunds,
        a.spec_code() == 8 <==> a == EscrowError::InvalidAmount,
        a.spec_code() == 9 <==> a == EscrowError::InvalidParties,
{
}

/// A storage that was never written to holds nothing.
pub proof fn law_empty_storage_holds_nothing()
    ensures
        ({
            let instance = Instance::spec_empty();
            &&& instance.buyer is None
            &&& instance.seller is None
            &&& instance.arbiter is None
            &&& instance.token_contract is None
            &&& instance.amount is None
            &&& instance.deadline is None
            &&& instance.state is None
            &&& instance.buyer_approved is None
            &&& instance.seller_delivered is None
            &&& instance.admin is None
            &&& instance.paused is None
        }),
{
}

/// Two addresses are taken for the same exactly when they agree in every character.
pub proof fn law_addresses_agree_in_every_character(a: Address, b: Address)
    ensures
        vstd::std_specs::cmp::PartialEqSpec::eq_spec(&a, &b) <==> forall|k: int|
            0 <= k < 56 ==> a.strkey[k] == b.strkey[k],
{
    if forall|k: int| 0 <= k < 56 ==> a.strkey[k] == b.strkey[k] {
        assert(a.strkey =~= b.strkey);
    }
}

/// A call can be made unless it would miss something that it reads, or count out of
/// range: a call that is refused before it gets there can always be made.
pub proof fn law_calls_need_only_what_they_read(call: Call, pre: EnvView)
    ensures
        crate::model::ready(call, pre) <==> match call {
            Call::Initialize { buyer, seller, arbiter, amount, .. } => {
                ||| pre.instance.state is Some
                ||| amount <= 0
                ||| buyer == seller
                ||| buyer == arbiter
                ||| seller == arbiter
                ||| pre.sequence <= u32::MAX - 100
            },
            Call::Fund => {
                ||| pre.instance.buyer is None
                ||| pre.instance.state != Some(EscrowState::Created)
                ||| pre.instance.token_contract is Some && pre.instance.amount is Some
            },
            Call::ApproveDelivery => {
                ||| pre.instance.buyer is None
                ||| pre.instance.state != Some(EscrowState::Delivered)
                ||| pre.instance.seller is Some && pre.instance.token_contract is Some
                    && pre.instance.amount is Some
            },
            Call::RequestRefund => {
                ||| pre.instance.buyer is None
                ||| pre.instance.state != Some(EscrowState::Funded) && pre.instance.state != Some(
                    EscrowState::Delivered,
                )
                ||| pre.instance.deadline is None
                ||| pre.sequence <= pre.instance.deadline->0
                ||| pre.instance.token_contract is Some && pre.instance.amount is Some
            },
            Call::RaiseDispute { by } => {
                ||| pre.instance.state != Some(EscrowState::Funded) && pre.instance.state != Some(
                    EscrowState::Delivered,
                )
                ||| by is Buyer && pre.instance.buyer is Some
                ||| by is Seller && pre.instance.seller is Some
            },
            Call::ResolveDispute { release_to_seller } => {
                ||| pre.instance.arbiter is None
                ||| pre.instance.state != Some(EscrowState::Disputed)
                ||| pre.instance.token_contract is Some && pre.instance.amount is Some && (
                if release_to_seller {
                    pre.instance.seller is Some
                } else {
                    pre.instance.buyer is Some
                })
            },
            Call::ReleasePartial { amount } => {
                ||| pre.instance.buyer is None
                ||| pre.instance.state != Some(EscrowState::Funded) && pre.instance.state != Some(
                    EscrowState::Delivered,
                )
                ||| pre.instance.amount is Some && amount > pre.instance.amount->0
                ||| pre.instance.amount is Some && pre.instance.seller is Some
                    && pre.instance.token_contract is Some && pre.instance.amount->0 - amount
                    <= i128::MAX
            },
            Call::MarkDelivered
            | Call::Cancel
            | Call::Bump
            | Call::Pause
            | Call::Upgrade { .. } => true,
        },
{
}

} // verus!
