//! What each entry point does: the relation between the invocation before the
//! call, the invocation after it and the answer.
//!
//! The steps share a shape. The answer is settled by what is stored, by the
//! ledger and by the arguments. A refused call leaves storage as it was and has
//! asked the host for a signature at most. A call that succeeds starts with the
//! signature of whoever may make it.
use crate::address::Address;
use crate::env::{Effect, EnvView, Event};
use crate::errors::EscrowError;
use crate::storage::{EscrowInfo, EscrowState, Instance, Party};
use vstd::prelude::*;

verus! {

/// Instance storage with fewer ledgers than this to live is extended.
pub const LEDGER_LIFETIME_THRESHOLD: u32 = 120_960;

/// The number of ledgers that extended storage gets to live.
pub const LEDGER_BUMP_AMOUNT: u32 = 518_400;

/// The least number of ledgers between the start of an escrow and its deadline.
pub const MIN_DEADLINE_BUFFER: u32 = 100;

/// A call that may change the escrow.
pub enum Call {
    Initialize {
        buyer: Address,
        seller: Address,
        arbiter: Address,
        token_contract: Address,
        amount: i128,
        deadline_ledger: u32,
    },
    Fund,
    MarkDelivered,
    ApproveDelivery,
    RequestRefund,
    RaiseDispute { by: Party },
    ResolveDispute { release_to_seller: bool },
    ReleasePartial { amount: i128 },
    Cancel,
    Bump,
    Pause,
    Upgrade { new_wasm_hash: [u8; 32] },
}

/// Storage is kept alive.
pub open spec fn kept_alive() -> Effect {
    Effect::ExtendTtl { threshold: LEDGER_LIFETIME_THRESHOLD, extend_to: LEDGER_BUMP_AMOUNT }
}

/// The signature of whoever is stored; nothing, if nobody is.
pub open spec fn signature(signer: Option<Address>) -> Seq<Effect> {
    match signer {
        Some(address) => seq![Effect::RequireAuth { address }],
        None => seq![],
    }
}

/// No two of the three roles are taken by one address.
pub open spec fn distinct(buyer: Address, seller: Address, arbiter: Address) -> bool {
    buyer != seller && buyer != arbiter && seller != arbiter
}

/// The current ledger lies beyond the deadline; a missing deadline counts as
/// ledger 0.
pub open spec fn past_deadline(env: EnvView) -> bool {
    env.sequence > (match env.instance.deadline {
        Some(deadline) => deadline,
        None => 0,
    })
}

/// The ledger after the buffer can be numbered, in a call that looks at it.
pub open spec fn initialize_ready(
    pre: EnvView,
    buyer: Address,
    seller: Address,
    arbiter: Address,
    amount: i128,
) -> bool {
    pre.instance.state is None && amount > 0 && distinct(buyer, seller, arbiter) ==> pre.sequence
        + MIN_DEADLINE_BUFFER <= u32::MAX
}

/// Sets up an escrow on acceptable terms, once, for a token that answers.
pub open spec fn initialize_step(
    pre: EnvView,
    post: EnvView,
    r: Result<(), EscrowError>,
    buyer: Address,
    seller: Address,
    arbiter: Address,
    token_contract: Address,
    amount: i128,
    deadline_ledger: u32,
) -> bool {
    let new = pre.instance.state is None;
    let late = deadline_ledger < pre.sequence + MIN_DEADLINE_BUFFER;
    &&& r == Err::<(), _>(EscrowError::AlreadyInitialized) <==> !new
    &&& r == Err::<(), _>(EscrowError::InvalidAmount) <==> new && amount <= 0
    &&& r == Err::<(), _>(EscrowError::InvalidParties) <==> new && amount > 0 && !distinct(
        buyer,
        seller,
        arbiter,
    )
    &&& r == Err::<(), _>(EscrowError::DeadlinePassed) <==> new && amount > 0 && distinct(
        buyer,
        seller,
        arbiter,
    ) && late
    &&& r is Ok <==> new && amount > 0 && distinct(buyer, seller, arbiter) && !late
    &&& r is Err ==> post == pre
    &&& r is Ok ==> post == pre.storing(
        Instance {
            buyer: Some(buyer),
            seller: Some(seller),
            arbiter: Some(arbiter),
            token_contract: Some(token_contract),
            amount: Some(amount),
            deadline: Some(deadline_ledger),
            state: Some(EscrowState::Created),
            buyer_approved: Some(false),
            seller_delivered: Some(false),
            admin: pre.instance.admin,
            paused: pre.instance.paused,
        },
    ).asking(
        seq![
            Effect::ProbeToken { token: token_contract },
            kept_alive(),
            Effect::Publish { event: Event::EscrowCreated { buyer, seller, amount } },
        ],
    )
}

/// A call by a stored `signer` that wants the escrow in a `wanted` state: the
/// answer, and what a refusal leaves behind.
pub open spec fn guarded(
    pre: EnvView,
    post: EnvView,
    r: Result<(), EscrowError>,
    signer: Option<Address>,
    wanted: EscrowState,
) -> bool {
    let state = pre.instance.state;
    &&& r == Err::<(), _>(EscrowError::NotInitialized) <==> signer is None || state is None
    &&& r == Err::<(), _>(EscrowError::InvalidState) <==> signer is Some && state is Some && state
        != Some(wanted)
    &&& r is Ok <==> signer is Some && state == Some(wanted)
    &&& r is Err ==> post == pre.asking(signature(signer))
}

/// What is paid with is on record, in a call that pays.
pub open spec fn fund_ready(pre: EnvView) -> bool {
    pre.instance.buyer is Some && pre.instance.state == Some(EscrowState::Created) ==> {
        &&& pre.instance.token_contract is Some
        &&& pre.instance.amount is Some
    }
}

/// The buyer pays the amount in.
pub open spec fn fund_step(pre: EnvView, post: EnvView, r: Result<(), EscrowError>) -> bool {
    let buyer = pre.instance.buyer->0;
    let amount = pre.instance.amount->0;
    &&& guarded(pre, post, r, pre.instance.buyer, EscrowState::Created)
    &&& r is Ok ==> post == pre.storing(
        Instance { state: Some(EscrowState::Funded), ..pre.instance },
    ).asking(
        seq![
            Effect::RequireAuth { address: buyer },
            Effect::Transfer {
                token: pre.instance.token_contract->0,
                from: buyer,
                to: pre.contract,
                amount,
            },
            kept_alive(),
            Effect::Publish { event: Event::EscrowFunded { buyer, amount } },
        ],
    )
}

/// The seller puts delivery on record.
pub open spec fn mark_delivered_step(
    pre: EnvView,
    post: EnvView,
    r: Result<(), EscrowError>,
) -> bool {
    let seller = pre.instance.seller->0;
    &&& guarded(pre, post, r, pre.instance.seller, EscrowState::Funded)
    &&& r is Ok ==> post == pre.storing(
        Instance {
            state: Some(EscrowState::Delivered),
            seller_delivered: Some(true),
            ..pre.instance
        },
    ).asking(
        seq![
            Effect::RequireAuth { address: seller },
            kept_alive(),
            Effect::Publish { event: Event::DeliveryMarked { seller } },
        ],
    )
}

/// Who gets paid, with what and how much, is on record.
pub open spec fn payable(instance: Instance, payee: Option<Address>) -> bool {
    payee is Some && instance.token_contract is Some && instance.amount is Some
}

/// Everything that is held has gone to the seller.
pub open spec fn released(pre: EnvView) -> EnvView {
    let seller = pre.instance.seller->0;
    let amount = pre.instance.amount->0;
    pre.storing(Instance { state: Some(EscrowState::Completed), ..pre.instance }).asking(
        seq![
            Effect::Transfer {
                token: pre.instance.token_contract->0,
                from: pre.contract,
                to: seller,
                amount,
            },
            kept_alive(),
            Effect::Publish { event: Event::FundsReleased { seller, amount } },
        ],
    )
}

/// Everything that is held has gone back to the buyer.
pub open spec fn refunded(pre: EnvView) -> EnvView {
    let buyer = pre.instance.buyer->0;
    let amount = pre.instance.amount->0;
    pre.storing(Instance { state: Some(EscrowState::Refunded), ..pre.instance }).asking(
        seq![
            Effect::Transfer {
                token: pre.instance.token_contract->0,
                from: pre.contract,
                to: buyer,
                amount,
            },
            kept_alive(),
            Effect::Publish { event: Event::FundsRefunded { buyer, amount } },
        ],
    )
}

/// Who gets paid is on record, in a call that pays.
pub open spec fn approve_delivery_ready(pre: EnvView) -> bool {
    pre.instance.buyer is Some && pre.instance.state == Some(EscrowState::Delivered) ==> payable(
        pre.instance,
        pre.instance.seller,
    )
}

/// The buyer lets the seller have what is held.
pub open spec fn approve_delivery_step(
    pre: EnvView,
    post: EnvView,
    r: Result<(), EscrowError>,
) -> bool {
    &&& guarded(pre, post, r, pre.instance.buyer, EscrowState::Delivered)
    &&& r is Ok ==> post == released(pre.asking(signature(pre.instance.buyer)))
}

/// A refund is due to the buyer.
pub open spec fn refundable(pre: EnvView) -> bool {
    pre.instance.active() && past_deadline(pre)
}

/// What is paid back is on record, in a call that pays.
pub open spec fn request_refund_ready(pre: EnvView) -> bool {
    pre.instance.buyer is Some && pre.instance.deadline is Some && refundable(pre) ==> payable(
        pre.instance,
        pre.instance.buyer,
    )
}

/// The buyer takes back what is held, once the deadline has passed.
pub open spec fn request_refund_step(
    pre: EnvView,
    post: EnvView,
    r: Result<(), EscrowError>,
) -> bool {
    let stored = pre.instance.buyer is Some && pre.instance.state is Some
        && pre.instance.deadline is Some;
    &&& r == Err::<(), _>(EscrowError::NotInitialized) <==> !stored
    &&& r == Err::<(), _>(EscrowError::DeadlineNotReached) <==> stored && !refundable(pre)
    &&& r is Ok <==> stored && refundable(pre)
    &&& r is Err ==> post == pre.asking(signature(pre.instance.buyer))
    &&& r is Ok ==> post == refunded(pre.asking(signature(pre.instance.buyer)))
}

/// The side that raises the dispute is on record, in a call that asks for its signature.
pub open spec fn raise_dispute_ready(pre: EnvView, by: Party) -> bool {
    pre.instance.active() ==> pre.instance.party(by) is Some
}

/// The buyer or the seller brings in the arbiter.
pub open spec fn raise_dispute_step(
    pre: EnvView,
    post: EnvView,
    r: Result<(), EscrowError>,
    by: Party,
) -> bool {
    let raiser = pre.instance.party(by)->0;
    &&& r == Err::<(), _>(EscrowError::NotInitialized) <==> pre.instance.state is None
    &&& r == Err::<(), _>(EscrowError::InvalidState) <==> pre.instance.state is Some
        && !pre.instance.active()
    &&& r is Ok <==> pre.instance.active()
    &&& r is Err ==> post == pre
    &&& r is Ok ==> post == pre.storing(
        Instance { state: Some(EscrowState::Disputed), ..pre.instance },
    ).asking(
        seq![
            Effect::RequireAuth { address: raiser },
            kept_alive(),
            Effect::Publish { event: Event::DisputeRaised { raiser } },
        ],
    )
}

/// Who gets paid is on record, in a call that pays.
pub open spec fn resolve_dispute_ready(pre: EnvView, release_to_seller: bool) -> bool {
    pre.instance.arbiter is Some && pre.instance.state == Some(EscrowState::Disputed) ==> payable(
        pre.instance,
        if release_to_seller {
            pre.instance.seller
        } else {
            pre.instance.buyer
        },
    )
}

/// The arbiter sends what is held to the seller or to the buyer.
pub open spec fn resolve_dispute_step(
    pre: EnvView,
    post: EnvView,
    r: Result<(), EscrowError>,
    release_to_seller: bool,
) -> bool {
    let signed = pre.asking(signature(pre.instance.arbiter));
    &&& guarded(pre, post, r, pre.instance.arbiter, EscrowState::Disputed)
    &&& r is Ok ==> post == if release_to_seller {
        released(signed)
    } else {
        refunded(signed)
    }
}

/// Who gets paid, with what and out of how much is on record, and what is left
/// can be counted, in a call that looks at these.
pub open spec fn release_partial_ready(pre: EnvView, amount: i128) -> bool {
    pre.instance.buyer is Some && pre.instance.active() ==> {
        &&& pre.instance.amount is Some
        &&& amount <= pre.instance.amount->0 ==> {
            &&& payable(pre.instance, pre.instance.seller)
            &&& pre.instance.amount->0 - amount <= i128::MAX
        }
    }
}

/// The buyer lets the seller have a part of what is held.
pub open spec fn release_partial_step(
    pre: EnvView,
    post: EnvView,
    r: Result<(), EscrowError>,
    amount: i128,
) -> bool {
    let buyer = pre.instance.buyer;
    let seller = pre.instance.seller->0;
    let held = pre.instance.amount->0;
    let open = buyer is Some && pre.instance.active();
    &&& r == Err::<(), _>(EscrowError::NotInitialized) <==> buyer is None
        || pre.instance.state is None
    &&& r == Err::<(), _>(EscrowError::InvalidState) <==> buyer is Some && pre.instance.state is Some
        && !pre.instance.active()
    &&& r == Err::<(), _>(EscrowError::InsufficientFunds) <==> open && amount > held
    &&& r is Ok <==> open && amount <= held
    &&& r is Err ==> post == pre.asking(signature(buyer))
    &&& r is Ok ==> post == pre.storing(
        Instance { amount: Some((held - amount) as i128), ..pre.instance },
    ).asking(
        seq![
            Effect::RequireAuth { address: buyer->0 },
            Effect::Transfer {
                token: pre.instance.token_contract->0,
                from: pre.contract,
                to: seller,
                amount,
            },
            kept_alive(),
            Effect::Publish { event: Event::PartialReleased { seller, amount } },
        ],
    )
}

/// The buyer calls off an escrow that was not funded.
pub open spec fn cancel_step(pre: EnvView, post: EnvView, r: Result<(), EscrowError>) -> bool {
    &&& guarded(pre, post, r, pre.instance.buyer, EscrowState::Created)
    &&& r is Ok ==> post == pre.storing(
        Instance { state: Some(EscrowState::Cancelled), ..pre.instance },
    ).asking(seq![Effect::RequireAuth { address: pre.instance.buyer->0 }, kept_alive()])
}

/// Anyone keeps the storage of an escrow alive.
pub open spec fn bump_step(pre: EnvView, post: EnvView, r: Result<(), EscrowError>) -> bool {
    if pre.instance.state is None {
        r == Err::<(), _>(EscrowError::NotInitialized) && post == pre
    } else {
        r is Ok && post == pre.asking(seq![kept_alive()])
    }
}

/// The administrator marks the contract as paused.
pub open spec fn pause_step(pre: EnvView, post: EnvView, r: Result<(), EscrowError>) -> bool {
    match pre.instance.admin {
        None => r == Err::<(), _>(EscrowError::NotInitialized) && post == pre,
        Some(admin) => r is Ok && post == pre.storing(
            Instance { paused: Some(true), ..pre.instance },
        ).asking(seq![Effect::RequireAuth { address: admin }, kept_alive()]),
    }
}

/// The administrator replaces the contract's code.
pub open spec fn upgrade_step(
    pre: EnvView,
    post: EnvView,
    r: Result<(), EscrowError>,
    new_wasm_hash: [u8; 32],
) -> bool {
    match pre.instance.admin {
        None => r == Err::<(), _>(EscrowError::NotInitialized) && post == pre,
        Some(admin) => r is Ok && post == pre.asking(
            seq![
                Effect::RequireAuth { address: admin },
                Effect::UpdateWasm { hash: new_wasm_hash },
            ],
        ),
    }
}

/// Everything that is shown to clients is stored.
pub open spec fn info_ready(instance: Instance) -> bool {
    &&& instance.buyer is Some
    &&& instance.seller is Some
    &&& instance.arbiter is Some
    &&& instance.token_contract is Some
    &&& instance.amount is Some
    &&& instance.deadline is Some
    &&& instance.state is Some
}

/// What clients are shown of an escrow.
pub open spec fn info(instance: Instance) -> EscrowInfo {
    EscrowInfo {
        buyer: instance.buyer->0,
        seller: instance.seller->0,
        arbiter: instance.arbiter->0,
        token_contract: instance.token_contract->0,
        amount: instance.amount->0,
        deadline: instance.deadline->0,
        state: instance.state->0,
    }
}

/// The call finds all that it reads.
pub open spec fn ready(call: Call, pre: EnvView) -> bool {
    match call {
        Call::Initialize { buyer, seller, arbiter, amount, .. } => initialize_ready(
            pre,
            buyer,
            seller,
            arbiter,
            amount,
        ),
        Call::Fund => fund_ready(pre),
        Call::ApproveDelivery => approve_delivery_ready(pre),
        Call::RequestRefund => request_refund_ready(pre),
        Call::RaiseDispute { by } => raise_dispute_ready(pre, by),
        Call::ResolveDispute { release_to_seller } => resolve_dispute_ready(pre, release_to_seller),
        Call::ReleasePartial { amount } => release_partial_ready(pre, amount),
        Call::MarkDelivered | Call::Cancel | Call::Bump | Call::Pause | Call::Upgrade { .. } => true,
    }
}

/// The call takes `pre` to `post` and answers `r`.
pub open spec fn step(call: Call, pre: EnvView, post: EnvView, r: Result<(), EscrowError>) -> bool {
    match call {
        Call::Initialize { buyer, seller, arbiter, token_contract, amount, deadline_ledger } =>
            initialize_step(
            pre,
            post,
            r,
            buyer,
            seller,
            arbiter,
            token_contract,
            amount,
            deadline_ledger,
        ),
        Call::Fund => fund_step(pre, post, r),
        Call::MarkDelivered => mark_delivered_step(pre, post, r),
        Call::ApproveDelivery => approve_delivery_step(pre, post, r),
        Call::RequestRefund => request_refund_step(pre, post, r),
        Call::RaiseDispute { by } => raise_dispute_step(pre, post, r, by),
        Call::ResolveDispute { release_to_seller } => resolve_dispute_step(
            pre,
            post,
            r,
            release_to_seller,
        ),
        Call::ReleasePartial { amount } => release_partial_step(pre, post, r, amount),
        Call::Cancel => cancel_step(pre, post, r),
        Call::Bump => bump_step(pre, post, r),
        Call::Pause => pause_step(pre, post, r),
        Call::Upgrade { new_wasm_hash } => upgrade_step(pre, post, r, new_wasm_hash),
    }
}

} // verus!
