//! What holds of the contract as a whole.
//!
//! The laws speak of `model::step`, the relation that every entry point is proved to
//! keep, and of histories: sequences of steps from a contract that was never
//! called.
use crate::address::Address;
use crate::env::{Effect, EnvView};
use crate::errors::EscrowError;
use crate::model::Call;
use crate::storage::{EscrowState, Instance, Party};
use vstd::prelude::*;

verus! {

// ---------------------------------------------------------------------------
// One call
// ---------------------------------------------------------------------------

/// What the call has asked of the host, in order.
pub open spec fn added(pre: EnvView, post: EnvView) -> Seq<Effect> {
    post.effects.skip(pre.effects.len() as int)
}

/// Whose signature the call needs, by what is stored.
pub open spec fn signer(call: Call, instance: Instance) -> Option<Address> {
    match call {
        Call::Initialize { .. } | Call::Bump => None,
        Call::Fund
        | Call::ApproveDelivery
        | Call::RequestRefund
        | Call::ReleasePartial { .. }
        | Call::Cancel => instance.buyer,
        Call::MarkDelivered => instance.seller,
        Call::RaiseDispute { by } => instance.party(by),
        Call::ResolveDispute { .. } => instance.arbiter,
        Call::Pause | Call::Upgrade { .. } => instance.admin,
    }
}

/// Effects are only ever appended, and neither the ledger's number nor the
/// contract's address changes within a call.
pub proof fn law_requests_are_kept(
    call: Call,
    pre: EnvView,
    post: EnvView,
    r: Result<(), EscrowError>,
)
    requires
        crate::model::step(call, pre, post, r),
    ensures
        post.effects == pre.effects + added(pre, post),
        post.sequence == pre.sequence,
        post.contract == pre.contract,
{
    assert(post.effects =~= pre.effects + added(pre, post));
}

/// A refused call leaves what is stored as it was, and has asked the host for
/// nothing but the signature of whoever may make the call.
pub proof fn law_refusal_changes_nothing(
    call: Call,
    pre: EnvView,
    post: EnvView,
    r: Result<(), EscrowError>,
)
    requires
        crate::model::step(call, pre, post, r),
        r is Err,
    ensures
        post.instance == pre.instance,
        added(pre, post) == Seq::<Effect>::empty() || added(pre, post)
            == crate::model::signature(signer(call, pre.instance)),
{
    if added(pre, post).len() == 0 {
        assert(added(pre, post) =~= Seq::<Effect>::empty());
    } else {
        assert(added(pre, post) =~= crate::model::signature(signer(call, pre.instance)));
    }
}

/// A call that succeeds, other than the one that sets the escrow up and the
/// one that anyone may make, starts by asking for the signature of the role
/// that it belongs to, and asks for no other.
pub proof fn law_success_is_signed(
    call: Call,
    pre: EnvView,
    post: EnvView,
    r: Result<(), EscrowError>,
)
    requires
        crate::model::ready(call, pre),
        crate::model::step(call, pre, post, r),
        r is Ok,
    ensures
        !(call is Initialize || call is Bump) ==> {
            &&& signer(call, pre.instance) is Some
            &&& added(pre, post).len() > 0
            &&& added(pre, post)[0] == (Effect::RequireAuth {
                address: signer(call, pre.instance)->0,
            })
        },
        forall|k: int|
            0 <= k < added(pre, post).len() && (#[trigger] added(pre, post)[k]) is RequireAuth
                ==> k == 0 && !(call is Initialize || call is Bump),
{
}

/// Tokens move in two ways only: from the buyer to the contract when the buyer
/// funds the escrow, and from the contract to the seller or to the buyer. It is
/// always the token that the escrow is about.
pub proof fn law_tokens_stay_among_the_parties(
    call: Call,
    pre: EnvView,
    post: EnvView,
    r: Result<(), EscrowError>,
    k: int,
)
    requires
        pre.instance.well_formed(),
        crate::model::step(call, pre, post, r),
        0 <= k < added(pre, post).len(),
        added(pre, post)[k] is Transfer,
    ensures
        r is Ok,
        added(pre, post)[k] matches Effect::Transfer { token, from, to, amount } && {
            &&& pre.instance.token_contract == Some(token)
            &&& {
                ||| call is Fund && pre.instance.buyer == Some(from) && to == pre.contract
                    && pre.instance.amount == Some(amount)
                ||| from == pre.contract && pre.instance.seller == Some(to)
                ||| from == pre.contract && pre.instance.buyer == Some(to) && pre.instance.amount
                    == Some(amount)
            }
        },
{
}

/// Every successful call but an upgrade extends the life of the storage, once.
pub proof fn law_success_keeps_storage_alive(
    call: Call,
    pre: EnvView,
    post: EnvView,
    r: Result<(), EscrowError>,
)
    requires
        crate::model::step(call, pre, post, r),
        r is Ok,
    ensures
        !(call is Upgrade) <==> exists|k: int|
            0 <= k < added(pre, post).len() && (#[trigger] added(pre, post)[k])
                == crate::model::kept_alive(),
        forall|j: int, k: int|
            0 <= j < added(pre, post).len() && 0 <= k < added(pre, post).len() && (
            #[trigger] added(pre, post)[j]) is ExtendTtl && (#[trigger] added(pre, post)[k]) is ExtendTtl
                ==> j == k,
{
    let a = added(pre, post);
    if !(call is Upgrade) {
        assert(a.len() <= 4);
        assert(a.len() > 0 && a[0] == crate::model::kept_alive() || a.len() > 1 && a[1]
            == crate::model::kept_alive() || a.len() > 2 && a[2] == crate::model::kept_alive());
    }
}

// ---------------------------------------------------------------------------
// What is stored
// ---------------------------------------------------------------------------

/// No call breaks up what is stored together, and none makes the amount
/// negative.
pub proof fn law_storage_stays_well_formed(
    call: Call,
    pre: EnvView,
    post: EnvView,
    r: Result<(), EscrowError>,
)
    requires
        pre.instance.well_formed(),
        crate::model::ready(call, pre),
        crate::model::step(call, pre, post, r),
    ensures
        post.instance.well_formed(),
{
}

/// On well-formed storage a call finds all that it reads. What remains is
/// arithmetic: an escrow set up at a ledger so late that the buffer after it
/// cannot be numbered, and a release of a negative amount so large that the rest
/// cannot be counted.
pub proof fn law_calls_find_what_they_read(call: Call, pre: EnvView)
    requires
        pre.instance.well_formed(),
        call is Initialize && pre.instance.state is None ==> pre.sequence
            + crate::model::MIN_DEADLINE_BUFFER <= u32::MAX,
        call matches Call::ReleasePartial { amount } ==> (pre.instance.active()
            ==> pre.instance.amount->0 - amount <= i128::MAX),
    ensures
        crate::model::ready(call, pre),
        pre.instance.state is Some ==> crate::model::info_ready(pre.instance),
{
}

/// An escrow is set up once: setting it up again is refused, and no call makes
/// the contract forget that it was set up.
pub proof fn law_initialized_once(
    call: Call,
    pre: EnvView,
    post: EnvView,
    r: Result<(), EscrowError>,
)
    requires
        crate::model::step(call, pre, post, r),
    ensures
        call is Initialize && r is Ok ==> pre.instance.state is None && post.instance.state is Some,
        call is Initialize && pre.instance.state is Some ==> r == Err::<(), _>(
            EscrowError::AlreadyInitialized,
        ),
        pre.instance.state is Some ==> post.instance.state is Some,
{
}

/// Once set up, the roles, the token and the deadline never change; the amount
/// changes by a partial release alone, and then by what was released.
pub proof fn law_terms_are_fixed(
    call: Call,
    pre: EnvView,
    post: EnvView,
    r: Result<(), EscrowError>,
)
    requires
        pre.instance.state is Some,
        crate::model::ready(call, pre),
        crate::model::step(call, pre, post, r),
    ensures
        post.instance.buyer == pre.instance.buyer,
        post.instance.seller == pre.instance.seller,
        post.instance.arbiter == pre.instance.arbiter,
        post.instance.token_contract == pre.instance.token_contract,
        post.instance.deadline == pre.instance.deadline,
        post.instance.amount == pre.instance.amount || call is ReleasePartial,
        call matches Call::ReleasePartial { amount } ==> (r is Ok ==> post.instance.amount is Some
            && post.instance.amount->0 == pre.instance.amount->0 - amount),
        r is Err ==> post.instance.amount == pre.instance.amount,
{
}

/// The administrator is never changed by a call, and only a call signed by the
/// administrator pauses the contract.
pub proof fn law_administration(
    call: Call,
    pre: EnvView,
    post: EnvView,
    r: Result<(), EscrowError>,
)
    requires
        crate::model::step(call, pre, post, r),
    ensures
        post.instance.admin == pre.instance.admin,
        post.instance.paused == pre.instance.paused || call is Pause && r is Ok
            && post.instance.paused == Some(true),
        call is Pause || call is Upgrade ==> post.instance == (Instance {
            paused: post.instance.paused,
            ..pre.instance
        }),
        (call is Pause || call is Upgrade) && pre.instance.admin is None ==> r is Err,
{
}

/// One step along the life of an escrow.
pub open spec fn leads_to(from: EscrowState, to: EscrowState) -> bool {
    match from {
        EscrowState::Created => to is Funded || to is Cancelled,
        EscrowState::Funded => to is Delivered || to is Refunded || to is Disputed,
        EscrowState::Delivered => to is Completed || to is Refunded || to is Disputed,
        EscrowState::Disputed => to is Completed || to is Refunded,
        EscrowState::Completed | EscrowState::Refunded | EscrowState::Cancelled => false,
    }
}

/// The call that takes an escrow from one state to another.
pub open spec fn moved_by(call: Call, from: EscrowState, to: EscrowState) -> bool {
    match call {
        Call::Fund => from is Created && to is Funded,
        Call::Cancel => from is Created && to is Cancelled,
        Call::MarkDelivered => from is Funded && to is Delivered,
        Call::ApproveDelivery => from is Delivered && to is Completed,
        Call::RequestRefund => (from is Funded || from is Delivered) && to is Refunded,
        Call::RaiseDispute { .. } => (from is Funded || from is Delivered) && to is Disputed,
        Call::ResolveDispute { release_to_seller } => from is Disputed && if release_to_seller {
            to is Completed
        } else {
            to is Refunded
        },
        _ => false,
    }
}

/// An escrow starts as created, moves along its life only, and each move has
/// its own call.
pub proof fn law_lifecycle(call: Call, pre: EnvView, post: EnvView, r: Result<(), EscrowError>)
    requires
        crate::model::step(call, pre, post, r),
    ensures
        pre.instance.state is None && post.instance.state is Some ==> call is Initialize
            && post.instance.state == Some(EscrowState::Created),
        pre.instance.state is Some && post.instance.state != pre.instance.state ==> {
            &&& post.instance.state is Some
            &&& leads_to(pre.instance.state->0, post.instance.state->0)
            &&& moved_by(call, pre.instance.state->0, post.instance.state->0)
        },
{
}

/// In a settled escrow nothing happens to the trade any more: every call of a
/// party or of the arbiter is refused, no tokens move, and the state and the
/// terms stay.
pub proof fn law_settled_is_final(
    call: Call,
    pre: EnvView,
    post: EnvView,
    r: Result<(), EscrowError>,
)
    requires
        pre.instance.settled(),
        crate::model::step(call, pre, post, r),
    ensures
        !(call is Bump || call is Pause || call is Upgrade) ==> r is Err,
        post.instance == (Instance { paused: post.instance.paused, ..pre.instance }),
        forall|k: int|
            0 <= k < added(pre, post).len() ==> !((#[trigger] added(pre, post)[k]) is Transfer),
{
}

// ---------------------------------------------------------------------------
// Reading
// ---------------------------------------------------------------------------

/// Clients are shown the terms that an escrow was set up with, in state
/// `Created`.
pub proof fn law_terms_read_back(
    pre: EnvView,
    post: EnvView,
    r: Result<(), EscrowError>,
    buyer: Address,
    seller: Address,
    arbiter: Address,
    token_contract: Address,
    amount: i128,
    deadline_ledger: u32,
)
    requires
        crate::model::initialize_step(
            pre,
            post,
            r,
            buyer,
            seller,
            arbiter,
            token_contract,
            amount,
            deadline_ledger,
        ),
        r is Ok,
    ensures
        crate::model::info_ready(post.instance),
        crate::model::info(post.instance) == (crate::storage::EscrowInfo {
            buyer,
            seller,
            arbiter,
            token_contract,
            amount,
            deadline: deadline_ledger,
            state: EscrowState::Created,
        }),
{
}

/// While tokens are held and no dispute is open, the buyer gets a refund
/// exactly when the deadline reads as passed.
pub proof fn law_refund_follows_deadline(pre: EnvView, post: EnvView, r: Result<(), EscrowError>)
    requires
        pre.instance.well_formed(),
        pre.instance.active(),
        crate::model::request_refund_step(pre, post, r),
    ensures
        r is Ok <==> crate::model::past_deadline(pre),
        r is Err ==> r == Err::<(), _>(EscrowError::DeadlineNotReached),
{
}

/// The deadline of a new escrow does not read as passed at the ledger it was
/// set up at, nor for the length of the buffer after it.
pub proof fn law_deadline_lies_ahead(
    call: Call,
    pre: EnvView,
    post: EnvView,
    r: Result<(), EscrowError>,
    later: EnvView,
)
    requires
        call is Initialize,
        crate::model::step(call, pre, post, r),
        r is Ok,
        later.instance.deadline == post.instance.deadline,
        later.sequence <= pre.sequence + crate::model::MIN_DEADLINE_BUFFER,
    ensures
        !crate::model::past_deadline(later),
{
}

/// Once passed, a deadline stays passed.
pub proof fn law_deadline_stays_passed(now: EnvView, later: EnvView)
    requires
        crate::model::past_deadline(now),
        later.instance.deadline == now.instance.deadline,
        later.sequence >= now.sequence,
    ensures
        crate::model::past_deadline(later),
{
}

// ---------------------------------------------------------------------------
// Holdings
// ---------------------------------------------------------------------------

// Balances count the transfers that this contract asks for. What holders have
// from elsewhere, or move among themselves, does not enter into them.

/// What an effect adds to the holder's balance of a token.
pub open spec fn flow(token: Address, holder: Address, effect: Effect) -> int {
    match effect {
        Effect::Transfer { token: moved, from, to, amount } => if moved != token {
            0
        } else {
            (if to == holder {
                amount as int
            } else {
                0
            }) - (if from == holder {
                amount as int
            } else {
                0
            })
        },
        _ => 0,
    }
}

/// What a series of effects adds to the holder's balance of a token.
pub open spec fn net(token: Address, holder: Address, effects: Seq<Effect>) -> int
    decreases effects.len(),
{
    if effects.len() == 0 {
        0
    } else {
        net(token, holder, effects.drop_last()) + flow(token, holder, effects.last())
    }
}

/// What the escrow has to pay out, of a token.
pub open spec fn owed(token: Address, instance: Instance) -> int {
    if instance.token_contract == Some(token) && (instance.active() || instance.state == Some(
        EscrowState::Disputed,
    )) {
        instance.amount->0 as int
    } else {
        0
    }
}

/// The contract does not trade with itself.
pub open spec fn at_arms_length(contract: Address, instance: Instance) -> bool {
    instance.buyer != Some(contract) && instance.seller != Some(contract)
}

proof fn lemma_net_append(token: Address, holder: Address, a: Seq<Effect>, b: Seq<Effect>)
    ensures
        net(token, holder, a + b) == net(token, holder, a) + net(token, holder, b),
    decreases b.len(),
{
    if b.len() == 0 {
        assert(a + b =~= a);
    } else {
        lemma_net_append(token, holder, a, b.drop_last());
        assert((a + b).drop_last() =~= a + b.drop_last());
    }
}

/// The flow of the effect at place `k`, if there is one.
spec fn flow_at(token: Address, holder: Address, s: Seq<Effect>, k: int) -> int {
    if k < s.len() {
        flow(token, holder, s[k])
    } else {
        0
    }
}

proof fn lemma_net_few(token: Address, holder: Address, s: Seq<Effect>)
    requires
        s.len() <= 4,
    ensures
        net(token, holder, s) == flow_at(token, holder, s, 0) + flow_at(token, holder, s, 1)
            + flow_at(token, holder, s, 2) + flow_at(token, holder, s, 3),
    decreases s.len(),
{
    if s.len() > 0 {
        lemma_net_few(token, holder, s.drop_last());
    }
}

/// What a call does to the balance of a holder, effect by effect.
proof fn lemma_call_flows(
    call: Call,
    pre: EnvView,
    post: EnvView,
    r: Result<(), EscrowError>,
    token: Address,
    holder: Address,
)
    requires
        crate::model::step(call, pre, post, r),
    ensures
        added(pre, post).len() <= 4,
        net(token, holder, post.effects) == net(token, holder, pre.effects) + flow_at(
            token,
            holder,
            added(pre, post),
            0,
        ) + flow_at(token, holder, added(pre, post), 1) + flow_at(
            token,
            holder,
            added(pre, post),
            2,
        ) + flow_at(token, holder, added(pre, post), 3),
{
    law_requests_are_kept(call, pre, post, r);
    assert(added(pre, post).len() <= 4);
    lemma_net_append(token, holder, pre.effects, added(pre, post));
    lemma_net_few(token, holder, added(pre, post));
}

proof fn lemma_net_still(token: Address, holder: Address, s: Seq<Effect>)
    requires
        forall|k: int| 0 <= k < s.len() ==> !((#[trigger] s[k]) is Transfer),
    ensures
        net(token, holder, s) == 0,
    decreases s.len(),
{
    if s.len() > 0 {
        assert(!(s[s.len() - 1] is Transfer));
        lemma_net_still(token, holder, s.drop_last());
    }
}

/// As long as the contract is neither buyer nor seller, its balance of every token
/// moves with what the escrow owes: what a call takes in or pays out is what it
/// adds to the debt or takes off it.
pub proof fn law_holdings_move_with_debt(
    call: Call,
    pre: EnvView,
    post: EnvView,
    r: Result<(), EscrowError>,
    token: Address,
)
    requires
        pre.instance.well_formed(),
        at_arms_length(pre.contract, pre.instance),
        crate::model::ready(call, pre),
        crate::model::step(call, pre, post, r),
    ensures
        net(token, post.contract, post.effects) - net(token, pre.contract, pre.effects) == owed(
            token,
            post.instance,
        ) - owed(token, pre.instance),
{
    lemma_call_flows(call, pre, post, r, token, pre.contract);
}

/// Two partial releases come to the same as one of both amounts: the same is
/// left, and every holder, the seller among them, was paid the same.
pub proof fn law_partial_releases_add_up(
    pre: EnvView,
    mid: EnvView,
    post: EnvView,
    once: EnvView,
    r: Result<(), EscrowError>,
    first: i128,
    second: i128,
    token: Address,
    holder: Address,
)
    requires
        i128::MIN <= first + second <= i128::MAX,
        crate::model::release_partial_ready(pre, first),
        crate::model::release_partial_step(pre, mid, Ok(()), first),
        crate::model::release_partial_ready(mid, second),
        crate::model::release_partial_step(mid, post, Ok(()), second),
        crate::model::release_partial_ready(pre, (first + second) as i128),
        crate::model::release_partial_step(pre, once, r, (first + second) as i128),
    ensures
        r is Ok,
        once.instance == post.instance,
        net(token, holder, once.effects) == net(token, holder, post.effects),
{
    lemma_release_flows(pre, mid, first, token, holder);
    lemma_release_flows(mid, post, second, token, holder);
    lemma_release_flows(pre, once, (first + second) as i128, token, holder);
}

/// A partial release is one transfer, from the contract to the seller.
proof fn lemma_release_flows(
    pre: EnvView,
    post: EnvView,
    amount: i128,
    token: Address,
    holder: Address,
)
    requires
        crate::model::release_partial_step(pre, post, Ok(()), amount),
    ensures
        net(token, holder, post.effects) == net(token, holder, pre.effects) + flow(
            token,
            holder,
            Effect::Transfer {
                token: pre.instance.token_contract->0,
                from: pre.contract,
                to: pre.instance.seller->0,
                amount,
            },
        ),
{
    lemma_call_flows(Call::ReleasePartial { amount }, pre, post, Ok(()), token, holder);
}

// ---------------------------------------------------------------------------
// Histories
// ---------------------------------------------------------------------------

/// One finished call in the life of the contract.
pub struct Turn {
    pub call: Call,
    pub pre: EnvView,
    pub post: EnvView,
    pub answer: Result<(), EscrowError>,
}

impl Turn {
    /// The call ran, and did what calls do.
    pub open spec fn ran(self) -> bool {
        crate::model::ready(self.call, self.pre) && crate::model::step(
            self.call,
            self.pre,
            self.post,
            self.answer,
        )
    }

    /// If it sets up the escrow, the contract is neither buyer nor seller.
    pub open spec fn trades_at_arms_length(self) -> bool {
        self.call matches Call::Initialize { buyer, seller, .. } ==> buyer != self.pre.contract
            && seller != self.pre.contract
    }
}

/// The second call finds what the first one left; ledgers may have closed in
/// between.
pub open spec fn followed_by(earlier: EnvView, later: EnvView) -> bool {
    &&& later.instance == earlier.instance
    &&& later.contract == earlier.contract
    &&& later.effects == earlier.effects
    &&& later.sequence >= earlier.sequence
}

/// No escrow was set up, and nothing was asked of the host.
pub open spec fn untouched(env: EnvView) -> bool {
    &&& env.instance == (Instance {
        admin: env.instance.admin,
        paused: env.instance.paused,
        ..Instance::spec_empty()
    })
    &&& env.effects == Seq::<Effect>::empty()
}

/// The call at place `i` ran.
pub open spec fn ran_at(turns: Seq<Turn>, i: int) -> bool {
    turns[i].ran()
}

/// The call at place `i` finds what the one before it left.
pub open spec fn linked_at(turns: Seq<Turn>, i: int) -> bool {
    followed_by(turns[i - 1].post, turns[i].pre)
}

/// The finished calls of a contract, from the first one on.
pub open spec fn history(turns: Seq<Turn>) -> bool {
    &&& turns.len() > 0 ==> untouched(turns[0].pre)
    &&& forall|i: int| 0 <= i < turns.len() ==> #[trigger] ran_at(turns, i)
    &&& forall|i: int| 0 < i < turns.len() ==> #[trigger] linked_at(turns, i)
}

/// No escrow in the history has the contract as its buyer or seller.
pub open spec fn all_at_arms_length(turns: Seq<Turn>) -> bool {
    forall|i: int| 0 <= i < turns.len() ==> (#[trigger] turns[i].trades_at_arms_length())
}

/// A history, looked at in one place.
proof fn lemma_turn(turns: Seq<Turn>, i: int)
    requires
        history(turns),
        0 <= i < turns.len(),
    ensures
        turns[i].ran(),
        i == 0 ==> untouched(turns[i].pre),
        i > 0 ==> followed_by(turns[i - 1].post, turns[i].pre),
{
    assert(ran_at(turns, i));
    if i > 0 {
        assert(linked_at(turns, i));
    }
}

/// Whatever has happened to a contract, its storage is well-formed.
pub proof fn law_history_is_well_formed(turns: Seq<Turn>, i: int)
    requires
        history(turns),
        0 <= i < turns.len(),
    ensures
        turns[i].pre.instance.well_formed(),
        turns[i].post.instance.well_formed(),
    decreases i,
{
    let turn = turns[i];
    lemma_turn(turns, i);
    if i > 0 {
        law_history_is_well_formed(turns, i - 1);
    }
    law_storage_stays_well_formed(turn.call, turn.pre, turn.post, turn.answer);
}

proof fn lemma_history_at_arms_length(turns: Seq<Turn>, i: int)
    requires
        history(turns),
        all_at_arms_length(turns),
        0 <= i < turns.len(),
    ensures
        at_arms_length(turns[i].pre.contract, turns[i].pre.instance),
        at_arms_length(turns[i].post.contract, turns[i].post.instance),
    decreases i,
{
    lemma_turn(turns, i);
    assert(turns[i].trades_at_arms_length());
    if i > 0 {
        lemma_history_at_arms_length(turns, i - 1);
    }
}

/// As long as the contract is neither buyer nor seller, it holds of every token
/// what the escrow still has to pay out, no more and no less, whatever has
/// happened: the amount, less what was released in part, while the escrow is
/// funded, delivered or disputed, and nothing before and after.
pub proof fn law_history_is_solvent(turns: Seq<Turn>, i: int, token: Address)
    requires
        history(turns),
        all_at_arms_length(turns),
        0 <= i < turns.len(),
    ensures
        net(token, turns[i].post.contract, turns[i].post.effects) == owed(
            token,
            turns[i].post.instance,
        ),
    decreases i,
{
    let turn = turns[i];
    lemma_turn(turns, i);
    if i > 0 {
        law_history_is_solvent(turns, i - 1, token);
    }
    law_history_is_well_formed(turns, i);
    lemma_history_at_arms_length(turns, i);
    law_holdings_move_with_debt(turn.call, turn.pre, turn.post, turn.answer, token);
}

/// An escrow is settled once: from then on its state and terms stay, and no call
/// moves anybody's balance.
pub proof fn law_history_settles_once(
    turns: Seq<Turn>,
    i: int,
    j: int,
    token: Address,
    holder: Address,
)
    requires
        history(turns),
        0 <= i <= j < turns.len(),
        turns[i].post.instance.settled(),
    ensures
        turns[j].post.contract == turns[i].post.contract,
        turns[j].post.instance == (Instance {
            paused: turns[j].post.instance.paused,
            ..turns[i].post.instance
        }),
        net(token, holder, turns[j].post.effects) == net(token, holder, turns[i].post.effects),
    decreases j - i,
{
    if i < j {
        law_history_settles_once(turns, i, j - 1, token, holder);
        let turn = turns[j];
        lemma_turn(turns, j);
        law_settled_is_final(turn.call, turn.pre, turn.post, turn.answer);
        law_requests_are_kept(turn.call, turn.pre, turn.post, turn.answer);
        let a = added(turn.pre, turn.post);
        lemma_net_append(token, holder, turn.pre.effects, a);
        lemma_net_still(token, holder, a);
    }
}

/// At most one call in a contract's history sets up an escrow.
pub proof fn law_history_initializes_once(turns: Seq<Turn>, i: int, j: int)
    requires
        history(turns),
        0 <= i < j < turns.len(),
        turns[i].call is Initialize,
        turns[i].answer is Ok,
        turns[j].call is Initialize,
    ensures
        turns[j].answer == Err::<(), _>(EscrowError::AlreadyInitialized),
{
    lemma_turn(turns, i);
    lemma_turn(turns, j);
    lemma_history_stays_initialized(turns, i, j);
}

proof fn lemma_history_stays_initialized(turns: Seq<Turn>, i: int, j: int)
    requires
        history(turns),
        0 <= i < j < turns.len(),
        turns[i].post.instance.state is Some,
    ensures
        turns[j].pre.instance.state is Some,
    decreases j - i,
{
    lemma_turn(turns, j);
    if i < j - 1 {
        lemma_history_stays_initialized(turns, i, j - 1);
        let turn = turns[j - 1];
        lemma_turn(turns, j - 1);
        law_initialized_once(turn.call, turn.pre, turn.post, turn.answer);
    }
}

/// Once set up, an escrow keeps the roles, the token and the deadline that it was
/// set up with, for good, and the amount until it is funded.
pub proof fn law_history_keeps_the_terms(turns: Seq<Turn>, i: int, j: int)
    requires
        history(turns),
        0 <= i <= j < turns.len(),
        turns[i].call is Initialize,
        turns[i].answer is Ok,
    ensures
        turns[i].call matches Call::Initialize {
            buyer,
            seller,
            arbiter,
            token_contract,
            amount,
            deadline_ledger,
        } && {
            &&& turns[j].post.instance.buyer == Some(buyer)
            &&& turns[j].post.instance.seller == Some(seller)
            &&& turns[j].post.instance.arbiter == Some(arbiter)
            &&& turns[j].post.instance.token_contract == Some(token_contract)
            &&& turns[j].post.instance.deadline == Some(deadline_ledger)
            &&& turns[j].post.instance.state == Some(EscrowState::Created)
                ==> turns[j].post.instance.amount == Some(amount)
        },
    decreases j - i,
{
    let turn = turns[j];
    lemma_turn(turns, j);
    if i < j {
        law_history_keeps_the_terms(turns, i, j - 1);
        lemma_turn(turns, i);
        lemma_history_stays_initialized(turns, i, j);
        law_terms_are_fixed(turn.call, turn.pre, turn.post, turn.answer);
        law_lifecycle(turn.call, turn.pre, turn.post, turn.answer);
    }
}

/// In every escrow that was ever set up, buyer, seller and arbiter are three
/// different addresses.
pub proof fn law_history_keeps_the_roles_apart(turns: Seq<Turn>, i: int)
    requires
        history(turns),
        0 <= i < turns.len(),
    ensures
        turns[i].post.instance.state is Some ==> crate::model::distinct(
            turns[i].post.instance.buyer->0,
            turns[i].post.instance.seller->0,
            turns[i].post.instance.arbiter->0,
        ),
    decreases i,
{
    let turn = turns[i];
    lemma_turn(turns, i);
    if i > 0 {
        law_history_keeps_the_roles_apart(turns, i - 1);
    }
    if turn.pre.instance.state is Some {
        law_terms_are_fixed(turn.call, turn.pre, turn.post, turn.answer);
    } else {
        law_lifecycle(turn.call, turn.pre, turn.post, turn.answer);
    }
}

proof fn lemma_history_leaves_created(turns: Seq<Turn>, i: int, j: int)
    requires
        history(turns),
        0 <= i < j < turns.len(),
        turns[i].post.instance.state is Some,
        turns[i].post.instance.state != Some(EscrowState::Created),
    ensures
        turns[j].pre.instance.state is Some,
        turns[j].pre.instance.state != Some(EscrowState::Created),
    decreases j - i,
{
    lemma_turn(turns, j);
    if i < j - 1 {
        lemma_history_leaves_created(turns, i, j - 1);
        let turn = turns[j - 1];
        lemma_turn(turns, j - 1);
        law_initialized_once(turn.call, turn.pre, turn.post, turn.answer);
        law_lifecycle(turn.call, turn.pre, turn.post, turn.answer);
    }
}

/// An escrow is funded once, or called off instead: after either, every call to
/// fund it or to call it off is refused for its state, and moves no tokens.
pub proof fn law_history_funds_once(turns: Seq<Turn>, i: int, j: int)
    requires
        history(turns),
        0 <= i < j < turns.len(),
        turns[i].call is Fund || turns[i].call is Cancel,
        turns[i].answer is Ok,
        turns[j].call is Fund || turns[j].call is Cancel,
    ensures
        turns[j].answer == Err::<(), _>(EscrowError::InvalidState),
        turns[j].post.instance == turns[j].pre.instance,
        forall|k: int|
            0 <= k < added(turns[j].pre, turns[j].post).len() ==> !((#[trigger] added(
                turns[j].pre,
                turns[j].post,
            )[k]) is Transfer),
{
    lemma_turn(turns, i);
    lemma_turn(turns, j);
    lemma_history_leaves_created(turns, i, j);
    law_history_is_well_formed(turns, j);
}

/// What a turn releases in part.
pub open spec fn part(turn: Turn) -> int {
    match turn.call {
        Call::ReleasePartial { amount } => if turn.answer is Ok {
            amount as int
        } else {
            0
        },
        _ => 0,
    }
}

/// What the turns from one place up to another release in part, all told.
pub open spec fn released_in_part(turns: Seq<Turn>, from: int, to: int) -> int
    decreases to - from,
{
    if from >= to {
        0
    } else {
        released_in_part(turns, from, to - 1) + part(turns[to - 1])
    }
}

/// From the deposit on, the amount on record and what was released in part make up
/// the deposit; who trades, and in what token, stays as it was; and the escrow is
/// held, in dispute, completed or refunded.
pub proof fn law_history_counts_down(turns: Seq<Turn>, i: int, j: int)
    requires
        history(turns),
        0 <= i <= j < turns.len(),
        turns[i].call is Fund,
        turns[i].answer is Ok,
    ensures
        ({
            let instance = turns[j].post.instance;
            ||| instance.active()
            ||| instance.state == Some(EscrowState::Disputed)
            ||| instance.state == Some(EscrowState::Completed)
            ||| instance.state == Some(EscrowState::Refunded)
        }),
        turns[j].post.contract == turns[i].pre.contract,
        turns[j].post.instance.buyer == turns[i].pre.instance.buyer,
        turns[j].post.instance.seller == turns[i].pre.instance.seller,
        turns[j].post.instance.token_contract == turns[i].pre.instance.token_contract,
        turns[j].post.instance.amount is Some,
        turns[j].post.instance.amount->0 + released_in_part(turns, i + 1, j + 1)
            == turns[i].pre.instance.amount->0,
    decreases j - i,
{
    let turn = turns[j];
    lemma_turn(turns, j);
    law_history_is_well_formed(turns, j);
    if i < j {
        law_history_counts_down(turns, i, j - 1);
        law_terms_are_fixed(turn.call, turn.pre, turn.post, turn.answer);
        law_lifecycle(turn.call, turn.pre, turn.post, turn.answer);
        law_requests_are_kept(turn.call, turn.pre, turn.post, turn.answer);
    }
}

/// The call that settles a funded escrow pays out what the partial releases have
/// left of the deposit: together they come to what the buyer paid in. It goes to
/// the seller on approval, to the buyer on a refund, and where the arbiter says
/// after a dispute.
pub proof fn law_history_pays_out_the_deposit(turns: Seq<Turn>, i: int, j: int)
    requires
        history(turns),
        0 <= i < j < turns.len(),
        turns[i].call is Fund,
        turns[i].answer is Ok,
        turns[j].call is ApproveDelivery || turns[j].call is RequestRefund
            || turns[j].call is ResolveDispute,
        turns[j].answer is Ok,
    ensures
        added(turns[i].pre, turns[i].post).len() > 1,
        added(turns[j].pre, turns[j].post).len() > 1,
        added(turns[i].pre, turns[i].post)[1] matches Effect::Transfer {
            token,
            from,
            to,
            amount: deposit,
        } && added(turns[j].pre, turns[j].post)[1] matches Effect::Transfer {
            token: paid_token,
            from: payer,
            to: payee,
            amount: payment,
        } && {
            &&& paid_token == token
            &&& payer == to
            &&& turns[i].pre.instance.buyer == Some(from)
            &&& if turns[j].post.instance.state == Some(EscrowState::Completed) {
                turns[i].pre.instance.seller == Some(payee)
            } else {
                turns[j].post.instance.state == Some(EscrowState::Refunded) && payee == from
            }
            &&& released_in_part(turns, i + 1, j) + payment == deposit
        },
{
    lemma_turn(turns, i);
    lemma_turn(turns, j);
    law_history_is_well_formed(turns, i);
    law_history_is_well_formed(turns, j);
    law_history_counts_down(turns, i, j - 1);
}

/// Until the escrow is funded, and if it is called off instead, no call has moved
/// anybody's balance.
pub proof fn law_history_starts_still(turns: Seq<Turn>, i: int, token: Address, holder: Address)
    requires
        history(turns),
        0 <= i < turns.len(),
        turns[i].post.instance.state is None || turns[i].post.instance.state == Some(
            EscrowState::Created,
        ) || turns[i].post.instance.state == Some(EscrowState::Cancelled),
    ensures
        net(token, holder, turns[i].post.effects) == 0,
    decreases i,
{
    let turn = turns[i];
    lemma_turn(turns, i);
    law_history_is_well_formed(turns, i);
    law_initialized_once(turn.call, turn.pre, turn.post, turn.answer);
    law_lifecycle(turn.call, turn.pre, turn.post, turn.answer);
    if i > 0 {
        law_history_starts_still(turns, i - 1, token, holder);
    }
    lemma_call_flows(turn.call, turn.pre, turn.post, turn.answer, token, holder);
}

/// While the escrow is funded and not settled, the buyer is down by the deposit,
/// and the seller is up by what was released in part, as long as the contract is
/// neither of them.
pub proof fn law_history_balances_while_held(turns: Seq<Turn>, i: int, j: int)
    requires
        history(turns),
        all_at_arms_length(turns),
        0 <= i <= j < turns.len(),
        turns[i].call is Fund,
        turns[i].answer is Ok,
        !turns[j].post.instance.settled(),
    ensures
        ({
            let token = turns[i].pre.instance.token_contract->0;
            let buyer = turns[i].pre.instance.buyer->0;
            let seller = turns[i].pre.instance.seller->0;
            &&& net(token, seller, turns[j].post.effects) == released_in_part(turns, i + 1, j + 1)
            &&& net(token, buyer, turns[j].post.effects) == -turns[i].pre.instance.amount->0
        }),
    decreases j - i,
{
    let token = turns[i].pre.instance.token_contract->0;
    let buyer = turns[i].pre.instance.buyer->0;
    let seller = turns[i].pre.instance.seller->0;
    let turn = turns[j];
    lemma_turn(turns, i);
    lemma_turn(turns, j);
    law_history_is_well_formed(turns, i);
    law_history_is_well_formed(turns, j);
    lemma_history_at_arms_length(turns, j);
    law_history_keeps_the_roles_apart(turns, j);
    law_history_counts_down(turns, i, j);
    lemma_call_flows(turn.call, turn.pre, turn.post, turn.answer, token, seller);
    lemma_call_flows(turn.call, turn.pre, turn.post, turn.answer, token, buyer);
    if i < j {
        if turn.pre.instance.settled() {
            law_settled_is_final(turn.call, turn.pre, turn.post, turn.answer);
        }
        law_history_counts_down(turns, i, j - 1);
        law_history_balances_while_held(turns, i, j - 1);
    } else if i > 0 {
        law_history_starts_still(turns, i - 1, token, seller);
        law_history_starts_still(turns, i - 1, token, buyer);
    }
}

/// How a funded escrow ends for its parties, as long as the contract is neither of
/// them, whatever was released in part on the way. If it is completed, the seller has got the whole deposit, and the buyer
/// has paid it. If it is refunded, the seller has got what was released in part,
/// and that is all that the buyer has paid.
pub proof fn law_history_accounts_for_the_deposit(turns: Seq<Turn>, i: int, j: int)
    requires
        history(turns),
        all_at_arms_length(turns),
        0 <= i < j < turns.len(),
        turns[i].call is Fund,
        turns[i].answer is Ok,
        turns[j].call is ApproveDelivery || turns[j].call is RequestRefund
            || turns[j].call is ResolveDispute,
        turns[j].answer is Ok,
    ensures
        ({
            let token = turns[i].pre.instance.token_contract->0;
            let buyer = turns[i].pre.instance.buyer->0;
            let seller = turns[i].pre.instance.seller->0;
            let received = if turns[j].post.instance.state == Some(EscrowState::Completed) {
                turns[i].pre.instance.amount->0 as int
            } else {
                released_in_part(turns, i + 1, j)
            };
            &&& net(token, seller, turns[j].post.effects) == received
            &&& net(token, buyer, turns[j].post.effects) == -received
        }),
{
    let token = turns[i].pre.instance.token_contract->0;
    let buyer = turns[i].pre.instance.buyer->0;
    let seller = turns[i].pre.instance.seller->0;
    let turn = turns[j];
    lemma_turn(turns, j);
    law_history_is_well_formed(turns, j);
    lemma_history_at_arms_length(turns, j);
    law_history_keeps_the_roles_apart(turns, j - 1);
    law_history_counts_down(turns, i, j - 1);
    law_history_balances_while_held(turns, i, j - 1);
    lemma_call_flows(turn.call, turn.pre, turn.post, turn.answer, token, seller);
    lemma_call_flows(turn.call, turn.pre, turn.post, turn.answer, token, buyer);
}

// ---------------------------------------------------------------------------
// Whole trades
// ---------------------------------------------------------------------------

/// A trade in which everyone does their part goes through: on acceptable terms
/// an escrow is set up, funded, delivered and approved, every call succeeds, and
/// in the end the buyer has paid the seller the agreed amount. The contract is
/// neither buyer nor seller.
pub proof fn law_honest_trade_completes(turns: Seq<Turn>, token: Address)
    requires
        history(turns),
        turns.len() == 4,
        turns[0].call matches Call::Initialize {
            buyer,
            seller,
            arbiter,
            token_contract,
            amount,
            deadline_ledger,
        } && {
            &&& amount > 0
            &&& crate::model::distinct(buyer, seller, arbiter)
            &&& deadline_ledger >= turns[0].pre.sequence + crate::model::MIN_DEADLINE_BUFFER
            &&& token_contract == token
        },
        turns[0].trades_at_arms_length(),
        turns[1].call is Fund,
        turns[2].call is MarkDelivered,
        turns[3].call is ApproveDelivery,
    ensures
        forall|i: int| 0 <= i < 4 ==> (#[trigger] turns[i]).answer is Ok,
        turns[3].post.instance.state == Some(EscrowState::Completed),
        turns[0].call matches Call::Initialize { buyer, seller, amount, .. } && {
            &&& net(token, seller, turns[3].post.effects) == amount
            &&& net(token, buyer, turns[3].post.effects) == -amount
            &&& net(token, turns[3].post.contract, turns[3].post.effects) == 0
        },
{
    lemma_turn(turns, 0);
    lemma_turn(turns, 1);
    lemma_turn(turns, 2);
    lemma_turn(turns, 3);
    assert(all_at_arms_length(turns));
    law_history_accounts_for_the_deposit(turns, 1, 3);
    law_history_is_solvent(turns, 3, token);
}

/// A buyer whose seller does nothing gets everything back: once the deadline has
/// passed, a refund is granted, and in the end no tokens have changed hands. The
/// contract is neither buyer nor seller.
pub proof fn law_late_trade_is_refunded(turns: Seq<Turn>, token: Address)
    requires
        history(turns),
        turns.len() == 3,
        turns[0].call matches Call::Initialize {
            buyer,
            seller,
            arbiter,
            token_contract,
            amount,
            deadline_ledger,
        } && {
            &&& amount > 0
            &&& crate::model::distinct(buyer, seller, arbiter)
            &&& deadline_ledger >= turns[0].pre.sequence + crate::model::MIN_DEADLINE_BUFFER
            &&& token_contract == token
            &&& turns[2].pre.sequence > deadline_ledger
        },
        turns[0].trades_at_arms_length(),
        turns[1].call is Fund,
        turns[2].call is RequestRefund,
    ensures
        forall|i: int| 0 <= i < 3 ==> (#[trigger] turns[i]).answer is Ok,
        turns[2].post.instance.state == Some(EscrowState::Refunded),
        turns[0].call matches Call::Initialize { buyer, seller, .. } && {
            &&& net(token, seller, turns[2].post.effects) == 0
            &&& net(token, buyer, turns[2].post.effects) == 0
            &&& net(token, turns[2].post.contract, turns[2].post.effects) == 0
        },
{
    lemma_turn(turns, 0);
    lemma_turn(turns, 1);
    lemma_turn(turns, 2);
    assert(all_at_arms_length(turns));
    law_history_accounts_for_the_deposit(turns, 1, 2);
    law_history_is_solvent(turns, 2, token);
}

/// While tokens are held, either side can bring in the arbiter, and the arbiter
/// decides who gets all that is left: the seller or the buyer.
pub proof fn law_arbiter_decides(
    pre: EnvView,
    disputed: EnvView,
    raised: Result<(), EscrowError>,
    before: EnvView,
    post: EnvView,
    resolved: Result<(), EscrowError>,
    by: Party,
    release_to_seller: bool,
)
    requires
        pre.instance.well_formed(),
        pre.instance.active(),
        crate::model::raise_dispute_step(pre, disputed, raised, by),
        followed_by(disputed, before),
        crate::model::resolve_dispute_step(before, post, resolved, release_to_seller),
    ensures
        raised is Ok,
        resolved is Ok,
        post.instance == (Instance {
            state: Some(
                if release_to_seller {
                    EscrowState::Completed
                } else {
                    EscrowState::Refunded
                },
            ),
            ..pre.instance
        }),
        added(before, post).len() == 4,
        added(before, post)[0] == (Effect::RequireAuth { address: pre.instance.arbiter->0 }),
        added(before, post)[1] == (Effect::Transfer {
            token: pre.instance.token_contract->0,
            from: pre.contract,
            to: if release_to_seller {
                pre.instance.seller->0
            } else {
                pre.instance.buyer->0
            },
            amount: pre.instance.amount->0,
        }),
{
}

/// An open dispute cannot be sidestepped: until the arbiter resolves it, no call
/// of a party succeeds and no tokens move.
pub proof fn law_dispute_freezes_the_trade(
    call: Call,
    pre: EnvView,
    post: EnvView,
    r: Result<(), EscrowError>,
)
    requires
        pre.instance.state == Some(EscrowState::Disputed),
        crate::model::step(call, pre, post, r),
        !(call is ResolveDispute),
    ensures
        !(call is Bump || call is Pause || call is Upgrade) ==> r is Err,
        post.instance == (Instance { paused: post.instance.paused, ..pre.instance }),
        forall|k: int|
            0 <= k < added(pre, post).len() ==> !((#[trigger] added(pre, post)[k]) is Transfer),
{
}

} // verus!
