use escrow::address::Address;
use escrow::admin::require_admin;
use escrow::contract::EscrowContract;
use escrow::env::{Effect, Env, Event};
use escrow::errors::EscrowError;
use escrow::model::{LEDGER_BUMP_AMOUNT, LEDGER_LIFETIME_THRESHOLD, MIN_DEADLINE_BUFFER};
use escrow::storage::{EscrowInfo, EscrowState, Instance, Party};

fn address(tag: u8) -> Address {
    let mut strkey = [b'A'; 56];
    strkey[0] = b'G';
    strkey[55] = tag;
    Address { strkey }
}

const ALIVE: Effect = Effect::ExtendTtl { threshold: 120_960, extend_to: 518_400 };

fn auth(tag: u8) -> Effect {
    Effect::RequireAuth { address: address(tag) }
}

fn transfer(from: u8, to: u8, amount: i128) -> Effect {
    Effect::Transfer { token: address(b'T'), from: address(from), to: address(to), amount }
}

/// An escrow over 1000 tokens, set up at ledger 10 with deadline 210.
fn created() -> Env {
    let mut env = Env::new(Instance::empty(), 10, address(b'C'));
    let r = EscrowContract::initialize(
        &mut env,
        address(b'B'),
        address(b'S'),
        address(b'R'),
        address(b'T'),
        1_000,
        210,
    );
    assert_eq!(r, Ok(()));
    env
}

fn funded() -> Env {
    let mut env = created();
    assert_eq!(EscrowContract::fund(&mut env), Ok(()));
    env
}

/// The next invocation on the same storage.
fn next(env: &Env) -> Env {
    Env::new(env.instance, env.sequence, env.contract)
}

/// What the contract holds of the token, by the transfers it asked for.
fn held(env: &Env, tag: u8) -> i128 {
    let mut sum: i128 = 0;
    for effect in env.effects.iter() {
        if let Effect::Transfer { from, to, amount, .. } = effect {
            if *to == address(tag) {
                sum += amount;
            }
            if *from == address(tag) {
                sum -= amount;
            }
        }
    }
    sum
}

#[test]
fn addresses_compare_by_every_character() {
    assert_eq!(address(b'B'), address(b'B'));
    assert_ne!(address(b'B'), address(b'S'));
    let mut other = address(b'B');
    other.strkey[0] = b'C';
    assert_ne!(other, address(b'B'));
}

#[test]
fn constants_keep_their_values() {
    assert_eq!(LEDGER_LIFETIME_THRESHOLD, 120_960);
    assert_eq!(LEDGER_BUMP_AMOUNT, 518_400);
    assert_eq!(MIN_DEADLINE_BUFFER, 100);
}

#[test]
fn error_codes_are_distinct() {
    let errors = [
        EscrowError::InvalidState,
        EscrowError::DeadlinePassed,
        EscrowError::DeadlineNotReached,
        EscrowError::AlreadyInitialized,
        EscrowError::NotInitialized,
        EscrowError::InsufficientFunds,
        EscrowError::InvalidAmount,
        EscrowError::InvalidParties,
    ];
    let codes: Vec<u32> = errors.iter().map(|e| e.code()).collect();
    assert_eq!(codes, vec![2, 3, 4, 5, 6, 7, 8, 9]);
}

#[test]
fn initialize_stores_the_terms_and_asks_no_signature() {
    let env = created();
    assert_eq!(
        env.effects,
        vec![
            Effect::ProbeToken { token: address(b'T') },
            ALIVE,
            Effect::Publish {
                event: Event::EscrowCreated {
                    buyer: address(b'B'),
                    seller: address(b'S'),
                    amount: 1_000,
                },
            },
        ]
    );
    assert_eq!(
        EscrowContract::get_escrow_info(&env),
        EscrowInfo {
            buyer: address(b'B'),
            seller: address(b'S'),
            arbiter: address(b'R'),
            token_contract: address(b'T'),
            amount: 1_000,
            deadline: 210,
            state: EscrowState::Created,
        }
    );
    assert_eq!(env.instance.buyer_approved, Some(false));
    assert_eq!(env.instance.seller_delivered, Some(false));
    assert_eq!(env.instance.admin, None);
    assert_eq!(env.instance.paused, None);
}

#[test]
fn initialize_wants_three_different_addresses() {
    let triples = [(b'B', b'B', b'R'), (b'B', b'S', b'B'), (b'B', b'S', b'S')];
    for (buyer, seller, arbiter) in triples {
        let mut env = Env::new(Instance::empty(), 10, address(b'C'));
        let r = EscrowContract::initialize(
            &mut env,
            address(buyer),
            address(seller),
            address(arbiter),
            address(b'T'),
            1_000,
            210,
        );
        assert_eq!(r, Err(EscrowError::InvalidParties));
        assert_eq!(env, Env::new(Instance::empty(), 10, address(b'C')));
    }
}

#[test]
fn initialize_wants_the_whole_buffer() {
    for (deadline, expected) in
        [(109u32, Err(EscrowError::DeadlinePassed)), (110u32, Ok(()))]
    {
        let mut env = Env::new(Instance::empty(), 10, address(b'C'));
        let r = EscrowContract::initialize(
            &mut env,
            address(b'B'),
            address(b'S'),
            address(b'R'),
            address(b'T'),
            1,
            deadline,
        );
        assert_eq!(r, expected);
    }
}

#[test]
fn initialize_checks_the_amount_before_the_parties() {
    let mut env = Env::new(Instance::empty(), 10, address(b'C'));
    let same = address(b'B');
    let r = EscrowContract::initialize(&mut env, same, same, same, address(b'T'), 0, 0);
    assert_eq!(r, Err(EscrowError::InvalidAmount));
}

#[test]
fn fund_takes_the_tokens_from_the_buyer() {
    let mut env = next(&created());
    assert_eq!(EscrowContract::fund(&mut env), Ok(()));
    assert_eq!(
        env.effects,
        vec![
            auth(b'B'),
            transfer(b'B', b'C', 1_000),
            ALIVE,
            Effect::Publish { event: Event::EscrowFunded { buyer: address(b'B'), amount: 1_000 } },
        ]
    );
}

#[test]
fn delivery_is_the_sellers_to_mark() {
    let mut env = next(&funded());
    assert_eq!(EscrowContract::mark_delivered(&mut env), Ok(()));
    assert_eq!(env.instance.seller_delivered, Some(true));
    assert_eq!(
        env.effects,
        vec![
            auth(b'S'),
            ALIVE,
            Effect::Publish { event: Event::DeliveryMarked { seller: address(b'S') } },
        ]
    );
}

#[test]
fn approval_pays_the_seller() {
    let mut env = funded();
    assert_eq!(EscrowContract::mark_delivered(&mut env), Ok(()));
    let mut env = next(&env);
    assert_eq!(EscrowContract::approve_delivery(&mut env), Ok(()));
    assert_eq!(
        env.effects,
        vec![
            auth(b'B'),
            transfer(b'C', b'S', 1_000),
            ALIVE,
            Effect::Publish { event: Event::FundsReleased { seller: address(b'S'), amount: 1_000 } },
        ]
    );
}

#[test]
fn approval_needs_delivery() {
    let mut env = next(&funded());
    let before = env.instance;
    assert_eq!(EscrowContract::approve_delivery(&mut env), Err(EscrowError::InvalidState));
    assert_eq!(env.instance, before);
    assert_eq!(env.effects, vec![auth(b'B')]);
}

#[test]
fn refund_waits_for_the_deadline() {
    let mut env = next(&funded());
    env.sequence = 210;
    assert!(!EscrowContract::is_deadline_passed(&env));
    assert_eq!(EscrowContract::request_refund(&mut env), Err(EscrowError::DeadlineNotReached));
    let mut env = next(&env);
    env.sequence = 211;
    assert!(EscrowContract::is_deadline_passed(&env));
    assert_eq!(EscrowContract::request_refund(&mut env), Ok(()));
    assert_eq!(EscrowContract::get_state(&env), Some(EscrowState::Refunded));
    assert_eq!(
        env.effects,
        vec![
            auth(b'B'),
            transfer(b'C', b'B', 1_000),
            ALIVE,
            Effect::Publish { event: Event::FundsRefunded { buyer: address(b'B'), amount: 1_000 } },
        ]
    );
}

#[test]
fn refund_of_an_unfunded_escrow_is_never_due() {
    let mut env = created();
    env.sequence = 1_000;
    assert_eq!(EscrowContract::request_refund(&mut env), Err(EscrowError::DeadlineNotReached));
}

#[test]
fn delivered_escrow_can_be_refunded_late() {
    let mut env = funded();
    assert_eq!(EscrowContract::mark_delivered(&mut env), Ok(()));
    env.sequence = 211;
    assert_eq!(EscrowContract::request_refund(&mut env), Ok(()));
}

#[test]
fn either_side_raises_a_dispute_under_its_own_signature() {
    for (by, tag) in [(Party::Buyer, b'B'), (Party::Seller, b'S')] {
        let mut env = next(&funded());
        assert_eq!(EscrowContract::raise_dispute(&mut env, by), Ok(()));
        assert_eq!(EscrowContract::get_state(&env), Some(EscrowState::Disputed));
        assert_eq!(
            env.effects,
            vec![
                auth(tag),
                ALIVE,
                Effect::Publish { event: Event::DisputeRaised { raiser: address(tag) } },
            ]
        );
    }
}

#[test]
fn dispute_needs_held_tokens() {
    let mut env = next(&created());
    let refused = EscrowContract::raise_dispute(&mut env, Party::Buyer);
    assert_eq!(refused, Err(EscrowError::InvalidState));
    assert_eq!(env.effects, Vec::new());
}

#[test]
fn dispute_freezes_the_trade() {
    let mut env = funded();
    assert_eq!(EscrowContract::raise_dispute(&mut env, Party::Seller), Ok(()));
    env.sequence = 1_000;
    assert_eq!(EscrowContract::request_refund(&mut env), Err(EscrowError::DeadlineNotReached));
    assert_eq!(EscrowContract::release_partial(&mut env, 1), Err(EscrowError::InvalidState));
    assert_eq!(EscrowContract::approve_delivery(&mut env), Err(EscrowError::InvalidState));
    assert_eq!(EscrowContract::mark_delivered(&mut env), Err(EscrowError::InvalidState));
    assert_eq!(held(&env, b'C'), 1_000);
}

#[test]
fn arbiter_pays_whom_they_find_for() {
    for (to_seller, payee) in [(true, b'S'), (false, b'B')] {
        let mut env = funded();
        assert_eq!(EscrowContract::raise_dispute(&mut env, Party::Buyer), Ok(()));
        let mut env = next(&env);
        assert_eq!(EscrowContract::resolve_dispute(&mut env, to_seller), Ok(()));
        assert_eq!(env.effects[0], auth(b'R'));
        assert_eq!(env.effects[1], transfer(b'C', payee, 1_000));
        assert_eq!(env.effects.len(), 4);
    }
}

#[test]
fn resolving_needs_a_dispute() {
    let mut env = next(&funded());
    assert_eq!(EscrowContract::resolve_dispute(&mut env, true), Err(EscrowError::InvalidState));
    assert_eq!(env.effects, vec![auth(b'R')]);
}

#[test]
fn partial_release_pays_and_counts_down() {
    let mut env = next(&funded());
    assert_eq!(EscrowContract::release_partial(&mut env, 300), Ok(()));
    assert_eq!(env.instance.amount, Some(700));
    assert_eq!(EscrowContract::get_state(&env), Some(EscrowState::Funded));
    assert_eq!(
        env.effects,
        vec![
            auth(b'B'),
            transfer(b'C', b'S', 300),
            ALIVE,
            Effect::Publish { event: Event::PartialReleased { seller: address(b'S'), amount: 300 } },
        ]
    );
}

#[test]
fn partial_release_is_limited_by_what_is_held() {
    let mut env = funded();
    assert_eq!(EscrowContract::release_partial(&mut env, 1_001), Err(EscrowError::InsufficientFunds));
    assert_eq!(EscrowContract::release_partial(&mut env, 1_000), Ok(()));
    assert_eq!(env.instance.amount, Some(0));
    assert_eq!(EscrowContract::release_partial(&mut env, 1), Err(EscrowError::InsufficientFunds));
    assert_eq!(held(&env, b'C'), 0);
}

#[test]
fn partial_releases_add_up() {
    let mut twice = funded();
    assert_eq!(EscrowContract::release_partial(&mut twice, 300), Ok(()));
    assert_eq!(EscrowContract::release_partial(&mut twice, 450), Ok(()));
    let mut once = funded();
    assert_eq!(EscrowContract::release_partial(&mut once, 750), Ok(()));
    assert_eq!(twice.instance, once.instance);
    assert_eq!(held(&twice, b'S'), held(&once, b'S'));
}

#[test]
fn cancelling_needs_no_event() {
    let mut env = next(&created());
    assert_eq!(EscrowContract::cancel(&mut env), Ok(()));
    assert_eq!(EscrowContract::get_state(&env), Some(EscrowState::Cancelled));
    assert_eq!(env.effects, vec![auth(b'B'), ALIVE]);
}

#[test]
fn funded_escrow_cannot_be_cancelled() {
    let mut env = funded();
    assert_eq!(EscrowContract::cancel(&mut env), Err(EscrowError::InvalidState));
}

#[test]
fn anyone_may_bump() {
    let mut env = next(&funded());
    let before = env.instance;
    assert_eq!(EscrowContract::bump(&mut env), Ok(()));
    assert_eq!(env.instance, before);
    assert_eq!(env.effects, vec![ALIVE]);
}

#[test]
fn nothing_works_before_initialization() {
    let mut env = Env::new(Instance::empty(), 10, address(b'C'));
    let missing = Err(EscrowError::NotInitialized);
    assert_eq!(EscrowContract::fund(&mut env), missing);
    assert_eq!(EscrowContract::mark_delivered(&mut env), missing);
    assert_eq!(EscrowContract::approve_delivery(&mut env), missing);
    assert_eq!(EscrowContract::request_refund(&mut env), missing);
    assert_eq!(EscrowContract::raise_dispute(&mut env, Party::Buyer), missing);
    assert_eq!(EscrowContract::resolve_dispute(&mut env, true), missing);
    assert_eq!(EscrowContract::release_partial(&mut env, 1), missing);
    assert_eq!(EscrowContract::cancel(&mut env), missing);
    assert_eq!(EscrowContract::bump(&mut env), missing);
    assert_eq!(EscrowContract::pause(&mut env), missing);
    assert_eq!(EscrowContract::upgrade(&mut env, [7; 32]), missing);
    assert!(EscrowContract::is_deadline_passed(&env));
    assert_eq!(env, Env::new(Instance::empty(), 10, address(b'C')));
}

#[test]
fn administrator_pauses_and_upgrades() {
    let mut env = next(&created());
    env.instance.admin = Some(address(b'D'));
    assert_eq!(require_admin(&env), Ok(address(b'D')));
    assert_eq!(EscrowContract::pause(&mut env), Ok(()));
    assert_eq!(env.instance.paused, Some(true));
    assert_eq!(env.effects, vec![auth(b'D'), ALIVE]);
    let mut env = next(&env);
    assert_eq!(EscrowContract::upgrade(&mut env, [7; 32]), Ok(()));
    assert_eq!(env.effects, vec![auth(b'D'), Effect::UpdateWasm { hash: [7; 32] }]);
}

#[test]
fn settled_escrow_stays_settled() {
    let mut env = funded();
    env.sequence = 211;
    assert_eq!(EscrowContract::request_refund(&mut env), Ok(()));
    let settled = env.instance;
    assert_eq!(EscrowContract::fund(&mut env), Err(EscrowError::InvalidState));
    assert_eq!(EscrowContract::mark_delivered(&mut env), Err(EscrowError::InvalidState));
    assert_eq!(EscrowContract::approve_delivery(&mut env), Err(EscrowError::InvalidState));
    assert_eq!(EscrowContract::request_refund(&mut env), Err(EscrowError::DeadlineNotReached));
    assert_eq!(
        EscrowContract::raise_dispute(&mut env, Party::Seller),
        Err(EscrowError::InvalidState)
    );
    assert_eq!(EscrowContract::resolve_dispute(&mut env, true), Err(EscrowError::InvalidState));
    assert_eq!(EscrowContract::release_partial(&mut env, 1), Err(EscrowError::InvalidState));
    assert_eq!(EscrowContract::cancel(&mut env), Err(EscrowError::InvalidState));
    assert_eq!(env.instance, settled);
    assert_eq!(held(&env, b'C'), 0);
    assert_eq!(held(&env, b'B'), 0);
}

#[test]
fn honest_trade_moves_the_price_to_the_seller() {
    let mut env = funded();
    assert_eq!(held(&env, b'C'), 1_000);
    assert_eq!(EscrowContract::release_partial(&mut env, 250), Ok(()));
    assert_eq!(held(&env, b'C'), 750);
    assert_eq!(EscrowContract::mark_delivered(&mut env), Ok(()));
    assert_eq!(EscrowContract::approve_delivery(&mut env), Ok(()));
    assert_eq!(held(&env, b'C'), 0);
    assert_eq!(held(&env, b'S'), 1_000);
    assert_eq!(held(&env, b'B'), -1_000);
}

#[test]
fn escrow_is_funded_once_or_called_off() {
    let mut env = funded();
    assert_eq!(EscrowContract::fund(&mut env), Err(EscrowError::InvalidState));
    assert_eq!(EscrowContract::cancel(&mut env), Err(EscrowError::InvalidState));
    assert_eq!(held(&env, b'C'), 1_000);
    let mut env = created();
    assert_eq!(EscrowContract::cancel(&mut env), Ok(()));
    assert_eq!(EscrowContract::fund(&mut env), Err(EscrowError::InvalidState));
    assert_eq!(EscrowContract::cancel(&mut env), Err(EscrowError::InvalidState));
    assert_eq!(held(&env, b'C'), 0);
}

#[test]
fn terms_outlive_the_trade() {
    let mut env = funded();
    assert_eq!(EscrowContract::release_partial(&mut env, 250), Ok(()));
    assert_eq!(EscrowContract::mark_delivered(&mut env), Ok(()));
    assert_eq!(EscrowContract::approve_delivery(&mut env), Ok(()));
    assert_eq!(
        EscrowContract::get_escrow_info(&env),
        EscrowInfo {
            buyer: address(b'B'),
            seller: address(b'S'),
            arbiter: address(b'R'),
            token_contract: address(b'T'),
            amount: 750,
            deadline: 210,
            state: EscrowState::Completed,
        }
    );
}

#[test]
fn refund_returns_what_was_not_released() {
    let mut env = funded();
    assert_eq!(EscrowContract::release_partial(&mut env, 250), Ok(()));
    assert_eq!(EscrowContract::release_partial(&mut env, 100), Ok(()));
    env.sequence = 211;
    assert_eq!(EscrowContract::request_refund(&mut env), Ok(()));
    assert_eq!(held(&env, b'S'), 350);
    assert_eq!(held(&env, b'B'), -350);
    assert_eq!(held(&env, b'C'), 0);
}

#[test]
fn events_name_what_happened() {
    let (b, s) = (address(b'B'), address(b'S'));
    let events = [
        (Event::EscrowCreated { buyer: b, seller: s, amount: 5 }, "escrow_created", vec![b, s], Some(5)),
        (Event::EscrowFunded { buyer: b, amount: 5 }, "escrow_funded", vec![b], Some(5)),
        (Event::DeliveryMarked { seller: s }, "delivery_marked", vec![s], None),
        (Event::DisputeRaised { raiser: s }, "dispute_raised", vec![s], None),
        (Event::PartialReleased { seller: s, amount: 5 }, "partial_released", vec![s], Some(5)),
        (Event::FundsReleased { seller: s, amount: 5 }, "funds_released", vec![s], Some(5)),
        (Event::FundsRefunded { buyer: b, amount: 5 }, "funds_refunded", vec![b], Some(5)),
    ];
    for (event, name, topics, data) in events {
        assert_eq!(event.name(), name);
        assert_eq!(event.topics(), topics);
        assert_eq!(event.data(), data);
    }
}
