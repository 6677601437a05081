use escrow::address::Address;
use escrow::contract::EscrowContract;
use escrow::env::Env;
use escrow::errors::EscrowError;
use escrow::storage::{EscrowState, Instance, Party};

fn address(tag: u8) -> Address {
    let mut strkey = [b'A'; 56];
    strkey[0] = b'G';
    strkey[55] = tag;
    Address { strkey }
}

fn new_env() -> Env {
    Env::new(Instance::empty(), 0, address(b'C'))
}

fn setup_escrow(
    env: &mut Env,
    buyer: Address,
    seller: Address,
    arbiter: Address,
    amount: i128,
) -> Address {
    let token = address(b'T');
    let deadline = env.sequence + 200;
    assert_eq!(
        EscrowContract::initialize(env, buyer, seller, arbiter, token, amount, deadline),
        Ok(())
    );
    token
}

fn setup_funded_escrow(env: &mut Env) {
    setup_escrow(env, address(b'B'), address(b'S'), address(b'R'), 1_000i128);
    assert_eq!(EscrowContract::fund(env), Ok(()));
}

#[test]
fn test_get_state_none_before_init() {
    let env = new_env();
    assert_eq!(EscrowContract::get_state(&env), None);
}

#[test]
fn test_initialize() {
    let mut env = new_env();
    setup_escrow(&mut env, address(b'B'), address(b'S'), address(b'R'), 1_000);
    assert_eq!(EscrowContract::get_state(&env), Some(EscrowState::Created));
}

#[test]
fn test_initialize_twice() {
    let mut env = new_env();
    let (buyer, seller, arbiter) = (address(b'B'), address(b'S'), address(b'R'));
    let token = address(b'T');
    let deadline = env.sequence + 200;
    assert_eq!(
        EscrowContract::initialize(&mut env, buyer, seller, arbiter, token, 1_000, deadline),
        Ok(())
    );
    let again = EscrowContract::initialize(&mut env, buyer, seller, arbiter, token, 1_000, deadline);
    assert_eq!(again, Err(EscrowError::AlreadyInitialized));
    assert_eq!(again.unwrap_err().code(), 5);
}

#[test]
fn test_initialize_past_deadline() {
    let mut env = new_env();
    env.sequence = 200;
    let deadline = 5u32; // well below sequence 200
    let late = EscrowContract::initialize(
        &mut env,
        address(b'B'),
        address(b'S'),
        address(b'R'),
        address(b'T'),
        1_000,
        deadline,
    );
    assert_eq!(late, Err(EscrowError::DeadlinePassed));
}

#[test]
fn test_fund() {
    let mut env = new_env();
    setup_escrow(&mut env, address(b'B'), address(b'S'), address(b'R'), 1_000);
    assert_eq!(EscrowContract::fund(&mut env), Ok(()));
    assert_eq!(EscrowContract::get_state(&env), Some(EscrowState::Funded));
}

#[test]
fn test_mark_delivered() {
    let mut env = new_env();
    setup_funded_escrow(&mut env);
    assert_eq!(EscrowContract::mark_delivered(&mut env), Ok(()));
    assert_eq!(EscrowContract::get_state(&env), Some(EscrowState::Delivered));
}

#[test]
fn test_approve_delivery() {
    let mut env = new_env();
    setup_funded_escrow(&mut env);
    assert_eq!(EscrowContract::mark_delivered(&mut env), Ok(()));
    assert_eq!(EscrowContract::approve_delivery(&mut env), Ok(()));
    assert_eq!(EscrowContract::get_state(&env), Some(EscrowState::Completed));
}

#[test]
fn test_raise_dispute() {
    let mut env = new_env();
    setup_funded_escrow(&mut env);
    assert_eq!(EscrowContract::raise_dispute(&mut env, Party::Buyer), Ok(()));
    assert_eq!(EscrowContract::get_state(&env), Some(EscrowState::Disputed));
}

#[test]
fn test_resolve_dispute_to_seller() {
    let mut env = new_env();
    setup_funded_escrow(&mut env);
    assert_eq!(EscrowContract::raise_dispute(&mut env, Party::Buyer), Ok(()));
    assert_eq!(EscrowContract::resolve_dispute(&mut env, true), Ok(()));
    assert_eq!(EscrowContract::get_state(&env), Some(EscrowState::Completed));
}

#[test]
fn test_resolve_dispute_to_buyer() {
    let mut env = new_env();
    setup_funded_escrow(&mut env);
    assert_eq!(EscrowContract::raise_dispute(&mut env, Party::Buyer), Ok(()));
    assert_eq!(EscrowContract::resolve_dispute(&mut env, false), Ok(()));
    assert_eq!(EscrowContract::get_state(&env), Some(EscrowState::Refunded));
}

#[test]
fn test_is_deadline_passed() {
    let mut env = new_env();
    let deadline = env.sequence + 100; // exactly MIN_DEADLINE_BUFFER
    assert_eq!(
        EscrowContract::initialize(
            &mut env,
            address(b'B'),
            address(b'S'),
            address(b'R'),
            address(b'T'),
            1_000,
            deadline,
        ),
        Ok(())
    );
    assert!(!EscrowContract::is_deadline_passed(&env));
    env.sequence = deadline + 1;
    assert!(EscrowContract::is_deadline_passed(&env));
}

#[test]
fn test_invalid_mark_delivered_from_created() {
    let mut env = new_env();
    setup_escrow(&mut env, address(b'B'), address(b'S'), address(b'R'), 1_000);
    // Not funded: mark_delivered must fail with InvalidState (#2)
    let refused = EscrowContract::mark_delivered(&mut env);
    assert_eq!(refused, Err(EscrowError::InvalidState));
    assert_eq!(refused.unwrap_err().code(), 2);
}

#[test]
fn test_initialize_zero_amount() {
    let mut env = new_env();
    let deadline = env.sequence + 200;
    let refused = EscrowContract::initialize(
        &mut env,
        address(b'B'),
        address(b'S'),
        address(b'R'),
        address(b'T'),
        0,
        deadline,
    );
    assert_eq!(refused, Err(EscrowError::InvalidAmount));
    assert_eq!(refused.unwrap_err().code(), 8);
}

#[test]
fn test_initialize_negative_amount() {
    let mut env = new_env();
    let deadline = env.sequence + 200;
    let refused = EscrowContract::initialize(
        &mut env,
        address(b'B'),
        address(b'S'),
        address(b'R'),
        address(b'T'),
        -1,
        deadline,
    );
    assert_eq!(refused, Err(EscrowError::InvalidAmount));
    assert_eq!(refused.unwrap_err().code(), 8);
}
