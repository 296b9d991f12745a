use stellaiverse::context::{AccountId, Context};
use stellaiverse::marketplace::atomic::{MarketplaceAtomicSupport as Atomic, Val};
use stellaiverse::marketplace::storage::{MarketError, Marketplace};

const SELLER: AccountId = AccountId { id: 2 };
const BUYER: AccountId = AccountId { id: 3 };

fn market_with_listing() -> (Marketplace, u64) {
    let env = Context::new(1_000, 1, AccountId { id: 9_000 });
    let mut m = Marketplace::new();
    m.init_contract(&env, AccountId { id: 1 }).unwrap();
    let id = m.create_listing(&env, 7, SELLER, 0, 500).unwrap();
    (m, id)
}

fn s(x: &str) -> String {
    x.to_string()
}

#[test]
fn prepare_locks_and_rollback_unlocks() {
    let (mut m, id) = market_with_listing();
    let args = vec![Val::U64(id), Val::U64(7), Val::I128(500)];
    assert_eq!(Atomic::prepare_step(&mut m, 1, 1, &s("validate_listing"), &args), Ok(true));
    assert!(Atomic::is_step_prepared(&m, 1, 1));
    assert_eq!(Atomic::get_step_result(&m, 1, 1), Some(true));
    // a second transaction cannot take the locked listing
    assert_eq!(Atomic::prepare_step(&mut m, 2, 1, &s("validate_listing"), &args), Ok(false));

    assert_eq!(Atomic::rollback_step(&mut m, 1, 1, &s("unlock_listing"), &vec![Val::U64(id)]), Ok(true));
    assert!(!Atomic::is_step_prepared(&m, 1, 1));
    assert_eq!(Atomic::get_step_result(&m, 1, 1), None);
    assert_eq!(Atomic::prepare_step(&mut m, 2, 1, &s("validate_listing"), &args), Ok(true));
}

#[test]
fn prepare_rejects_mismatched_listing() {
    let (mut m, id) = market_with_listing();
    let wrong_price = vec![Val::U64(id), Val::U64(7), Val::I128(499)];
    assert_eq!(Atomic::prepare_step(&mut m, 1, 1, &s("validate_listing"), &wrong_price), Ok(false));
    let wrong_agent = vec![Val::U64(id), Val::U64(8), Val::I128(500)];
    assert_eq!(Atomic::prepare_step(&mut m, 1, 1, &s("validate_listing"), &wrong_agent), Ok(false));
    assert_eq!(Atomic::prepare_step(&mut m, 1, 1, &s("no_such_step"), &wrong_agent), Ok(false));
    // a sale listing is not a lease listing
    let lease_args = vec![Val::U64(id), Val::U64(7)];
    assert_eq!(Atomic::prepare_step(&mut m, 1, 1, &s("validate_lease_listing"), &lease_args), Ok(false));
    assert!(!Atomic::is_step_prepared(&m, 1, 1));
}

#[test]
fn escrow_and_complete_sale() {
    let (mut m, id) = market_with_listing();
    let validate = vec![Val::U64(id), Val::U64(7), Val::I128(500)];
    assert_eq!(Atomic::prepare_step(&mut m, 1, 1, &s("validate_listing"), &validate), Ok(true));

    let escrow = vec![Val::Address(BUYER), Val::Address(SELLER), Val::I128(500)];
    assert_eq!(Atomic::prepare_step(&mut m, 1, 2, &s("transfer_to_escrow"), &escrow), Ok(true));
    let bad = vec![Val::U64(1), Val::Address(SELLER), Val::I128(500)];
    assert_eq!(
        Atomic::prepare_step(&mut m, 1, 3, &s("transfer_to_escrow"), &bad),
        Err(MarketError::InvalidArgument)
    );
    assert_eq!(Atomic::commit_step(&mut m, 1, 2, &s("transfer_to_escrow"), &escrow), Ok(true));

    let complete = vec![Val::U64(id), Val::Address(BUYER), Val::I128(500)];
    assert_eq!(Atomic::prepare_step(&mut m, 1, 3, &s("complete_sale"), &complete), Ok(true));
    // a transaction that does not hold the lock cannot complete the sale
    assert_eq!(Atomic::prepare_step(&mut m, 2, 3, &s("complete_sale"), &complete), Ok(false));
    assert_eq!(Atomic::commit_step(&mut m, 1, 3, &s("complete_sale"), &complete), Ok(true));
    assert!(!m.get_listing(id).unwrap().unwrap().active);
}
