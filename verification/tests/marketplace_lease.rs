use stellaiverse::context::{AccountId, Context};
use stellaiverse::marketplace::storage::{
    add_lease_history, get_lease_config, increment_lease_counter, lessee_leases_append,
    lessor_leases_append, set_lease, MarketError, Marketplace,
};
use stellaiverse::types::{
    LeaseAction, LeaseData, LeaseHistoryEntry, LeaseState, Listing, ListingType, Transfer,
    DEFAULT_EARLY_TERMINATION_PENALTY_BPS, DEFAULT_LEASE_DEPOSIT_BPS,
};

const CONTRACT: AccountId = AccountId { id: 9_000 };
const NOW: u64 = 1_000_000;

fn ctx(timestamp: u64) -> Context {
    Context::new(timestamp, 1, CONTRACT)
}

fn initialized(admin: AccountId) -> Marketplace {
    let mut m = Marketplace::new();
    m.init_contract(&ctx(NOW), admin).unwrap();
    m
}

/// A marketplace with a 30-day lease of agent 10 written straight to storage.
fn setup_lease_in_storage(m: &mut Marketplace) -> (AccountId, AccountId, u64, u64) {
    let lessor = AccountId { id: 20 };
    let lessee = AccountId { id: 21 };
    let listing_id = 1u64;
    m.listings.insert(
        listing_id,
        Listing {
            listing_id,
            agent_id: 10,
            seller: lessor,
            price: 1000,
            listing_type: ListingType::Lease,
            active: false,
            created_at: NOW,
        },
    );
    m.listing_counter = listing_id;

    let lease_id = increment_lease_counter(m).unwrap();
    assert_eq!(lease_id, 1);

    let duration_seconds = 86400 * 30;
    let total_value = 1000i128;
    let deposit_bps = 1000u32;
    let deposit_amount = (total_value * (deposit_bps as i128)) / 10_000;
    let lease = LeaseData {
        lease_id,
        agent_id: 10,
        listing_id,
        lessor,
        lessee,
        start_time: NOW,
        end_time: NOW + duration_seconds,
        duration_seconds,
        deposit_amount,
        total_value,
        auto_renew: false,
        lessee_consent_for_renewal: false,
        status: LeaseState::Active,
        pending_extension_id: None,
    };
    set_lease(m, lease);
    lessee_leases_append(m, lessee, lease_id);
    lessor_leases_append(m, lessor, lease_id);
    add_lease_history(
        m,
        lease_id,
        LeaseHistoryEntry { lease_id, action: LeaseAction::Initiated, actor: lessee, timestamp: NOW },
    );
    (lessor, lessee, lease_id, listing_id)
}

#[test]
fn test_lease_config_default() {
    let m = initialized(AccountId { id: 1 });
    let config = get_lease_config(&m);
    assert_eq!(config.deposit_bps, DEFAULT_LEASE_DEPOSIT_BPS);
    assert_eq!(config.early_termination_penalty_bps, DEFAULT_EARLY_TERMINATION_PENALTY_BPS);
}

#[test]
fn test_set_lease_config() {
    let admin = AccountId { id: 1 };
    let mut m = initialized(admin);
    m.set_lease_config(&ctx(NOW), admin, 1500, 2500).unwrap();
    let config = get_lease_config(&m);
    assert_eq!(config.deposit_bps, 1500);
    assert_eq!(config.early_termination_penalty_bps, 2500);
}

#[test]
fn test_get_lease_by_id_and_active_leases() {
    let mut m = initialized(AccountId { id: 1 });
    let (lessor, lessee, lease_id, _) = setup_lease_in_storage(&mut m);

    let lease = m.get_lease_by_id(lease_id).unwrap();
    assert_eq!(lease.lease_id, lease_id);
    assert_eq!(lease.lessee, lessee);
    assert_eq!(lease.lessor, lessor);
    assert!(lease.status == LeaseState::Active);

    let lessee_leases = m.get_active_leases(lessee);
    assert_eq!(lessee_leases.len(), 1);
    assert_eq!(lessee_leases[0].lease_id, lease_id);

    let lessor_leases = m.get_active_leases(lessor);
    assert_eq!(lessor_leases.len(), 1);
    assert_eq!(lessor_leases[0].lease_id, lease_id);
}

#[test]
fn test_lease_extension_request_and_approve() {
    let mut m = initialized(AccountId { id: 1 });
    let (lessor, lessee, lease_id, _) = setup_lease_in_storage(&mut m);
    let env = ctx(NOW + 10);

    let extension_id = m.request_lease_extension(&env, lease_id, lessee, 86400 * 7).unwrap();
    assert!(extension_id > 0);

    let lease = m.get_lease_by_id(lease_id).unwrap();
    assert!(lease.status == LeaseState::ExtensionRequested);
    assert_eq!(lease.pending_extension_id, Some(extension_id));

    m.approve_lease_extension(&env, lease_id, extension_id, lessor).unwrap();

    let lease_after = m.get_lease_by_id(lease_id).unwrap();
    assert!(lease_after.status == LeaseState::Active);
    assert_eq!(lease_after.pending_extension_id, None);
    assert_eq!(lease_after.duration_seconds, lease.duration_seconds + 86400 * 7);
    assert_eq!(lease_after.end_time, lease.end_time + 86400 * 7);

    // the same extension is not approved twice
    assert!(m.approve_lease_extension(&env, lease_id, extension_id, lessor).is_err());
}

#[test]
fn test_lease_history() {
    let mut m = initialized(AccountId { id: 1 });
    let (_lessor, lessee, lease_id, _) = setup_lease_in_storage(&mut m);

    let history_before = m.get_lease_history(lease_id);
    assert_eq!(history_before.len(), 1);
    assert_eq!(history_before[0].action.name(), "initiated");

    m.request_lease_extension(&ctx(NOW + 10), lease_id, lessee, 3600).unwrap();

    let history = m.get_lease_history(lease_id);
    assert!(history.len() >= 2);
    assert_eq!(history[0].action.name(), "initiated");
    assert_eq!(history[1].action.name(), "extension_requested");
}

#[test]
fn early_termination_pays_exact_amounts() {
    let admin = AccountId { id: 1 };
    let token = AccountId { id: 50 };
    let mut m = initialized(admin);
    m.set_payment_token(&ctx(NOW), admin, token).unwrap();
    let (lessor, lessee, lease_id, _) = setup_lease_in_storage(&mut m);

    // halfway through: remaining value 500, penalty 20 % of it = 100, deposit 100
    let half = NOW + 86400 * 15;
    let env = ctx(half);
    assert_eq!(
        m.early_termination(&env, lease_id, lessee, 99),
        Err(MarketError::InsufficientTerminationFee)
    );
    let transfers = m.early_termination(&env, lease_id, lessee, 100).unwrap();
    assert_eq!(
        transfers,
        vec![
            Transfer { from: lessee, to: CONTRACT, amount: 100 },
            Transfer { from: CONTRACT, to: lessor, amount: 200 },
        ]
    );
    let lease = m.get_lease_by_id(lease_id).unwrap();
    assert!(lease.status == LeaseState::Terminated);
    assert!(m.get_active_leases(lessee).is_empty());
}

#[test]
fn extension_request_errors() {
    let mut m = initialized(AccountId { id: 1 });
    let (lessor, lessee, lease_id, _) = setup_lease_in_storage(&mut m);
    let env = ctx(NOW + 10);
    assert_eq!(m.request_lease_extension(&env, 0, lessee, 10), Err(MarketError::InvalidLeaseId));
    assert_eq!(
        m.request_lease_extension(&env, lease_id, lessee, 0),
        Err(MarketError::InvalidAdditionalDuration)
    );
    assert_eq!(m.request_lease_extension(&env, 7, lessee, 10), Err(MarketError::LeaseNotFound));
    assert_eq!(m.request_lease_extension(&env, lease_id, lessor, 10), Err(MarketError::Unauthorized));
    let after_end = ctx(NOW + 86400 * 31);
    assert_eq!(m.request_lease_extension(&after_end, lease_id, lessee, 10), Err(MarketError::LeaseEnded));
}

#[test]
fn lease_config_bounds() {
    let admin = AccountId { id: 1 };
    let mut m = initialized(admin);
    let env = ctx(NOW);
    assert_eq!(m.set_lease_config(&env, admin, 10_001, 0), Err(MarketError::DepositBpsTooHigh));
    assert_eq!(m.set_lease_config(&env, admin, 0, 10_001), Err(MarketError::PenaltyBpsTooHigh));
    assert_eq!(m.set_lease_config(&env, AccountId { id: 2 }, 1, 1), Err(MarketError::Unauthorized));
}

#[test]
fn initiate_lease_pays_price_and_deposit() {
    let admin = AccountId { id: 1 };
    let token = AccountId { id: 50 };
    let (lessor, lessee) = (AccountId { id: 20 }, AccountId { id: 21 });
    let mut m = initialized(admin);
    let env = ctx(NOW);
    let listing_id = m.create_listing(&env, 10, lessor, 1, 1000).unwrap();
    assert_eq!(m.initiate_lease(&env, listing_id, lessee, 86400), Err(MarketError::PaymentTokenNotSet));
    m.set_payment_token(&env, admin, token).unwrap();
    assert_eq!(m.initiate_lease(&env, listing_id, lessor, 86400), Err(MarketError::LessorIsLessee));
    assert_eq!(m.initiate_lease(&env, listing_id, lessee, 86399), Err(MarketError::InvalidDuration));
    assert_eq!(m.initiate_lease(&env, listing_id, lessee, 3600), Err(MarketError::InvalidDuration));
    assert_eq!(m.initiate_lease(&env, listing_id, lessee, 0), Err(MarketError::InvalidDuration));
    assert_eq!(
        m.initiate_lease(&env, listing_id, lessee, 36500 * 86400 + 1),
        Err(MarketError::InvalidDuration)
    );

    let (lease_id, transfers) = m.initiate_lease(&env, listing_id, lessee, 36500 * 86400).unwrap();
    assert_eq!(lease_id, 1);
    // default deposit: 10 % of the price
    assert_eq!(
        transfers,
        vec![
            Transfer { from: lessee, to: CONTRACT, amount: 1100 },
            Transfer { from: CONTRACT, to: lessor, amount: 1000 },
        ]
    );
    let lease = m.get_lease_by_id(lease_id).unwrap();
    assert_eq!((lease.deposit_amount, lease.total_value), (100, 1000));
    assert_eq!(lease.end_time, NOW + 36500 * 86400);
    assert!(!m.get_listing(listing_id).unwrap().unwrap().active);
    assert_eq!(m.initiate_lease(&env, listing_id, lessee, 86400), Err(MarketError::ListingNotActive));
    assert_eq!(m.get_lease_history(lease_id)[0].action, LeaseAction::Initiated);
}
