use stellaiverse::context::{AccountId, Context, Hash32};
use stellaiverse::marketplace::leasing::manager::{LeaseManager, MIN_LEASE_DURATION_LEDGERS};
use stellaiverse::marketplace::leasing::types::{LeaseError, LeaseStatus};

const OWNER: AccountId = AccountId { id: 1 };
const LESSEE: AccountId = AccountId { id: 2 };
const AGENT: Hash32 = Hash32 { hi: 1, lo: 2 };

fn at(sequence: u32) -> Context {
    Context::new(0, sequence, AccountId { id: 500 })
}

#[test]
fn lease_lifecycle_and_permissions() {
    let mut m = LeaseManager::new();
    assert_eq!(m.create_lease(&at(1), AGENT, OWNER, LESSEE, 100, 200), Err(LeaseError::Unauthorized));
    m.register_agent(&at(1), AGENT, OWNER).unwrap();
    assert_eq!(m.register_agent(&at(1), AGENT, LESSEE), Err(LeaseError::Unauthorized));

    assert_eq!(
        m.create_lease(&at(1), AGENT, OWNER, LESSEE, 100, 100 + MIN_LEASE_DURATION_LEDGERS - 1),
        Err(LeaseError::InvalidLeaseTerm)
    );
    // a lease must last more than the minimum
    assert_eq!(
        m.create_lease(&at(1), AGENT, OWNER, LESSEE, 100, 100 + MIN_LEASE_DURATION_LEDGERS),
        Err(LeaseError::InvalidLeaseTerm)
    );
    assert_eq!(m.create_lease(&at(1), AGENT, OWNER, LESSEE, 100, 50), Err(LeaseError::InvalidLeaseTerm));
    assert_eq!(m.get_lease_count(AGENT), 0);
    let term = m.create_lease(&at(1), AGENT, OWNER, LESSEE, 100, 200).unwrap();
    assert_eq!((term.start_ledger, term.end_ledger, term.status), (100, 200, LeaseStatus::Active));
    assert_eq!(m.get_lease_count(AGENT), 1);
    assert_eq!(
        m.create_lease(&at(1), AGENT, OWNER, LESSEE, 100, 300),
        Err(LeaseError::LeaseAlreadyExists)
    );

    assert_eq!(m.check_lease_permission(&at(99), AGENT, LESSEE), Err(LeaseError::LeaseExpired));
    assert_eq!(m.check_lease_permission(&at(100), AGENT, LESSEE), Ok(()));
    assert_eq!(m.check_lease_permission(&at(199), AGENT, LESSEE), Ok(()));
    assert_eq!(m.check_lease_permission(&at(200), AGENT, LESSEE), Err(LeaseError::LeaseExpired));
    assert_eq!(m.get_lease(AGENT, LESSEE).unwrap().status, LeaseStatus::Expired);
    assert_eq!(
        m.check_lease_permission(&at(5), AGENT, AccountId { id: 3 }),
        Err(LeaseError::LeaseNotFound)
    );

    // an expired lease may be replaced by a new one
    m.create_lease(&at(250), AGENT, OWNER, LESSEE, 300, 400).unwrap();
    assert_eq!(m.get_lease_count(AGENT), 2);
    assert_eq!(m.revoke_lease(&at(301), AGENT, LESSEE, LESSEE), Err(LeaseError::Unauthorized));
    m.revoke_lease(&at(301), AGENT, OWNER, LESSEE).unwrap();
    assert_eq!(m.check_lease_permission(&at(350), AGENT, LESSEE), Err(LeaseError::LeaseRevoked));
    assert_eq!(
        m.revoke_lease(&at(301), AGENT, OWNER, AccountId { id: 3 }),
        Err(LeaseError::LeaseNotFound)
    );
}

#[test]
fn settle_expiry_marks_lapsed_leases() {
    let mut m = LeaseManager::new();
    m.register_agent(&at(1), AGENT, OWNER).unwrap();
    m.create_lease(&at(1), AGENT, OWNER, LESSEE, 10, 100).unwrap();
    m.settle_expiry(&at(50), AGENT, LESSEE).unwrap();
    assert_eq!(m.get_lease(AGENT, LESSEE).unwrap().status, LeaseStatus::Active);
    m.settle_expiry(&at(100), AGENT, LESSEE).unwrap();
    assert_eq!(m.get_lease(AGENT, LESSEE).unwrap().status, LeaseStatus::Expired);
    assert_eq!(m.settle_expiry(&at(100), AGENT, OWNER), Err(LeaseError::LeaseNotFound));
}
