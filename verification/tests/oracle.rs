use stellaiverse::context::{AccountId, Context, Hash32};
use stellaiverse::oracle::{Oracle, OracleError, MAX_PROVIDERS};

const ADMIN: AccountId = AccountId { id: 1 };
const P1: AccountId = AccountId { id: 2 };
const P2: AccountId = AccountId { id: 3 };
const KEY: Hash32 = Hash32 { hi: 0xabcd, lo: 0x1234 };

fn ctx(timestamp: u64) -> Context {
    Context::new(timestamp, 1, AccountId { id: 500 })
}

fn oracle() -> Oracle {
    let mut o = Oracle::new();
    o.init_contract(&ctx(1), ADMIN).unwrap();
    o
}

#[test]
fn providers_register_submit_deregister() {
    let mut o = oracle();
    let env = ctx(50);
    assert_eq!(o.register_provider(&env, P1, P2), Err(OracleError::CallerNotAdmin));
    o.register_provider(&env, ADMIN, P1).unwrap();
    o.register_provider(&env, ADMIN, P2).unwrap();
    assert_eq!(o.register_provider(&env, ADMIN, P1), Err(OracleError::ProviderAlreadyRegistered));
    assert_eq!(o.providers, vec![P1, P2]);

    assert_eq!(o.submit_data(&env, AccountId { id: 9 }, "price".to_string(), 5), Err(OracleError::ProviderNotRegistered));
    o.submit_data(&env, P1, "price".to_string(), 100).unwrap();
    let d = o.get_data("price").unwrap();
    assert_eq!((d.value, d.timestamp, d.provider), (100, 50, P1));
    assert_eq!(d.key, "price");
    assert!(d.signature.is_none() && d.source.is_none());
    o.submit_data(&ctx(60), P2, "price".to_string(), 101).unwrap();
    assert_eq!(o.get_data("price").unwrap().value, 101);
    assert!(o.get_data("volume").is_none());

    o.deregister_provider(&env, ADMIN, P1).unwrap();
    assert_eq!(o.providers, vec![P2]);
    assert!(!o.is_authorized_provider(P1));
    assert!(o.is_authorized_provider(P2));
    assert_eq!(o.deregister_provider(&env, ADMIN, P1), Err(OracleError::ProviderNotFound));
    assert_eq!(o.submit_data(&env, P1, "price".to_string(), 1), Err(OracleError::ProviderNotRegistered));
}

#[test]
fn oracle_init_and_admin() {
    let mut o = Oracle::new();
    assert_eq!(o.verify_admin(ADMIN), Err(OracleError::NotInitialized));
    assert_eq!(o.register_provider(&ctx(1), ADMIN, P1), Err(OracleError::NotInitialized));
    o.init_contract(&ctx(1), ADMIN).unwrap();
    assert_eq!(o.init_contract(&ctx(1), P1), Err(OracleError::AlreadyInitialized));
    let unsigned = Context::with_signers(1, 1, AccountId { id: 500 }, vec![]);
    assert_eq!(o.register_provider(&unsigned, ADMIN, P1), Err(OracleError::NotAuthorized));
}

#[test]
fn relay_keys_and_replay_protection() {
    let mut o = oracle();
    let env = ctx(1_000);
    assert!(!o.is_registered_oracle_key(KEY));
    assert_eq!(o.relay_signed(&env, KEY, 1, 2_000, true), Err(OracleError::OracleNotApproved));
    o.register_oracle_key(&env, ADMIN, KEY).unwrap();
    assert_eq!(o.register_oracle_key(&env, ADMIN, KEY), Err(OracleError::OracleKeyAlreadyRegistered));
    assert!(o.is_registered_oracle_key(KEY));

    assert_eq!(o.relay_signed(&env, KEY, 1, 999, true), Err(OracleError::SignatureExpired));
    assert_eq!(o.relay_signed(&env, KEY, 0, 2_000, true), Err(OracleError::InvalidNonce));
    assert_eq!(o.relay_signed(&env, KEY, 1, 2_000, false), Err(OracleError::InvalidSignature));
    assert_eq!(o.get_oracle_nonce(KEY), 0);
    o.relay_signed(&env, KEY, 1, 2_000, true).unwrap();
    assert_eq!(o.get_oracle_nonce(KEY), 1);
    assert_eq!(o.relay_signed(&env, KEY, 1, 2_000, true), Err(OracleError::InvalidNonce));
    o.relay_signed(&env, KEY, 7, 1_000, true).unwrap();
    assert_eq!(o.get_oracle_nonce(KEY), 7);

    o.deregister_oracle_key(&env, ADMIN, KEY).unwrap();
    assert!(!o.is_approved_oracle_key(KEY));
    assert_eq!(o.get_oracle_nonce(KEY), 0);
    assert_eq!(o.deregister_oracle_key(&env, ADMIN, KEY), Err(OracleError::OracleKeyNotFound));
    assert_eq!(o.relay_signed(&env, KEY, 8, 2_000, true), Err(OracleError::OracleNotApproved));
}

#[test]
fn provider_list_is_capped() {
    let mut o = oracle();
    let env = ctx(5);
    for i in 0..MAX_PROVIDERS as u64 {
        o.register_provider(&env, ADMIN, AccountId { id: 1_000 + i }).unwrap();
    }
    assert_eq!(o.register_provider(&env, ADMIN, AccountId { id: 5 }), Err(OracleError::TooManyProviders));
    assert_eq!(
        o.register_provider(&env, ADMIN, AccountId { id: 1_000 }),
        Err(OracleError::ProviderAlreadyRegistered)
    );
    o.deregister_provider(&env, ADMIN, AccountId { id: 1_000 }).unwrap();
    o.register_provider(&env, ADMIN, AccountId { id: 5 }).unwrap();
    assert_eq!(o.providers.len(), MAX_PROVIDERS);
}
