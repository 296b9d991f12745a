use stellaiverse::context::{AccountId, Context};
use stellaiverse::proxy::{ProxyError, StellAIverseProxy};

const ADMIN: AccountId = AccountId { id: 1 };
const V1: AccountId = AccountId { id: 10 };
const V2: AccountId = AccountId { id: 11 };

#[test]
fn upgrade_pauses_records_and_resumes() {
    let mut p = StellAIverseProxy::new(Some(ADMIN), Some(V1));
    assert_eq!(p.__dispatch(), Ok(V1));

    let env = Context::new(777, 1, AccountId { id: 500 });
    assert_eq!(p.upgrade(&env, V2), Ok(V2));
    assert!(p.paused);
    assert_eq!(p.__dispatch(), Err(ProxyError::Paused));
    assert_eq!(p.history, vec![(777, V2)]);

    p.resume();
    assert_eq!(p.__dispatch(), Ok(V2));
}

#[test]
fn upgrade_refusals() {
    let mut no_admin = StellAIverseProxy::new(None, Some(V1));
    let env = Context::new(1, 1, AccountId { id: 500 });
    assert_eq!(no_admin.upgrade(&env, V2), Err(ProxyError::AdminNotSet));

    let mut p = StellAIverseProxy::new(Some(ADMIN), None);
    assert_eq!(p.__dispatch(), Err(ProxyError::ImplementationNotSet));
    let other = Context::with_signers(1, 1, AccountId { id: 500 }, vec![V1]);
    assert_eq!(p.upgrade(&other, V2), Err(ProxyError::NotAuthorized));
    assert!(!p.paused);
    assert!(p.history.is_empty());
}
