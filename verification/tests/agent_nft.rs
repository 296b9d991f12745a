use stellaiverse::agent_nft::{AgentError, AgentNFT};
use stellaiverse::context::{AccountId, Context};

fn ctx(timestamp: u64) -> Context {
    Context::new(timestamp, 1, AccountId { id: 500 })
}

fn setup() -> (AgentNFT, AccountId) {
    let admin = AccountId { id: 1 };
    let mut nft = AgentNFT::new();
    nft.init_contract(&ctx(10), admin).unwrap();
    (nft, admin)
}

#[test]
fn init_only_once() {
    let (mut nft, admin) = setup();
    assert_eq!(nft.init_contract(&ctx(11), AccountId { id: 2 }), Err(AgentError::AlreadyInitialized));
    assert_eq!(nft.admin, Some(admin));
    assert_eq!(nft.verify_admin(admin), Ok(()));
    assert_eq!(nft.verify_admin(AccountId { id: 2 }), Err(AgentError::CallerNotAdmin));
    assert_eq!(AgentNFT::new().verify_admin(admin), Err(AgentError::AdminNotSet));
}

#[test]
fn init_requires_authorization() {
    let mut nft = AgentNFT::new();
    let env = Context::with_signers(10, 1, AccountId { id: 500 }, vec![AccountId { id: 9 }]);
    assert_eq!(nft.init_contract(&env, AccountId { id: 1 }), Err(AgentError::NotAuthorized));
    assert_eq!(nft.admin, None);
}

#[test]
fn mint_assigns_consecutive_ids() {
    let (mut nft, _) = setup();
    let owner = AccountId { id: 7 };
    let id1 = nft
        .mint_agent(&ctx(100), owner, "alpha".to_string(), "hash".to_string(), vec!["chat".to_string()])
        .unwrap();
    let id2 = nft.mint_agent(&ctx(200), owner, "beta".to_string(), "hash2".to_string(), vec![]).unwrap();
    assert_eq!((id1, id2), (1, 2));
    assert_eq!(nft.total_agents(), 2);

    let a = nft.get_agent(1).unwrap().unwrap();
    assert_eq!(a.id, 1);
    assert_eq!(a.owner, owner);
    assert_eq!(a.name, "alpha");
    assert_eq!(a.capabilities, vec!["chat".to_string()]);
    assert_eq!(a.evolution_level, 0);
    assert_eq!(a.nonce, 0);
    assert_eq!((a.created_at, a.updated_at), (100, 100));
    assert!(nft.get_agent(3).unwrap().is_none());
    assert_eq!(nft.get_agent(0), Err(AgentError::InvalidAgentId));
}

#[test]
fn mint_validates_inputs() {
    let (mut nft, _) = setup();
    let owner = AccountId { id: 7 };
    let long = "x".repeat(257);
    let fits = "x".repeat(256);
    assert_eq!(
        nft.mint_agent(&ctx(1), owner, long.clone(), "h".to_string(), vec![]),
        Err(AgentError::NameTooLong)
    );
    assert_eq!(
        nft.mint_agent(&ctx(1), owner, "n".to_string(), long.clone(), vec![]),
        Err(AgentError::ModelHashTooLong)
    );
    let many: Vec<String> = (0..33).map(|i| format!("c{}", i)).collect();
    assert_eq!(
        nft.mint_agent(&ctx(1), owner, "n".to_string(), "h".to_string(), many),
        Err(AgentError::TooManyCapabilities)
    );
    assert_eq!(
        nft.mint_agent(&ctx(1), owner, "n".to_string(), "h".to_string(), vec![long]),
        Err(AgentError::CapabilityTooLong)
    );
    assert_eq!(nft.total_agents(), 0);
    // lengths are counted in bytes: 128 two-byte characters fit, 129 do not
    assert!(nft.mint_agent(&ctx(1), owner, "é".repeat(128), fits, vec![]).is_ok());
    assert_eq!(
        nft.mint_agent(&ctx(1), owner, "é".repeat(129), "h".to_string(), vec![]),
        Err(AgentError::NameTooLong)
    );
}

#[test]
fn mint_counter_overflow() {
    let (mut nft, _) = setup();
    nft.agent_counter = u64::MAX;
    assert_eq!(
        nft.mint_agent(&ctx(1), AccountId { id: 7 }, "n".to_string(), "h".to_string(), vec![]),
        Err(AgentError::Overflow)
    );
}

#[test]
fn update_increments_nonce_and_checks_owner() {
    let (mut nft, _) = setup();
    let owner = AccountId { id: 7 };
    let id = nft.mint_agent(&ctx(100), owner, "alpha".to_string(), "hash".to_string(), vec![]).unwrap();
    assert_eq!(nft.get_nonce(id), Ok(0));

    nft.update_agent(&ctx(150), id, owner, Some("renamed".to_string()), None).unwrap();
    nft.update_agent(&ctx(160), id, owner, None, Some(vec!["search".to_string()])).unwrap();
    let a = nft.get_agent(id).unwrap().unwrap();
    assert_eq!(a.name, "renamed");
    assert_eq!(a.capabilities, vec!["search".to_string()]);
    assert_eq!(a.nonce, 2);
    assert_eq!(a.updated_at, 160);
    assert_eq!(a.created_at, 100);
    assert_eq!(nft.get_nonce(id), Ok(2));

    assert_eq!(nft.update_agent(&ctx(170), id, AccountId { id: 8 }, None, None), Err(AgentError::NotOwner));
    assert_eq!(nft.update_agent(&ctx(170), 0, owner, None, None), Err(AgentError::InvalidAgentId));
    assert_eq!(nft.update_agent(&ctx(170), 9, owner, None, None), Err(AgentError::AgentNotFound));
    assert_eq!(
        nft.update_agent(&ctx(170), id, owner, Some("y".repeat(300)), None),
        Err(AgentError::NameTooLong)
    );
    assert_eq!(nft.get_nonce(id), Ok(2));
    assert_eq!(nft.get_nonce(9), Ok(0));
    assert_eq!(nft.get_nonce(0), Err(AgentError::InvalidAgentId));
}

#[test]
fn safe_add_reports_overflow() {
    assert_eq!(AgentNFT::safe_add(2, 3), Ok(5));
    assert_eq!(AgentNFT::safe_add(u64::MAX, 1), Err(AgentError::Overflow));
}
