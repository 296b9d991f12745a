use stellaiverse::context::{AccountId, Context};
use stellaiverse::execution_hub::{
    next_rate_window, ExecutionHub, HubError, RateWindow, ACTION_RATE_LIMIT,
};
use stellaiverse::types::Agent;

const OWNER: AccountId = AccountId { id: 7 };

fn ctx(timestamp: u64) -> Context {
    Context::new(timestamp, 1, AccountId { id: 500 })
}

fn agent(id: u64, owner: AccountId) -> Agent {
    Agent {
        id,
        owner,
        name: "a".to_string(),
        model_hash: "h".to_string(),
        metadata_cid: String::new(),
        capabilities: vec![],
        evolution_level: 0,
        created_at: 0,
        updated_at: 0,
        nonce: 0,
        escrow_locked: false,
        escrow_holder: None,
    }
}

fn hub_with_agent() -> ExecutionHub {
    let mut hub = ExecutionHub::new();
    hub.init_contract(&ctx(1), AccountId { id: 1 }).unwrap();
    hub.agents.insert(1, agent(1, OWNER));
    hub
}

#[test]
fn action_nonce_replay_refused() {
    let mut hub = hub_with_agent();
    assert_eq!(hub.execute_action(&ctx(100), 1, OWNER, "run".to_string(), vec![1, 2], 5), Ok(true));
    assert_eq!(hub.get_action_nonce(1), 5);
    assert_eq!(
        hub.execute_action(&ctx(101), 1, OWNER, "run".to_string(), vec![], 5),
        Err(HubError::ReplayedNonce)
    );
    assert_eq!(
        hub.execute_action(&ctx(101), 1, OWNER, "run".to_string(), vec![], 4),
        Err(HubError::ReplayedNonce)
    );
    assert_eq!(hub.execute_action(&ctx(102), 1, OWNER, "walk".to_string(), vec![], 6), Ok(true));
    assert_eq!(hub.get_action_nonce(1), 6);
    let history = hub.get_history(1, 10).unwrap();
    assert_eq!(history.len(), 2);
    assert_eq!(history[0].action, "run");
    assert_eq!(history[1].action, "walk");
    assert_eq!(history[1].timestamp, 102);
    assert_eq!(history[1].executor, OWNER);
}

#[test]
fn action_checks_and_errors() {
    let mut hub = hub_with_agent();
    let env = ctx(100);
    assert_eq!(hub.execute_action(&env, 0, OWNER, "r".to_string(), vec![], 1), Err(HubError::InvalidAgentId));
    assert_eq!(
        hub.execute_action(&env, 1, OWNER, "r".repeat(257), vec![], 1),
        Err(HubError::ActionNameTooLong)
    );
    assert_eq!(
        hub.execute_action(&env, 1, OWNER, "r".to_string(), vec![0u8; 65537], 1),
        Err(HubError::ParametersTooLarge)
    );
    assert_eq!(
        hub.execute_action(&env, 2, OWNER, "r".to_string(), vec![], 1),
        Err(HubError::AgentNotFound)
    );
    assert_eq!(
        hub.execute_action(&env, 1, AccountId { id: 8 }, "r".to_string(), vec![], 1),
        Err(HubError::NotAgentOwner)
    );
    let signed_by_other = Context::with_signers(100, 1, AccountId { id: 500 }, vec![AccountId { id: 8 }]);
    assert_eq!(
        hub.execute_action(&signed_by_other, 1, OWNER, "r".to_string(), vec![], 1),
        Err(HubError::NotAuthorized)
    );
    assert_eq!(hub.get_action_nonce(1), 0);
    assert!(hub.get_history(1, 10).unwrap().is_empty());
}

#[test]
fn rate_limit_allows_hundred_per_window() {
    let mut hub = hub_with_agent();
    for n in 1..=(ACTION_RATE_LIMIT as u64) {
        assert_eq!(hub.execute_action(&ctx(1_000), 1, OWNER, "r".to_string(), vec![], n), Ok(true));
    }
    assert_eq!(
        hub.execute_action(&ctx(1_060), 1, OWNER, "r".to_string(), vec![], 101),
        Err(HubError::RateLimitExceeded)
    );
    // once the window has elapsed a new one opens
    assert_eq!(hub.execute_action(&ctx(1_061), 1, OWNER, "r".to_string(), vec![], 101), Ok(true));
    assert_eq!(hub.get_history(1, 500).unwrap().len(), 101);
    assert_eq!(hub.get_history(1, 3).unwrap()[2].timestamp, 1_061);
}

#[test]
fn rate_window_steps() {
    assert_eq!(next_rate_window(None, 50, 2, 60), Ok(RateWindow { last_reset: 50, count: 1 }));
    let w = RateWindow { last_reset: 50, count: 1 };
    assert_eq!(next_rate_window(Some(w), 110, 2, 60), Ok(RateWindow { last_reset: 50, count: 2 }));
    let full = RateWindow { last_reset: 50, count: 2 };
    assert_eq!(next_rate_window(Some(full), 110, 2, 60), Err(HubError::RateLimitExceeded));
    assert_eq!(next_rate_window(Some(full), 111, 2, 60), Ok(RateWindow { last_reset: 111, count: 1 }));
    let late = RateWindow { last_reset: u64::MAX - 5, count: 0 };
    assert_eq!(next_rate_window(Some(late), 0, 2, 60), Err(HubError::Overflow));
}

#[test]
fn history_query_limits() {
    let mut hub = hub_with_agent();
    for n in 1..=4u64 {
        hub.execute_action(&ctx(n), 1, OWNER, format!("a{}", n), vec![], n).unwrap();
    }
    let last_two = hub.get_history(1, 2).unwrap();
    assert_eq!(last_two.len(), 2);
    assert_eq!(last_two[0].action, "a3");
    assert_eq!(last_two[1].action, "a4");
    assert_eq!(hub.get_history(1, 501), Err(HubError::LimitTooLarge));
    assert_eq!(hub.get_history(0, 1), Err(HubError::InvalidAgentId));
    assert!(hub.get_history(9, 5).unwrap().is_empty());
}

#[test]
fn rules_register_and_revoke() {
    let mut hub = hub_with_agent();
    let env = ctx(5);
    hub.register_rule(&env, 1, OWNER, "limit".to_string(), vec![1, 2, 3]).unwrap();
    assert_eq!(
        hub.register_rule(&env, 1, OWNER, "r".repeat(257), vec![]),
        Err(HubError::RuleNameTooLong)
    );
    assert_eq!(
        hub.register_rule(&env, 1, OWNER, "big".to_string(), vec![0u8; 65537]),
        Err(HubError::RuleDataTooLarge)
    );
    assert_eq!(
        hub.revoke_rule(&env, 1, AccountId { id: 8 }, "limit".to_string()),
        Err(HubError::NotAgentOwner)
    );
    assert_eq!(hub.revoke_rule(&env, 3, OWNER, "limit".to_string()), Err(HubError::AgentNotFound));
    hub.revoke_rule(&env, 1, OWNER, "limit".to_string()).unwrap();
}

#[test]
fn hub_admin() {
    let mut hub = ExecutionHub::new();
    assert_eq!(hub.verify_admin(AccountId { id: 1 }), Err(HubError::AdminNotSet));
    hub.init_contract(&ctx(1), AccountId { id: 1 }).unwrap();
    assert_eq!(hub.init_contract(&ctx(1), AccountId { id: 2 }), Err(HubError::AlreadyInitialized));
    assert_eq!(hub.verify_admin(AccountId { id: 1 }), Ok(()));
    assert_eq!(hub.verify_admin(AccountId { id: 2 }), Err(HubError::CallerNotAdmin));
}
