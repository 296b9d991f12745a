use stellaiverse::context::{AccountId, Context};
use stellaiverse::evolution::{Evolution, EvolutionError};
use stellaiverse::evolution_history::{
    append_evolution, get_evolution_at_index, get_evolution_count, get_evolution_history,
    get_latest_evolution, EvolutionHistoryStore,
};
use stellaiverse::types::{Agent, EvolutionStatus};

const ADMIN: AccountId = AccountId { id: 1 };
const OWNER: AccountId = AccountId { id: 2 };
const TOKEN: AccountId = AccountId { id: 3 };

fn ctx(timestamp: u64) -> Context {
    Context::new(timestamp, 1, AccountId { id: 500 })
}

fn with_agent() -> Evolution {
    let mut e = Evolution::new();
    e.init_contract(&ctx(1), ADMIN).unwrap();
    e.agents.insert(1, Agent {
        id: 1,
        owner: OWNER,
        name: "a".to_string(),
        model_hash: "m0".to_string(),
        metadata_cid: String::new(),
        capabilities: vec![],
        evolution_level: 0,
        created_at: 0,
        updated_at: 0,
        nonce: 0,
        escrow_locked: false,
        escrow_holder: None,
    });
    e
}

#[test]
fn request_complete_and_claim_once() {
    let mut e = with_agent();
    let id = e.request_upgrade(&ctx(10), 1, OWNER, TOKEN, 500).unwrap();
    assert_eq!(id, 1);
    let r = *e.requests.get(&id).unwrap();
    assert_eq!((r.request_id, r.agent_id, r.owner, r.stake_amount), (1, 1, OWNER, 500));
    assert_eq!(r.status, EvolutionStatus::Pending);

    assert_eq!(e.claim_stake(&ctx(11), OWNER, id), Err(EvolutionError::StakeNotAvailable));
    assert_eq!(
        e.complete_upgrade(&ctx(20), OWNER, id, "m1".to_string()),
        Err(EvolutionError::CallerNotAdmin)
    );
    e.complete_upgrade(&ctx(20), ADMIN, id, "m1".to_string()).unwrap();
    let a = e.agents.get(&1).unwrap().clone();
    assert_eq!((a.evolution_level, a.nonce, a.updated_at), (1, 1, 20));
    assert_eq!(a.model_hash, "m1");
    assert_eq!(e.requests.get(&id).unwrap().completed_at, Some(20));
    assert_eq!(e.get_evolution_level(1), Ok(1));
    assert_eq!(e.get_evolution_level(0), Err(EvolutionError::InvalidAgentId));

    assert_eq!(
        e.complete_upgrade(&ctx(21), ADMIN, id, "m2".to_string()),
        Err(EvolutionError::RequestNotPending)
    );
    assert_eq!(e.claim_stake(&ctx(30), AccountId { id: 9 }, id), Err(EvolutionError::NotRequestOwner));
    e.claim_stake(&ctx(30), OWNER, id).unwrap();
    assert_eq!(e.claim_stake(&ctx(31), OWNER, id), Err(EvolutionError::StakeAlreadyClaimed));
}

#[test]
fn request_upgrade_errors() {
    let mut e = with_agent();
    assert_eq!(e.request_upgrade(&ctx(1), 0, OWNER, TOKEN, 5), Err(EvolutionError::InvalidAgentId));
    assert_eq!(e.request_upgrade(&ctx(1), 1, OWNER, TOKEN, 0), Err(EvolutionError::NonPositiveStake));
    assert_eq!(
        e.request_upgrade(&ctx(1), 1, OWNER, TOKEN, i128::MAX),
        Err(EvolutionError::StakeTooLarge)
    );
    assert_eq!(
        e.request_upgrade(&ctx(1), 1, AccountId { id: 9 }, TOKEN, 5),
        Err(EvolutionError::NotAgentOwner)
    );
    assert_eq!(
        Evolution::new().request_upgrade(&ctx(1), 1, OWNER, TOKEN, 5),
        Err(EvolutionError::AgentNotFound)
    );
    assert_eq!(e.request_counter, 0);
    assert!(e.requests.get(&1).is_none());
}

#[test]
fn evolution_history_records_in_order() {
    let mut store = EvolutionHistoryStore::new();
    let (a, b) = (AccountId { id: 5 }, AccountId { id: 6 });
    assert!(get_evolution_history(&store, a).is_empty());
    assert!(get_latest_evolution(&store, a).is_none());

    append_evolution(&mut store, &ctx(100), a, 1, 2, "admin_exe".to_string());
    append_evolution(&mut store, &ctx(200), a, 2, 3, "oracle".to_string());
    append_evolution(&mut store, &ctx(300), b, 0, 1, "admin_exe".to_string());

    let h = get_evolution_history(&store, a);
    assert_eq!(h.len(), 2);
    assert_eq!((h[0].from_stage, h[0].to_stage, h[0].timestamp), (1, 2, 100));
    assert_eq!(h[0].trigger, "admin_exe");
    assert_eq!(h[0].agent_id, a);
    assert_eq!(get_evolution_count(&store, a), 2);
    assert_eq!(get_evolution_count(&store, b), 1);
    assert_eq!(get_latest_evolution(&store, a).unwrap().to_stage, 3);
    assert_eq!(get_evolution_at_index(&store, a, 1).unwrap().trigger, "oracle");
    assert!(get_evolution_at_index(&store, a, 2).is_none());
}

#[test]
fn stake_claims_are_per_request() {
    let mut e = with_agent();
    let first = e.request_upgrade(&ctx(10), 1, OWNER, TOKEN, 500).unwrap();
    e.complete_upgrade(&ctx(20), ADMIN, first, "m1".to_string()).unwrap();
    e.claim_stake(&ctx(30), OWNER, first).unwrap();

    let second = e.request_upgrade(&ctx(40), 1, OWNER, TOKEN, 700).unwrap();
    assert_eq!(second, 2);
    assert_eq!(e.claim_stake(&ctx(41), OWNER, second), Err(EvolutionError::StakeNotAvailable));
    e.complete_upgrade(&ctx(50), ADMIN, second, "m2".to_string()).unwrap();
    assert_eq!(e.get_evolution_level(1), Ok(2));
    e.claim_stake(&ctx(60), OWNER, second).unwrap();
    assert_eq!(e.claim_stake(&ctx(61), OWNER, second), Err(EvolutionError::StakeAlreadyClaimed));
    assert_eq!(e.claim_stake(&ctx(61), OWNER, first), Err(EvolutionError::StakeAlreadyClaimed));
    assert_eq!(e.claim_stake(&ctx(61), OWNER, 3), Err(EvolutionError::RequestNotFound));
    assert_eq!(
        e.complete_upgrade(&ctx(62), ADMIN, 3, "m3".to_string()),
        Err(EvolutionError::RequestNotFound)
    );
}
