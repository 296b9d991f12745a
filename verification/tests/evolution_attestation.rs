use stellaiverse::context::{AccountId, Context};
use stellaiverse::evolution::{Evolution, EvolutionError};
use stellaiverse::types::{
    Agent, EvolutionAttestation, EvolutionRequest, EvolutionStatus, MAX_ATTESTATION_DATA_SIZE,
};

struct TestSetup {
    env: Context,
    evolution: Evolution,
    owner: AccountId,
    oracle_provider: AccountId,
}

impl TestSetup {
    fn new() -> Self {
        let env = Context::new(1_000, 1, AccountId { id: 100 });
        let admin = AccountId { id: 1 };
        let owner = AccountId { id: 2 };
        let oracle_provider = AccountId { id: 3 };
        let mut evolution = Evolution::new();
        evolution.init_contract(&env, admin).unwrap();
        TestSetup { env, evolution, owner, oracle_provider }
    }

    fn create_mock_agent(&mut self, id: u64) -> Agent {
        let agent = Agent {
            id,
            owner: self.owner,
            name: "TestAgent".to_string(),
            model_hash: "original_hash".to_string(),
            metadata_cid: String::new(),
            capabilities: vec!["execute".to_string()],
            evolution_level: 0,
            created_at: self.env.timestamp,
            updated_at: self.env.timestamp,
            nonce: 0,
            escrow_locked: false,
            escrow_holder: None,
        };
        self.evolution.agents.insert(id, agent.clone());
        agent
    }

    fn create_evolution_request(&mut self, request_id: u64, agent_id: u64) -> EvolutionRequest {
        let request = EvolutionRequest {
            request_id,
            agent_id,
            owner: self.owner,
            stake_amount: 1000,
            status: EvolutionStatus::Pending,
            created_at: self.env.timestamp,
            completed_at: None,
        };
        self.evolution.requests.insert(request_id, request);
        request
    }

    fn create_attestation(&self, request_id: u64, agent_id: u64, nonce: u64) -> EvolutionAttestation {
        EvolutionAttestation {
            request_id,
            agent_id,
            oracle_provider: self.oracle_provider,
            new_model_hash: "upgraded_hash_v1".to_string(),
            attestation_data: b"training_data_hash".to_vec(),
            signature: vec![0u8; 64],
            timestamp: self.env.timestamp,
            nonce,
        }
    }

    fn agent(&self, id: u64) -> Agent {
        self.evolution.agents.get(&id).unwrap().clone()
    }

    fn request(&self, id: u64) -> EvolutionRequest {
        *self.evolution.requests.get(&id).unwrap()
    }

    fn reset_request(&mut self, id: u64) {
        let mut request = self.request(id);
        request.status = EvolutionStatus::Pending;
        request.completed_at = None;
        self.evolution.requests.insert(id, request);
    }
}

#[test]
fn test_valid_attestation_updates_agent() {
    let mut setup = TestSetup::new();
    setup.create_mock_agent(1);
    setup.create_evolution_request(1, 1);

    let initial_agent = setup.agent(1);
    assert_eq!(initial_agent.evolution_level, 0);
    assert_eq!(initial_agent.model_hash, "original_hash");

    let attestation = setup.create_attestation(1, 1, 1);
    let env = Context::new(1_000, 1, AccountId { id: 100 });
    setup.evolution.apply_attestation(&env, attestation).unwrap();

    let updated_agent = setup.agent(1);
    assert_eq!(updated_agent.evolution_level, 1);
    assert_eq!(updated_agent.model_hash, "upgraded_hash_v1");
    assert_eq!(updated_agent.nonce, 1);

    let updated_request = setup.request(1);
    assert_eq!(updated_request.status, EvolutionStatus::Completed);
    assert!(updated_request.completed_at.is_some());
}

#[test]
fn test_attestation_invalid_signature_size_rejected() {
    let mut setup = TestSetup::new();
    setup.create_mock_agent(1);
    setup.create_evolution_request(1, 1);

    let mut attestation = setup.create_attestation(1, 1, 1);
    attestation.signature = vec![0u8; 32];

    let env = Context::new(1_000, 1, AccountId { id: 100 });
    let result = setup.evolution.apply_attestation(&env, attestation);
    assert_eq!(result, Err(EvolutionError::InvalidSignatureSize));
}

#[test]
fn test_replay_protection_prevents_reuse() {
    let mut setup = TestSetup::new();
    setup.create_mock_agent(1);
    setup.create_evolution_request(1, 1);
    let env = Context::new(1_000, 1, AccountId { id: 100 });

    let attestation1 = setup.create_attestation(1, 1, 1);
    setup.evolution.apply_attestation(&env, attestation1).unwrap();
    assert_eq!(setup.agent(1).evolution_level, 1);

    setup.reset_request(1);

    let attestation2 = setup.create_attestation(1, 1, 1);
    let result = setup.evolution.apply_attestation(&env, attestation2);
    assert_eq!(result, Err(EvolutionError::ReplayedNonce));

    assert_eq!(setup.agent(1).evolution_level, 1);
}

#[test]
fn test_replay_protection_with_higher_nonce_allowed() {
    let mut setup = TestSetup::new();
    setup.create_mock_agent(1);
    setup.create_evolution_request(1, 1);
    let env = Context::new(1_000, 1, AccountId { id: 100 });

    let attestation1 = setup.create_attestation(1, 1, 1);
    setup.evolution.apply_attestation(&env, attestation1).unwrap();
    assert_eq!(setup.agent(1).evolution_level, 1);

    setup.reset_request(1);

    let attestation2 = setup.create_attestation(1, 1, 2);
    setup.evolution.apply_attestation(&env, attestation2).unwrap();
    assert_eq!(setup.agent(1).evolution_level, 2);
}

#[test]
fn test_attestation_invalid_request_rejected() {
    let mut setup = TestSetup::new();
    setup.create_mock_agent(1);

    let attestation = setup.create_attestation(999, 1, 1);
    let env = Context::new(1_000, 1, AccountId { id: 100 });
    let result = setup.evolution.apply_attestation(&env, attestation);
    assert_eq!(result, Err(EvolutionError::RequestNotFound));
}

#[test]
fn test_attestation_agent_mismatch_rejected() {
    let mut setup = TestSetup::new();
    setup.create_mock_agent(1);
    setup.create_evolution_request(1, 1);

    let mut attestation = setup.create_attestation(1, 1, 1);
    attestation.agent_id = 999;

    let env = Context::new(1_000, 1, AccountId { id: 100 });
    let result = setup.evolution.apply_attestation(&env, attestation);
    assert_eq!(result, Err(EvolutionError::AgentMismatch));
}

#[test]
fn test_attestation_non_pending_request_rejected() {
    let mut setup = TestSetup::new();
    setup.create_mock_agent(1);
    setup.create_evolution_request(1, 1);

    let mut request = setup.request(1);
    request.status = EvolutionStatus::Completed;
    setup.evolution.requests.insert(1, request);

    let attestation = setup.create_attestation(1, 1, 1);
    let env = Context::new(1_000, 1, AccountId { id: 100 });
    let result = setup.evolution.apply_attestation(&env, attestation);
    assert_eq!(result, Err(EvolutionError::RequestNotPending));
}

#[test]
fn test_attestation_oversized_data_rejected() {
    let mut setup = TestSetup::new();
    setup.create_mock_agent(1);
    setup.create_evolution_request(1, 1);

    let mut attestation = setup.create_attestation(1, 1, 1);
    attestation.attestation_data = vec![0u8; MAX_ATTESTATION_DATA_SIZE + 1];

    let env = Context::new(1_000, 1, AccountId { id: 100 });
    let result = setup.evolution.apply_attestation(&env, attestation);
    assert_eq!(result, Err(EvolutionError::AttestationDataTooLarge));
}

#[test]
fn test_attestation_updates_nonce_tracking() {
    let mut setup = TestSetup::new();
    setup.create_mock_agent(1);
    setup.create_evolution_request(1, 1);
    let env = Context::new(1_000, 1, AccountId { id: 100 });

    let attestation = setup.create_attestation(1, 1, 5);
    setup.evolution.apply_attestation(&env, attestation).unwrap();

    setup.reset_request(1);

    let attestation_low = setup.create_attestation(1, 1, 3);
    let result = setup.evolution.apply_attestation(&env, attestation_low);
    assert_eq!(result, Err(EvolutionError::ReplayedNonce));
}

#[test]
fn test_multiple_attestations_sequential() {
    let mut setup = TestSetup::new();
    setup.create_mock_agent(1);
    setup.create_evolution_request(1, 1);
    let env = Context::new(1_000, 1, AccountId { id: 100 });

    let att1 = setup.create_attestation(1, 1, 1);
    setup.evolution.apply_attestation(&env, att1).unwrap();
    assert_eq!(setup.agent(1).evolution_level, 1);

    setup.reset_request(1);

    let mut att2 = setup.create_attestation(1, 1, 2);
    att2.new_model_hash = "upgraded_hash_v2".to_string();
    setup.evolution.apply_attestation(&env, att2).unwrap();

    let agent2 = setup.agent(1);
    assert_eq!(agent2.evolution_level, 2);
    assert_eq!(agent2.model_hash, "upgraded_hash_v2");
}

#[test]
fn attestation_from_unauthorized_provider_rejected() {
    let mut setup = TestSetup::new();
    setup.create_mock_agent(1);
    setup.create_evolution_request(1, 1);
    let env = Context::with_signers(1_000, 1, AccountId { id: 100 }, vec![AccountId { id: 77 }]);
    let attestation = setup.create_attestation(1, 1, 1);
    assert_eq!(setup.evolution.apply_attestation(&env, attestation), Err(EvolutionError::NotAuthorized));
    assert_eq!(setup.agent(1).evolution_level, 0);
    assert!(setup.evolution.attestation_nonces.get(&1).is_none());
}

#[test]
fn attestation_with_zero_ids_rejected() {
    let mut setup = TestSetup::new();
    setup.create_mock_agent(1);
    setup.create_evolution_request(1, 1);
    let env = Context::new(1_000, 1, AccountId { id: 100 });
    let a = setup.create_attestation(0, 1, 1);
    assert_eq!(setup.evolution.apply_attestation(&env, a), Err(EvolutionError::InvalidRequestId));
    let b = setup.create_attestation(1, 0, 1);
    assert_eq!(setup.evolution.apply_attestation(&env, b), Err(EvolutionError::InvalidAgentId));
}

#[test]
fn attestation_acts_on_the_request_it_names() {
    let mut setup = TestSetup::new();
    setup.create_mock_agent(1);
    setup.create_evolution_request(1, 1);
    let env = Context::new(1_000, 1, AccountId { id: 100 });

    // request 2 does not exist, although request 1 is pending for the same agent
    let wrong = setup.create_attestation(2, 1, 1);
    assert_eq!(setup.evolution.apply_attestation(&env, wrong), Err(EvolutionError::RequestNotFound));
    assert_eq!(setup.agent(1).evolution_level, 0);
    assert_eq!(setup.request(1).status, EvolutionStatus::Pending);

    setup.create_evolution_request(2, 1);
    let att = setup.create_attestation(2, 1, 1);
    setup.evolution.apply_attestation(&env, att).unwrap();
    assert_eq!(setup.request(2).status, EvolutionStatus::Completed);
    assert_eq!(setup.request(1).status, EvolutionStatus::Pending);
    assert_eq!(*setup.evolution.attestation_nonces.get(&1).unwrap(), 1);
}
