use vstd::prelude::*;
use vstd::hash_map::HashMapWithView;
use vstd::hash_set::HashSetWithView;
use crate::context::{AccountId, Context, byte_len, text_len};
use crate::types::{
    Agent, EvolutionAttestation, EvolutionRequest, EvolutionStatus, ATTESTATION_SIGNATURE_SIZE,
    MAX_ATTESTATION_DATA_SIZE, MAX_STRING_LENGTH, PRICE_UPPER_BOUND,
};

verus! {

broadcast use vstd::std_specs::hash::group_hash_axioms;

/// Why the evolution contract rejected a call.
#[derive(Clone, Copy, Debug, PartialEq, Eq, Structural)]
pub enum EvolutionError {
    AlreadyInitialized,
    NotAuthorized,
    AdminNotSet,
    CallerNotAdmin,
    InvalidAgentId,
    InvalidRequestId,
    NonPositiveStake,
    StakeTooLarge,
    AgentNotFound,
    NotAgentOwner,
    TooManyPendingRequests,
    Overflow,
    ModelHashTooLong,
    RequestNotFound,
    RequestNotPending,
    NotRequestOwner,
    StakeNotAvailable,
    StakeAlreadyClaimed,
    InvalidSignatureSize,
    AttestationDataTooLarge,
    ReplayedNonce,
    AgentMismatch,
}

/// Most pending upgrade requests one agent may have.
pub const MAX_PENDING_REQUESTS: u32 = 5;

/// Storage of the evolution contract: its admin, the request counter, the
/// agent records by agent id, the upgrade requests by request id, the ids of
/// the requests whose stake has been claimed, and the last attestation nonce
/// accepted for each agent.
pub struct Evolution {
    pub admin: Option<AccountId>,
    pub request_counter: u64,
    pub agents: HashMapWithView<u64, Agent>,
    pub requests: HashMapWithView<u64, EvolutionRequest>,
    pub claimed_stakes: HashSetWithView<u64>,
    pub attestation_nonces: HashMapWithView<u64, u64>,
}

/// The evolution contract's storage as plain values.
pub struct EvolutionView {
    pub admin: Option<AccountId>,
    pub request_counter: u64,
    pub agents: Map<u64, Agent>,
    pub requests: Map<u64, EvolutionRequest>,
    pub claimed: Set<u64>,
    pub attestation_nonces: Map<u64, u64>,
}

impl View for Evolution {
    type V = EvolutionView;

    open spec fn view(&self) -> EvolutionView {
        EvolutionView {
            admin: self.admin,
            request_counter: self.request_counter,
            agents: self.agents@,
            requests: self.requests@,
            claimed: self.claimed_stakes@,
            attestation_nonces: self.attestation_nonces@,
        }
    }
}

/// Number of pending upgrade requests recorded for `agent_id`; the contract
/// keeps no index of them, so the count is always zero.
pub fn count_pending_requests(agent_id: u64) -> (n: u32)
    ensures
        n == 0,
{
    0
}

/// `agent` after one evolution step: new model hash, level and nonce one up,
/// updated at `now`.
pub open spec fn evolved(agent: Agent, new_model_hash: String, now: u64) -> Agent {
    Agent {
        model_hash: new_model_hash,
        evolution_level: (agent.evolution_level + 1) as u32,
        updated_at: now,
        nonce: (agent.nonce + 1) as u64,
        ..agent
    }
}

/// Whether one more evolution step fits in the agent's counters.
pub open spec fn can_evolve(agent: Agent) -> bool {
    agent.evolution_level + 1 <= u32::MAX && agent.nonce + 1 <= u64::MAX
}

/// `r` completed at `now`.
pub open spec fn completed(r: EvolutionRequest, now: u64) -> EvolutionRequest {
    EvolutionRequest { status: EvolutionStatus::Completed, completed_at: Some(now), ..r }
}

impl EvolutionView {
    /// The first reason to refuse an upgrade request, if any.
    pub open spec fn request_upgrade_check(
        self,
        env: &Context,
        agent_id: u64,
        owner: AccountId,
        stake_amount: i128,
    ) -> Result<(), EvolutionError> {
        if !env.authorizes(owner) {
            Err(EvolutionError::NotAuthorized)
        } else if agent_id == 0 {
            Err(EvolutionError::InvalidAgentId)
        } else if stake_amount <= 0 {
            Err(EvolutionError::NonPositiveStake)
        } else if stake_amount > PRICE_UPPER_BOUND {
            Err(EvolutionError::StakeTooLarge)
        } else if !self.agents.contains_key(agent_id) {
            Err(EvolutionError::AgentNotFound)
        } else if self.agents[agent_id].owner != owner {
            Err(EvolutionError::NotAgentOwner)
        } else if self.request_counter + 1 > u64::MAX {
            Err(EvolutionError::Overflow)
        } else {
            Ok(())
        }
    }

    /// The first reason to refuse completing request `request_id`, if any.
    pub open spec fn complete_upgrade_check(
        self,
        env: &Context,
        admin: AccountId,
        request_id: u64,
        new_model_hash: String,
    ) -> Result<(), EvolutionError> {
        if !env.authorizes(admin) {
            Err(EvolutionError::NotAuthorized)
        } else if request_id == 0 {
            Err(EvolutionError::InvalidRequestId)
        } else if byte_len(new_model_hash) > MAX_STRING_LENGTH {
            Err(EvolutionError::ModelHashTooLong)
        } else if self.admin is None {
            Err(EvolutionError::AdminNotSet)
        } else if self.admin.unwrap() != admin {
            Err(EvolutionError::CallerNotAdmin)
        } else if !self.requests.contains_key(request_id) {
            Err(EvolutionError::RequestNotFound)
        } else if self.requests[request_id].status != EvolutionStatus::Pending {
            Err(EvolutionError::RequestNotPending)
        } else if !self.agents.contains_key(self.requests[request_id].agent_id) {
            Err(EvolutionError::AgentNotFound)
        } else if !can_evolve(self.agents[self.requests[request_id].agent_id]) {
            Err(EvolutionError::Overflow)
        } else {
            Ok(())
        }
    }

    /// This view with request `request_id` completed at `now` and its agent
    /// evolved to `new_model_hash`.
    pub open spec fn with_completed(self, request_id: u64, new_model_hash: String, now: u64) -> EvolutionView {
        let r = self.requests[request_id];
        EvolutionView {
            agents: self.agents.insert(r.agent_id, evolved(self.agents[r.agent_id], new_model_hash, now)),
            requests: self.requests.insert(request_id, completed(r, now)),
            ..self
        }
    }

    /// The first reason to refuse a stake claim, if any.
    pub open spec fn claim_stake_check(self, env: &Context, owner: AccountId, request_id: u64) -> Result<
        (),
        EvolutionError,
    > {
        if !env.authorizes(owner) {
            Err(EvolutionError::NotAuthorized)
        } else if request_id == 0 {
            Err(EvolutionError::InvalidRequestId)
        } else if !self.requests.contains_key(request_id) {
            Err(EvolutionError::RequestNotFound)
        } else if self.requests[request_id].owner != owner {
            Err(EvolutionError::NotRequestOwner)
        } else if self.requests[request_id].status != EvolutionStatus::Completed
            && self.requests[request_id].status != EvolutionStatus::Failed {
            Err(EvolutionError::StakeNotAvailable)
        } else if self.claimed.contains(request_id) {
            Err(EvolutionError::StakeAlreadyClaimed)
        } else {
            Ok(())
        }
    }

    /// The first reason to refuse an attestation, if any.
    pub open spec fn apply_attestation_check(self, env: &Context, att: EvolutionAttestation) -> Result<
        (),
        EvolutionError,
    > {
        if att.request_id == 0 {
            Err(EvolutionError::InvalidRequestId)
        } else if att.agent_id == 0 {
            Err(EvolutionError::InvalidAgentId)
        } else if byte_len(att.new_model_hash) > MAX_STRING_LENGTH {
            Err(EvolutionError::ModelHashTooLong)
        } else if att.signature@.len() != ATTESTATION_SIGNATURE_SIZE {
            Err(EvolutionError::InvalidSignatureSize)
        } else if att.attestation_data@.len() > MAX_ATTESTATION_DATA_SIZE {
            Err(EvolutionError::AttestationDataTooLarge)
        } else if self.attestation_nonces.contains_key(att.agent_id) && att.nonce
            <= self.attestation_nonces[att.agent_id] {
            Err(EvolutionError::ReplayedNonce)
        } else if !self.requests.contains_key(att.request_id) {
            Err(EvolutionError::RequestNotFound)
        } else if self.requests[att.request_id].status != EvolutionStatus::Pending {
            Err(EvolutionError::RequestNotPending)
        } else if self.requests[att.request_id].agent_id != att.agent_id {
            Err(EvolutionError::AgentMismatch)
        } else if !env.authorizes(att.oracle_provider) {
            Err(EvolutionError::NotAuthorized)
        } else if !self.agents.contains_key(att.agent_id) {
            Err(EvolutionError::AgentNotFound)
        } else if !can_evolve(self.agents[att.agent_id]) {
            Err(EvolutionError::Overflow)
        } else {
            Ok(())
        }
    }
}

impl Evolution {
    /// A contract with nothing stored.
    pub fn new() -> (s: Evolution)
        ensures
            s@.admin is None,
            s@.request_counter == 0,
            s@.agents == Map::<u64, Agent>::empty(),
            s@.requests == Map::<u64, EvolutionRequest>::empty(),
            s@.claimed == Set::<u64>::empty(),
            s@.attestation_nonces == Map::<u64, u64>::empty(),
    {
        Evolution {
            admin: None,
            request_counter: 0,
            agents: HashMapWithView::new(),
            requests: HashMapWithView::new(),
            claimed_stakes: HashSetWithView::new(),
            attestation_nonces: HashMapWithView::new(),
        }
    }

    /// `a + b`, or `Overflow` when the sum leaves `u64`.
    pub fn safe_add(a: u64, b: u64) -> (r: Result<u64, EvolutionError>)
        ensures
            a + b <= u64::MAX ==> r == Ok::<u64, EvolutionError>((a + b) as u64),
            a + b > u64::MAX ==> r == Err::<u64, EvolutionError>(EvolutionError::Overflow),
    {
        match a.checked_add(b) {
            Some(s) => Ok(s),
            None => Err(EvolutionError::Overflow),
        }
    }

    /// One-time setup: `admin` becomes the admin and the request counter starts at 0.
    pub fn init_contract(&mut self, env: &Context, admin: AccountId) -> (r: Result<
        (),
        EvolutionError,
    >)
        ensures
            old(self)@.admin is Some ==> r == Err::<(), EvolutionError>(
                EvolutionError::AlreadyInitialized,
            ),
            old(self)@.admin is None && !env.authorizes(admin) ==> r == Err::<(), EvolutionError>(
                EvolutionError::NotAuthorized,
            ),
            r is Err ==> final(self)@ == old(self)@,
            r is Ok <==> old(self)@.admin is None && env.authorizes(admin),
            r is Ok ==> final(self)@ == (EvolutionView {
                admin: Some(admin),
                request_counter: 0,
                ..old(self)@
            }),
    {
        if self.admin.is_some() {
            return Err(EvolutionError::AlreadyInitialized);
        }
        if !env.require_auth(admin) {
            return Err(EvolutionError::NotAuthorized);
        }
        self.admin = Some(admin);
        self.request_counter = 0;
        Ok(())
    }

    /// Whether `caller` is the admin.
    pub fn verify_admin(&self, caller: AccountId) -> (r: Result<(), EvolutionError>)
        ensures
            self.admin is None ==> r == Err::<(), EvolutionError>(EvolutionError::AdminNotSet),
            self.admin matches Some(a) ==> (a == caller ==> r is Ok) && (a != caller ==> r
                == Err::<(), EvolutionError>(EvolutionError::CallerNotAdmin)),
    {
        match self.admin {
            None => Err(EvolutionError::AdminNotSet),
            Some(a) => if a == caller { Ok(()) } else { Err(EvolutionError::CallerNotAdmin) },
        }
    }

    /// Records a pending upgrade request of agent `agent_id` by its owner with a
    /// positive stake, numbered one past the request counter and stored under
    /// that number (the stake token is not moved).
    pub fn request_upgrade(
        &mut self,
        env: &Context,
        agent_id: u64,
        owner: AccountId,
        stake_token: AccountId,
        stake_amount: i128,
    ) -> (r: Result<u64, EvolutionError>)
        ensures
            match r {
                Err(e) => old(self)@.request_upgrade_check(env, agent_id, owner, stake_amount) == Err::<
                    (),
                    EvolutionError,
                >(e) && final(self)@ == old(self)@,
                Ok(request_id) => {
                    &&& old(self)@.request_upgrade_check(env, agent_id, owner, stake_amount) is Ok
                    &&& request_id == old(self)@.request_counter + 1
                    &&& final(self)@ == (EvolutionView {
                        request_counter: request_id,
                        requests: old(self)@.requests.insert(
                            request_id,
                            EvolutionRequest {
                                request_id,
                                agent_id,
                                owner,
                                stake_amount,
                                status: EvolutionStatus::Pending,
                                created_at: env.timestamp,
                                completed_at: None,
                            },
                        ),
                        ..old(self)@
                    })
                },
            },
    {
        if !env.require_auth(owner) {
            return Err(EvolutionError::NotAuthorized);
        }
        if agent_id == 0 {
            return Err(EvolutionError::InvalidAgentId);
        }
        if stake_amount <= 0 {
            return Err(EvolutionError::NonPositiveStake);
        }
        if stake_amount > PRICE_UPPER_BOUND {
            return Err(EvolutionError::StakeTooLarge);
        }
        match self.agents.get(&agent_id) {
            None => return Err(EvolutionError::AgentNotFound),
            Some(agent) => {
                if agent.owner != owner {
                    return Err(EvolutionError::NotAgentOwner);
                }
            },
        }
        if count_pending_requests(agent_id) >= MAX_PENDING_REQUESTS {
            return Err(EvolutionError::TooManyPendingRequests);
        }
        let request_id = Self::safe_add(self.request_counter, 1)?;
        self.requests.insert(
            request_id,
            EvolutionRequest {
                request_id,
                agent_id,
                owner,
                stake_amount,
                status: EvolutionStatus::Pending,
                created_at: env.timestamp,
                completed_at: None,
            },
        );
        self.request_counter = request_id;
        Ok(request_id)
    }

    /// The admin completes pending request `request_id`: the request's agent
    /// takes the new model hash and goes up one evolution level (and one
    /// nonce); the request is completed now.
    pub fn complete_upgrade(
        &mut self,
        env: &Context,
        admin: AccountId,
        request_id: u64,
        new_model_hash: String,
    ) -> (r: Result<(), EvolutionError>)
        ensures
            match r {
                Err(e) => old(self)@.complete_upgrade_check(env, admin, request_id, new_model_hash)
                    == Err::<(), EvolutionError>(e) && final(self)@ == old(self)@,
                Ok(_) => {
                    &&& old(self)@.complete_upgrade_check(env, admin, request_id, new_model_hash) is Ok
                    &&& final(self)@ == old(self)@.with_completed(
                        request_id,
                        new_model_hash,
                        env.timestamp,
                    )
                },
            },
    {
        if !env.require_auth(admin) {
            return Err(EvolutionError::NotAuthorized);
        }
        if request_id == 0 {
            return Err(EvolutionError::InvalidRequestId);
        }
        if text_len(&new_model_hash) > MAX_STRING_LENGTH as usize {
            return Err(EvolutionError::ModelHashTooLong);
        }
        self.verify_admin(admin)?;
        let request = match self.requests.get(&request_id) {
            None => return Err(EvolutionError::RequestNotFound),
            Some(req) => *req,
        };
        if request.status != EvolutionStatus::Pending {
            return Err(EvolutionError::RequestNotPending);
        }
        self.apply_evolution(env, request.agent_id, new_model_hash)?;
        self.requests.insert(
            request_id,
            EvolutionRequest {
                status: EvolutionStatus::Completed,
                completed_at: Some(env.timestamp),
                ..request
            },
        );
        Ok(())
    }

    /// Moves agent `agent_id` one evolution step forward; `AgentNotFound` or
    /// `Overflow` leave everything as it was.
    fn apply_evolution(&mut self, env: &Context, agent_id: u64, new_model_hash: String) -> (r: Result<
        (),
        EvolutionError,
    >)
        ensures
            !old(self)@.agents.contains_key(agent_id) ==> r == Err::<(), EvolutionError>(
                EvolutionError::AgentNotFound,
            ),
            old(self)@.agents.contains_key(agent_id) && !can_evolve(old(self)@.agents[agent_id])
                ==> r == Err::<(), EvolutionError>(EvolutionError::Overflow),
            r is Err ==> final(self)@ == old(self)@,
            r is Ok <==> old(self)@.agents.contains_key(agent_id) && can_evolve(
                old(self)@.agents[agent_id],
            ),
            r is Ok ==> final(self)@ == (EvolutionView {
                agents: old(self)@.agents.insert(
                    agent_id,
                    evolved(old(self)@.agents[agent_id], new_model_hash, env.timestamp),
                ),
                ..old(self)@
            }),
    {
        match self.agents.get(&agent_id) {
            None => return Err(EvolutionError::AgentNotFound),
            Some(agent) => {
                if agent.evolution_level == u32::MAX || agent.nonce == u64::MAX {
                    return Err(EvolutionError::Overflow);
                }
            },
        }
        let agent = self.agents.remove(&agent_id).unwrap();
        let level = agent.evolution_level + 1;
        let nonce = agent.nonce + 1;
        self.agents.insert(
            agent_id,
            Agent {
                model_hash: new_model_hash,
                evolution_level: level,
                updated_at: env.timestamp,
                nonce,
                ..agent
            },
        );
        proof {
            assert(self.agents@ =~= old(self)@.agents.insert(
                agent_id,
                evolved(old(self)@.agents[agent_id], new_model_hash, env.timestamp),
            ));
        }
        Ok(())
    }

    /// Upgrade history of an agent; the contract keeps no index, so it is always empty.
    pub fn get_upgrade_history(&self, agent_id: u64) -> (r: Result<
        Vec<EvolutionRequest>,
        EvolutionError,
    >)
        ensures
            agent_id == 0 ==> r == Err::<Vec<EvolutionRequest>, EvolutionError>(
                EvolutionError::InvalidAgentId,
            ),
            agent_id != 0 ==> (r matches Ok(v) && v@.len() == 0),
    {
        if agent_id == 0 {
            return Err(EvolutionError::InvalidAgentId);
        }
        Ok(Vec::new())
    }

    /// The owner of a finished request claims its stake, once per request.
    pub fn claim_stake(&mut self, env: &Context, owner: AccountId, request_id: u64) -> (r: Result<
        (),
        EvolutionError,
    >)
        ensures
            r == old(self)@.claim_stake_check(env, owner, request_id),
            r is Err ==> final(self)@ == old(self)@,
            r is Ok ==> final(self)@ == (EvolutionView {
                claimed: old(self)@.claimed.insert(request_id),
                ..old(self)@
            }),
    {
        if !env.require_auth(owner) {
            return Err(EvolutionError::NotAuthorized);
        }
        if request_id == 0 {
            return Err(EvolutionError::InvalidRequestId);
        }
        let request = match self.requests.get(&request_id) {
            None => return Err(EvolutionError::RequestNotFound),
            Some(req) => *req,
        };
        if request.owner != owner {
            return Err(EvolutionError::NotRequestOwner);
        }
        if request.status != EvolutionStatus::Completed && request.status
            != EvolutionStatus::Failed {
            return Err(EvolutionError::StakeNotAvailable);
        }
        if self.claimed_stakes.contains(&request_id) {
            return Err(EvolutionError::StakeAlreadyClaimed);
        }
        self.claimed_stakes.insert(request_id);
        Ok(())
    }

    /// Evolution level of agent `agent_id`, 0 when it is not recorded.
    pub fn get_evolution_level(&self, agent_id: u64) -> (r: Result<u32, EvolutionError>)
        ensures
            agent_id == 0 ==> r == Err::<u32, EvolutionError>(EvolutionError::InvalidAgentId),
            agent_id != 0 ==> r == Ok::<u32, EvolutionError>(
                if self@.agents.contains_key(agent_id) {
                    self@.agents[agent_id].evolution_level
                } else {
                    0
                },
            ),
    {
        if agent_id == 0 {
            return Err(EvolutionError::InvalidAgentId);
        }
        match self.agents.get(&agent_id) {
            Some(a) => Ok(a.evolution_level),
            None => Ok(0),
        }
    }

    /// Applies an oracle attestation to the pending request it names: the
    /// request's agent evolves to the attested model hash, the request is
    /// completed now, and the attestation nonce is remembered for the agent so
    /// that no nonce at or below it is accepted again for that agent.
    pub fn apply_attestation(&mut self, env: &Context, attestation: EvolutionAttestation) -> (r:
        Result<(), EvolutionError>)
        ensures
            match r {
                Err(e) => old(self)@.apply_attestation_check(env, attestation) == Err::<
                    (),
                    EvolutionError,
                >(e) && final(self)@ == old(self)@,
                Ok(_) => {
                    &&& old(self)@.apply_attestation_check(env, attestation) is Ok
                    &&& final(self)@ == (EvolutionView {
                        attestation_nonces: old(self)@.attestation_nonces.insert(
                            attestation.agent_id,
                            attestation.nonce,
                        ),
                        ..old(self)@.with_completed(
                            attestation.request_id,
                            attestation.new_model_hash,
                            env.timestamp,
                        )
                    })
                },
            },
    {
        if attestation.request_id == 0 {
            return Err(EvolutionError::InvalidRequestId);
        }
        if attestation.agent_id == 0 {
            return Err(EvolutionError::InvalidAgentId);
        }
        if text_len(&attestation.new_model_hash) > MAX_STRING_LENGTH as usize {
            return Err(EvolutionError::ModelHashTooLong);
        }
        if attestation.signature.len() != ATTESTATION_SIGNATURE_SIZE {
            return Err(EvolutionError::InvalidSignatureSize);
        }
        if attestation.attestation_data.len() > MAX_ATTESTATION_DATA_SIZE {
            return Err(EvolutionError::AttestationDataTooLarge);
        }
        if let Some(prev) = self.attestation_nonces.get(&attestation.agent_id) {
            if attestation.nonce <= *prev {
                return Err(EvolutionError::ReplayedNonce);
            }
        }
        let request = match self.requests.get(&attestation.request_id) {
            None => return Err(EvolutionError::RequestNotFound),
            Some(req) => *req,
        };
        if request.status != EvolutionStatus::Pending {
            return Err(EvolutionError::RequestNotPending);
        }
        if request.agent_id != attestation.agent_id {
            return Err(EvolutionError::AgentMismatch);
        }
        if !env.require_auth(attestation.oracle_provider) {
            return Err(EvolutionError::NotAuthorized);
        }
        let agent_id = attestation.agent_id;
        let request_id = attestation.request_id;
        let nonce = attestation.nonce;
        self.apply_evolution(env, agent_id, attestation.new_model_hash)?;
        self.requests.insert(
            request_id,
            EvolutionRequest {
                status: EvolutionStatus::Completed,
                completed_at: Some(env.timestamp),
                ..request
            },
        );
        self.attestation_nonces.insert(agent_id, nonce);
        Ok(())
    }
}

/// Replay protection of attestations: once an attestation with nonce `n` has
/// been applied for an agent, no attestation for that agent with a nonce at or
/// below `n` is accepted.
pub proof fn stale_attestation_refused(v: EvolutionView, env: &Context, att: EvolutionAttestation)
    requires
        v.attestation_nonces.contains_key(att.agent_id),
        att.nonce <= v.attestation_nonces[att.agent_id],
    ensures
        v.apply_attestation_check(env, att) is Err,
{
}

/// A stake is paid out at most once per request: after a successful claim the
/// request is marked claimed, and every further claim of it is refused.
pub proof fn stake_claimed_at_most_once(v: EvolutionView, env: &Context, owner: AccountId, request_id: u64)
    requires
        v.claimed.contains(request_id),
    ensures
        v.claim_stake_check(env, owner, request_id) is Err,
{
}

/// Claim locks are per request: claiming one request's stake changes nothing
/// about whether another request's stake may be claimed.
pub proof fn claims_are_independent(
    v: EvolutionView,
    env: &Context,
    owner: AccountId,
    claimed_id: u64,
    request_id: u64,
)
    requires
        claimed_id != request_id,
    ensures
        (EvolutionView { claimed: v.claimed.insert(claimed_id), ..v }).claim_stake_check(
            env,
            owner,
            request_id,
        ) == v.claim_stake_check(env, owner, request_id),
{
}

/// A request is completed at most once: an attestation naming a request that
/// is no longer pending is refused.
pub proof fn completed_request_not_attested_again(
    v: EvolutionView,
    env: &Context,
    att: EvolutionAttestation,
)
    requires
        v.requests.contains_key(att.request_id),
        v.requests[att.request_id].status != EvolutionStatus::Pending,
    ensures
        v.apply_attestation_check(env, att) is Err,
{
}

/// An attestation only acts on the request it names: one naming a request that
/// is not recorded is refused.
pub proof fn attestation_needs_named_request(v: EvolutionView, env: &Context, att: EvolutionAttestation)
    requires
        !v.requests.contains_key(att.request_id),
    ensures
        v.apply_attestation_check(env, att) is Err,
{
}

} // verus!
