use vstd::prelude::*;
use vstd::hash_map::HashMapWithView;
use crate::context::{AccountId, Context, byte_len, text_len};
use crate::types::{Agent, MAX_STRING_LENGTH, MAX_CAPABILITIES};

verus! {

broadcast use vstd::std_specs::hash::group_hash_axioms;

/// Why the agent NFT contract rejected a call.
#[derive(Clone, Copy, Debug, PartialEq, Eq, Structural)]
pub enum AgentError {
    AlreadyInitialized,
    NotAuthorized,
    AdminNotSet,
    CallerNotAdmin,
    NameTooLong,
    ModelHashTooLong,
    TooManyCapabilities,
    CapabilityTooLong,
    Overflow,
    InvalidAgentId,
    AgentNotFound,
    NotOwner,
}

/// Storage of the agent NFT contract.
pub struct AgentNFT {
    pub admin: Option<AccountId>,
    pub agent_counter: u64,
    pub agents: HashMapWithView<u64, Agent>,
}

/// Every capability string of `caps` fits in `MAX_STRING_LENGTH` bytes.
pub open spec fn capabilities_fit(caps: Seq<String>) -> bool {
    forall|i: int| 0 <= i < caps.len() ==> byte_len(#[trigger] caps[i]) <= MAX_STRING_LENGTH
}

/// The first reason to refuse `caps` as an agent's capability list, if any.
pub open spec fn capabilities_check(caps: Seq<String>) -> Result<(), AgentError> {
    if caps.len() > MAX_CAPABILITIES {
        Err(AgentError::TooManyCapabilities)
    } else if !capabilities_fit(caps) {
        Err(AgentError::CapabilityTooLong)
    } else {
        Ok(())
    }
}

/// Checks a capability list as `capabilities_check` says.
pub fn check_capabilities(caps: &Vec<String>) -> (r: Result<(), AgentError>)
    ensures
        r == capabilities_check(caps@),
{
    if caps.len() > MAX_CAPABILITIES {
        return Err(AgentError::TooManyCapabilities);
    }
    let n = caps.len();
    let mut i: usize = 0;
    while i < n
        invariant
            n == caps@.len(),
            n <= MAX_CAPABILITIES,
            i <= n,
            forall|j: int| 0 <= j < i ==> byte_len(#[trigger] caps@[j]) <= MAX_STRING_LENGTH,
        decreases n - i,
    {
        if text_len(&caps[i]) > MAX_STRING_LENGTH as usize {
            assert(byte_len(caps@[i as int]) > MAX_STRING_LENGTH);
            return Err(AgentError::CapabilityTooLong);
        }
        i = i + 1;
    }
    Ok(())
}

impl AgentNFT {
    /// An empty contract: no admin, no agents.
    pub fn new() -> (s: AgentNFT)
        ensures
            s.admin is None,
            s.agent_counter == 0,
            s.agents@ == Map::<u64, Agent>::empty(),
    {
        AgentNFT { admin: None, agent_counter: 0, agents: HashMapWithView::new() }
    }

    /// `a + b`, or `Overflow` when the sum leaves `u64`.
    pub fn safe_add(a: u64, b: u64) -> (r: Result<u64, AgentError>)
        ensures
            a + b <= u64::MAX ==> r == Ok::<u64, AgentError>((a + b) as u64),
            a + b > u64::MAX ==> r == Err::<u64, AgentError>(AgentError::Overflow),
    {
        match a.checked_add(b) {
            Some(s) => Ok(s),
            None => Err(AgentError::Overflow),
        }
    }

    /// One-time setup: `admin` becomes the contract's admin and the agent counter starts at 0.
    pub fn init_contract(&mut self, env: &Context, admin: AccountId) -> (r: Result<(), AgentError>)
        ensures
            old(self).admin is Some ==> r == Err::<(), AgentError>(AgentError::AlreadyInitialized),
            old(self).admin is None && !env.authorizes(admin) ==> r == Err::<(), AgentError>(
                AgentError::NotAuthorized,
            ),
            r is Err ==> *final(self) == *old(self),
            r is Ok <==> old(self).admin is None && env.authorizes(admin),
            r is Ok ==> final(self).admin == Some(admin) && final(self).agent_counter == 0
                && final(self).agents@ == old(self).agents@,
    {
        if self.admin.is_some() {
            return Err(AgentError::AlreadyInitialized);
        }
        if !env.require_auth(admin) {
            return Err(AgentError::NotAuthorized);
        }
        self.admin = Some(admin);
        self.agent_counter = 0;
        Ok(())
    }

    /// Whether `caller` is the admin: `AdminNotSet` before initialization, `CallerNotAdmin` for anyone else.
    pub fn verify_admin(&self, caller: AccountId) -> (r: Result<(), AgentError>)
        ensures
            self.admin is None ==> r == Err::<(), AgentError>(AgentError::AdminNotSet),
            self.admin matches Some(a) ==> (a == caller ==> r is Ok) && (a != caller ==> r
                == Err::<(), AgentError>(AgentError::CallerNotAdmin)),
    {
        match self.admin {
            None => Err(AgentError::AdminNotSet),
            Some(a) => if a == caller { Ok(()) } else { Err(AgentError::CallerNotAdmin) },
        }
    }

    /// The first reason to refuse minting, if any.
    pub open spec fn mint_check(
        &self,
        env: &Context,
        owner: AccountId,
        name: String,
        model_hash: String,
        capabilities: Seq<String>,
    ) -> Result<(), AgentError> {
        if !env.authorizes(owner) {
            Err(AgentError::NotAuthorized)
        } else if byte_len(name) > MAX_STRING_LENGTH {
            Err(AgentError::NameTooLong)
        } else if byte_len(model_hash) > MAX_STRING_LENGTH {
            Err(AgentError::ModelHashTooLong)
        } else if capabilities_check(capabilities) is Err {
            capabilities_check(capabilities)
        } else if self.agent_counter + 1 > u64::MAX {
            Err(AgentError::Overflow)
        } else {
            Ok(())
        }
    }

    /// Mints a new agent owned by `owner`, with id one past the counter, evolution
    /// level 0, nonce 0 and both timestamps at the ledger time.
    pub fn mint_agent(
        &mut self,
        env: &Context,
        owner: AccountId,
        name: String,
        model_hash: String,
        capabilities: Vec<String>,
    ) -> (r: Result<u64, AgentError>)
        ensures
            match r {
                Err(e) => old(self).mint_check(env, owner, name, model_hash, capabilities@) == Err::<
                    (),
                    AgentError,
                >(e) && *final(self) == *old(self),
                Ok(id) => {
                    &&& old(self).mint_check(env, owner, name, model_hash, capabilities@) is Ok
                    &&& id == old(self).agent_counter + 1
                    &&& final(self).agent_counter == id
                    &&& final(self).admin == old(self).admin
                    &&& final(self).agents@ == old(self).agents@.insert(
                        id,
                        Agent {
                            id,
                            owner,
                            name,
                            model_hash,
                            metadata_cid: final(self).agents@[id].metadata_cid,
                            capabilities,
                            evolution_level: 0,
                            created_at: env.timestamp,
                            updated_at: env.timestamp,
                            nonce: 0,
                            escrow_locked: false,
                            escrow_holder: None,
                        },
                    )
                    &&& final(self).agents@[id].metadata_cid@ == Seq::<char>::empty()
                },
            },
    {
        if !env.require_auth(owner) {
            return Err(AgentError::NotAuthorized);
        }
        if text_len(&name) > MAX_STRING_LENGTH as usize {
            return Err(AgentError::NameTooLong);
        }
        if text_len(&model_hash) > MAX_STRING_LENGTH as usize {
            return Err(AgentError::ModelHashTooLong);
        }
        check_capabilities(&capabilities)?;
        let agent_id = match Self::safe_add(self.agent_counter, 1) {
            Ok(v) => v,
            Err(e) => return Err(e),
        };
        let agent = Agent {
            id: agent_id,
            owner,
            name,
            model_hash,
            metadata_cid: String::new(),
            capabilities,
            evolution_level: 0,
            created_at: env.timestamp,
            updated_at: env.timestamp,
            nonce: 0,
            escrow_locked: false,
            escrow_holder: None,
        };
        self.agents.insert(agent_id, agent);
        self.agent_counter = agent_id;
        Ok(agent_id)
    }

    /// The stored agent `agent_id`, if any; `InvalidAgentId` for id 0.
    pub fn get_agent(&self, agent_id: u64) -> (r: Result<Option<&Agent>, AgentError>)
        ensures
            agent_id == 0 ==> r == Err::<Option<&Agent>, AgentError>(AgentError::InvalidAgentId),
            agent_id != 0 ==> (r matches Ok(o) && match o {
                Some(a) => self.agents@.contains_key(agent_id) && *a == self.agents@[agent_id],
                None => !self.agents@.contains_key(agent_id),
            }),
    {
        if agent_id == 0 {
            return Err(AgentError::InvalidAgentId);
        }
        Ok(self.agents.get(&agent_id))
    }

    /// The first reason to refuse an update of `agent_id` by `owner`, if any.
    pub open spec fn update_check(
        &self,
        env: &Context,
        agent_id: u64,
        owner: AccountId,
        name: Option<String>,
        capabilities: Option<Seq<String>>,
    ) -> Result<(), AgentError> {
        if !env.authorizes(owner) {
            Err(AgentError::NotAuthorized)
        } else if agent_id == 0 {
            Err(AgentError::InvalidAgentId)
        } else if !self.agents@.contains_key(agent_id) {
            Err(AgentError::AgentNotFound)
        } else if self.agents@[agent_id].owner != owner {
            Err(AgentError::NotOwner)
        } else if name matches Some(n) && byte_len(n) > MAX_STRING_LENGTH {
            Err(AgentError::NameTooLong)
        } else if capabilities matches Some(c) && capabilities_check(c) is Err {
            capabilities_check(capabilities.unwrap())
        } else if self.agents@[agent_id].nonce + 1 > u64::MAX {
            Err(AgentError::Overflow)
        } else {
            Ok(())
        }
    }

    /// `agent` after an update: the given name and capabilities replace the old
    /// ones, the nonce goes one up and the update time becomes `now`.
    pub open spec fn updated(
        agent: Agent,
        name: Option<String>,
        capabilities: Option<Vec<String>>,
        now: u64,
    ) -> Agent {
        Agent {
            name: match name {
                Some(n) => n,
                None => agent.name,
            },
            capabilities: match capabilities {
                Some(c) => c,
                None => agent.capabilities,
            },
            nonce: (agent.nonce + 1) as u64,
            updated_at: now,
            ..agent
        }
    }

    /// The owner of agent `agent_id` replaces its name and/or capabilities; every
    /// update moves the agent's nonce one up, for replay protection.
    pub fn update_agent(
        &mut self,
        env: &Context,
        agent_id: u64,
        owner: AccountId,
        name: Option<String>,
        capabilities: Option<Vec<String>>,
    ) -> (r: Result<(), AgentError>)
        ensures
            ({
                let caps_view = match capabilities {
                    Some(c) => Some(c@),
                    None => None,
                };
                match r {
                    Err(e) => old(self).update_check(env, agent_id, owner, name, caps_view) == Err::<
                        (),
                        AgentError,
                    >(e) && *final(self) == *old(self),
                    Ok(()) => {
                        &&& old(self).update_check(env, agent_id, owner, name, caps_view) is Ok
                        &&& final(self).admin == old(self).admin
                        &&& final(self).agent_counter == old(self).agent_counter
                        &&& final(self).agents@ == old(self).agents@.insert(
                            agent_id,
                            Self::updated(old(self).agents@[agent_id], name, capabilities, env.timestamp),
                        )
                    },
                }
            }),
    {
        if !env.require_auth(owner) {
            return Err(AgentError::NotAuthorized);
        }
        if agent_id == 0 {
            return Err(AgentError::InvalidAgentId);
        }
        match self.agents.get(&agent_id) {
            None => return Err(AgentError::AgentNotFound),
            Some(agent) => {
                if agent.owner != owner {
                    return Err(AgentError::NotOwner);
                }
                if let Some(n) = &name {
                    if text_len(n) > MAX_STRING_LENGTH as usize {
                        return Err(AgentError::NameTooLong);
                    }
                }
                if let Some(c) = &capabilities {
                    check_capabilities(c)?;
                }
                if agent.nonce == u64::MAX {
                    return Err(AgentError::Overflow);
                }
            },
        }
        let mut agent = self.agents.remove(&agent_id).unwrap();
        if let Some(n) = name {
            agent.name = n;
        }
        if let Some(c) = capabilities {
            agent.capabilities = c;
        }
        agent.nonce = agent.nonce + 1;
        agent.updated_at = env.timestamp;
        self.agents.insert(agent_id, agent);
        proof {
            assert(self.agents@ =~= old(self).agents@.insert(
                agent_id,
                Self::updated(old(self).agents@[agent_id], name, capabilities, env.timestamp),
            ));
        }
        Ok(())
    }

    /// The number of agents minted so far.
    pub fn total_agents(&self) -> (n: u64)
        ensures
            n == self.agent_counter,
    {
        self.agent_counter
    }

    /// The replay-protection nonce of agent `agent_id` (0 for an unknown agent);
    /// `InvalidAgentId` for id 0.
    pub fn get_nonce(&self, agent_id: u64) -> (r: Result<u64, AgentError>)
        ensures
            agent_id == 0 ==> r == Err::<u64, AgentError>(AgentError::InvalidAgentId),
            agent_id != 0 && self.agents@.contains_key(agent_id) ==> r == Ok::<u64, AgentError>(
                self.agents@[agent_id].nonce,
            ),
            agent_id != 0 && !self.agents@.contains_key(agent_id) ==> r == Ok::<u64, AgentError>(0),
    {
        if agent_id == 0 {
            return Err(AgentError::InvalidAgentId);
        }
        match self.agents.get(&agent_id) {
            Some(a) => Ok(a.nonce),
            None => Ok(0),
        }
    }
}

/// An update sets exactly what it is given: a given name becomes the name and
/// given capabilities become the capabilities, each whether or not the other is
/// given; what is not given stays; the nonce goes one up and the update time
/// becomes `now`; identity, owner, model and creation time stay.
pub proof fn update_sets_given_fields(
    agent: Agent,
    name: Option<String>,
    capabilities: Option<Vec<String>>,
    now: u64,
)
    ensures
        ({
            let u = AgentNFT::updated(agent, name, capabilities, now);
            &&& name matches Some(n) ==> u.name == n
            &&& name is None ==> u.name == agent.name
            &&& capabilities matches Some(c) ==> u.capabilities == c
            &&& capabilities is None ==> u.capabilities == agent.capabilities
            &&& agent.nonce < u64::MAX ==> u.nonce == agent.nonce + 1
            &&& u.updated_at == now
            &&& u.id == agent.id && u.owner == agent.owner && u.model_hash == agent.model_hash
            &&& u.created_at == agent.created_at && u.evolution_level == agent.evolution_level
        }),
{
}

} // verus!
