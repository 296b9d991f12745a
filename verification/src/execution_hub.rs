use vstd::prelude::*;
use vstd::hash_map::{HashMapWithView, StringHashMap};
use crate::context::{AccountId, Context, byte_len, text_len};
use crate::types::{Agent, MAX_DATA_SIZE, MAX_HISTORY_QUERY_LIMIT, MAX_HISTORY_SIZE, MAX_STRING_LENGTH};

verus! {

broadcast use vstd::std_specs::hash::group_hash_axioms;

/// Actions one agent may execute per rate-limit window.
pub const ACTION_RATE_LIMIT: u32 = 100;
/// Length of the action rate-limit window, in seconds.
pub const ACTION_RATE_WINDOW_SECONDS: u64 = 60;

/// Why the execution hub rejected a call.
#[derive(Clone, Copy, Debug, PartialEq, Eq, Structural)]
pub enum HubError {
    AlreadyInitialized,
    NotAuthorized,
    AdminNotSet,
    CallerNotAdmin,
    InvalidAgentId,
    RuleNameTooLong,
    RuleDataTooLarge,
    ActionNameTooLong,
    ParametersTooLarge,
    ReplayedNonce,
    RateLimitExceeded,
    AgentNotFound,
    NotAgentOwner,
    HistoryFull,
    LimitTooLarge,
    Overflow,
}

/// One executed action: what was run, by whom, when.
#[derive(Clone, Debug, PartialEq, Eq)]
pub struct ActionRecord {
    pub action: String,
    pub executor: AccountId,
    pub timestamp: u64,
}

/// A rate-limit window: when it opened and how many operations it has seen.
#[derive(Clone, Copy, Debug, PartialEq, Eq, Structural)]
pub struct RateWindow {
    pub last_reset: u64,
    pub count: u32,
}

/// Storage of the execution hub.
pub struct ExecutionHub {
    pub admin: Option<AccountId>,
    /// Rules per agent, by rule name.
    pub rules: HashMapWithView<u64, StringHashMap<Vec<u8>>>,
    /// Agent records the hub consults for ownership.
    pub agents: HashMapWithView<u64, Agent>,
    /// Last accepted action nonce per agent.
    pub action_nonces: HashMapWithView<u64, u64>,
    /// Executed actions per agent, oldest first.
    pub histories: HashMapWithView<u64, Vec<ActionRecord>>,
    /// Rate-limit window per agent.
    pub rate_limits: HashMapWithView<u64, RateWindow>,
}

/// A copy of `r`.
pub fn copy_action_record(r: &ActionRecord) -> (c: ActionRecord)
    ensures
        c == *r,
{
    ActionRecord { action: r.action.clone(), executor: r.executor, timestamp: r.timestamp }
}

/// `a + b`, or `Overflow` when the sum leaves `u64`.
pub fn safe_add(a: u64, b: u64) -> (r: Result<u64, HubError>)
    ensures
        a + b <= u64::MAX ==> r == Ok::<u64, HubError>((a + b) as u64),
        a + b > u64::MAX ==> r == Err::<u64, HubError>(HubError::Overflow),
{
    match a.checked_add(b) {
        Some(s) => Ok(s),
        None => Err(HubError::Overflow),
    }
}

/// Nonce of `agent_id` as recorded by the agent NFT contract; the hub does not
/// consult that contract and reads 0.
pub fn get_agent_nonce(agent_id: u64) -> (n: u64)
    ensures
        n == 0,
{
    0
}

/// The window after one more operation at time `now` on window `w` (a fresh
/// window at `now` when none exists), or why the operation is refused: the
/// window has not elapsed and already holds `max_operations` operations, or its
/// end does not fit in `u64`.
pub open spec fn rate_step(w: Option<RateWindow>, now: u64, max_operations: u32, window_seconds: u64) -> Result<
    RateWindow,
    HubError,
> {
    let (last_reset, count) = match w {
        Some(w) => (w.last_reset, w.count),
        None => (now, 0u32),
    };
    if last_reset + window_seconds > u64::MAX {
        Err(HubError::Overflow)
    } else if now > last_reset + window_seconds {
        Ok(RateWindow { last_reset: now, count: 1 })
    } else if count < max_operations {
        Ok(RateWindow { last_reset, count: (count + 1) as u32 })
    } else {
        Err(HubError::RateLimitExceeded)
    }
}

/// Computes `rate_step` for a stored window.
pub fn next_rate_window(w: Option<RateWindow>, now: u64, max_operations: u32, window_seconds: u64) -> (r:
    Result<RateWindow, HubError>)
    ensures
        r == rate_step(w, now, max_operations, window_seconds),
{
    let (last_reset, count) = match w {
        Some(w) => (w.last_reset, w.count),
        None => (now, 0u32),
    };
    let window_end = match last_reset.checked_add(window_seconds) {
        Some(e) => e,
        None => return Err(HubError::Overflow),
    };
    if now > window_end {
        Ok(RateWindow { last_reset: now, count: 1 })
    } else if count < max_operations {
        Ok(RateWindow { last_reset, count: count + 1 })
    } else {
        Err(HubError::RateLimitExceeded)
    }
}

impl ExecutionHub {
    /// A hub with nothing stored.
    pub fn new() -> (s: ExecutionHub)
        ensures
            s.admin is None,
            s.rules@ == Map::<u64, StringHashMap<Vec<u8>>>::empty(),
            s.agents@ == Map::<u64, Agent>::empty(),
            s.action_nonces@ == Map::<u64, u64>::empty(),
            s.histories@ == Map::<u64, Vec<ActionRecord>>::empty(),
            s.rate_limits@ == Map::<u64, RateWindow>::empty(),
    {
        ExecutionHub {
            admin: None,
            rules: HashMapWithView::new(),
            agents: HashMapWithView::new(),
            action_nonces: HashMapWithView::new(),
            histories: HashMapWithView::new(),
            rate_limits: HashMapWithView::new(),
        }
    }

    /// The stored rate-limit window of `agent_id`, if any.
    pub open spec fn window_of(&self, agent_id: u64) -> Option<RateWindow> {
        if self.rate_limits@.contains_key(agent_id) {
            Some(self.rate_limits@[agent_id])
        } else {
            None
        }
    }

    /// The last accepted action nonce of `agent_id` (0 before any).
    pub open spec fn nonce_of(&self, agent_id: u64) -> u64 {
        if self.action_nonces@.contains_key(agent_id) {
            self.action_nonces@[agent_id]
        } else {
            0
        }
    }

    /// The executed actions of `agent_id`, oldest first.
    pub open spec fn history_of(&self, agent_id: u64) -> Seq<ActionRecord> {
        if self.histories@.contains_key(agent_id) {
            self.histories@[agent_id]@
        } else {
            Seq::empty()
        }
    }

    /// The rules of `agent_id`, by name.
    pub open spec fn rules_of(&self, agent_id: u64) -> Map<Seq<char>, Vec<u8>> {
        if self.rules@.contains_key(agent_id) {
            self.rules@[agent_id]@
        } else {
            Map::empty()
        }
    }

    /// One-time setup: `admin` becomes the admin.
    pub fn init_contract(&mut self, env: &Context, admin: AccountId) -> (r: Result<(), HubError>)
        ensures
            old(self).admin is Some ==> r == Err::<(), HubError>(HubError::AlreadyInitialized),
            old(self).admin is None && !env.authorizes(admin) ==> r == Err::<(), HubError>(
                HubError::NotAuthorized,
            ),
            r is Err ==> *final(self) == *old(self),
            r is Ok <==> old(self).admin is None && env.authorizes(admin),
            r is Ok ==> final(self).admin == Some(admin),
            r is Ok ==> final(self).rules == old(self).rules,
            r is Ok ==> final(self).agents == old(self).agents,
            r is Ok ==> final(self).action_nonces == old(self).action_nonces,
            r is Ok ==> final(self).histories == old(self).histories,
            r is Ok ==> final(self).rate_limits == old(self).rate_limits,
    {
        if self.admin.is_some() {
            return Err(HubError::AlreadyInitialized);
        }
        if !env.require_auth(admin) {
            return Err(HubError::NotAuthorized);
        }
        self.admin = Some(admin);
        Ok(())
    }

    /// Whether `caller` is the admin.
    pub fn verify_admin(&self, caller: AccountId) -> (r: Result<(), HubError>)
        ensures
            self.admin is None ==> r == Err::<(), HubError>(HubError::AdminNotSet),
            self.admin matches Some(a) ==> (a == caller ==> r is Ok) && (a != caller ==> r
                == Err::<(), HubError>(HubError::CallerNotAdmin)),
    {
        match self.admin {
            None => Err(HubError::AdminNotSet),
            Some(a) => if a == caller { Ok(()) } else { Err(HubError::CallerNotAdmin) },
        }
    }

    /// The last accepted action nonce of `agent_id` (0 before any).
    pub fn get_action_nonce(&self, agent_id: u64) -> (n: u64)
        ensures
            n == self.nonce_of(agent_id),
    {
        match self.action_nonces.get(&agent_id) {
            Some(n) => *n,
            None => 0,
        }
    }

    /// Counts one operation of `agent_id` at time `now` against its rate limit,
    /// as `rate_step` says; a refused operation leaves the window as it was.
    pub fn check_rate_limit(
        &mut self,
        now: u64,
        agent_id: u64,
        max_operations: u32,
        window_seconds: u64,
    ) -> (r: Result<(), HubError>)
        ensures
            match rate_step(old(self).window_of(agent_id), now, max_operations, window_seconds) {
                Ok(w) => r is Ok && final(self).rate_limits@ == old(self).rate_limits@.insert(
                    agent_id,
                    w,
                ),
                Err(e) => r == Err::<(), HubError>(e) && final(self).rate_limits@ == old(
                    self,
                ).rate_limits@,
            },
            final(self).admin == old(self).admin,
            final(self).rules == old(self).rules,
            final(self).agents == old(self).agents,
            final(self).action_nonces == old(self).action_nonces,
            final(self).histories == old(self).histories,
    {
        let current = match self.rate_limits.get(&agent_id) {
            Some(w) => Some(*w),
            None => None,
        };
        match next_rate_window(current, now, max_operations, window_seconds) {
            Ok(w) => {
                self.rate_limits.insert(agent_id, w);
                Ok(())
            },
            Err(e) => Err(e),
        }
    }

    /// The first reason to refuse registering a rule, if any.
    pub open spec fn register_rule_check(
        &self,
        env: &Context,
        agent_id: u64,
        owner: AccountId,
        rule_name: String,
        rule_data: Seq<u8>,
    ) -> Result<(), HubError> {
        if !env.authorizes(owner) {
            Err(HubError::NotAuthorized)
        } else if agent_id == 0 {
            Err(HubError::InvalidAgentId)
        } else if byte_len(rule_name) > MAX_STRING_LENGTH {
            Err(HubError::RuleNameTooLong)
        } else if rule_data.len() > MAX_DATA_SIZE {
            Err(HubError::RuleDataTooLarge)
        } else {
            Ok(())
        }
    }

    /// Stores `rule_data` as the rule `rule_name` of `agent_id`, replacing any
    /// rule of that name.
    pub fn register_rule(
        &mut self,
        env: &Context,
        agent_id: u64,
        owner: AccountId,
        rule_name: String,
        rule_data: Vec<u8>,
    ) -> (r: Result<(), HubError>)
        ensures
            r == old(self).register_rule_check(env, agent_id, owner, rule_name, rule_data@),
            r is Err ==> *final(self) == *old(self),
            r is Ok ==> {
                &&& final(self).rules_of(agent_id) == old(self).rules_of(agent_id).insert(
                    rule_name@,
                    rule_data,
                )
                &&& forall|a: u64| a != agent_id ==> final(self).rules_of(a) == old(self).rules_of(a)
                &&& final(self).admin == old(self).admin
                &&& final(self).agents == old(self).agents
                &&& final(self).action_nonces == old(self).action_nonces
                &&& final(self).histories == old(self).histories
                &&& final(self).rate_limits == old(self).rate_limits
            },
    {
        if !env.require_auth(owner) {
            return Err(HubError::NotAuthorized);
        }
        if agent_id == 0 {
            return Err(HubError::InvalidAgentId);
        }
        if text_len(&rule_name) > MAX_STRING_LENGTH as usize {
            return Err(HubError::RuleNameTooLong);
        }
        if rule_data.len() > MAX_DATA_SIZE as usize {
            return Err(HubError::RuleDataTooLarge);
        }
        let _nonce = get_agent_nonce(agent_id);
        let mut agent_rules = match self.rules.remove(&agent_id) {
            Some(m) => m,
            None => StringHashMap::new(),
        };
        agent_rules.insert(rule_name, rule_data);
        self.rules.insert(agent_id, agent_rules);
        Ok(())
    }

    /// The first reason to refuse an action, if any.
    pub open spec fn execute_action_check(
        &self,
        env: &Context,
        agent_id: u64,
        executor: AccountId,
        action: String,
        parameters: Seq<u8>,
        nonce: u64,
    ) -> Result<(), HubError> {
        if !env.authorizes(executor) {
            Err(HubError::NotAuthorized)
        } else if agent_id == 0 {
            Err(HubError::InvalidAgentId)
        } else if byte_len(action) > MAX_STRING_LENGTH {
            Err(HubError::ActionNameTooLong)
        } else if parameters.len() > MAX_DATA_SIZE {
            Err(HubError::ParametersTooLarge)
        } else if nonce <= self.nonce_of(agent_id) {
            Err(HubError::ReplayedNonce)
        } else if rate_step(
            self.window_of(agent_id),
            env.timestamp,
            ACTION_RATE_LIMIT,
            ACTION_RATE_WINDOW_SECONDS,
        ) is Err {
            Err(
                rate_step(
                    self.window_of(agent_id),
                    env.timestamp,
                    ACTION_RATE_LIMIT,
                    ACTION_RATE_WINDOW_SECONDS,
                )->Err_0,
            )
        } else if !self.agents@.contains_key(agent_id) {
            Err(HubError::AgentNotFound)
        } else if self.agents@[agent_id].owner != executor {
            Err(HubError::NotAgentOwner)
        } else if self.history_of(agent_id).len() >= MAX_HISTORY_SIZE {
            Err(HubError::HistoryFull)
        } else {
            Ok(())
        }
    }

    /// Executes an action of `agent_id` on behalf of its owner: the nonce must
    /// exceed the last accepted one and becomes the new one, the action counts
    /// against the agent's rate limit, and it is appended to the agent's history.
    pub fn execute_action(
        &mut self,
        env: &Context,
        agent_id: u64,
        executor: AccountId,
        action: String,
        parameters: Vec<u8>,
        nonce: u64,
    ) -> (r: Result<bool, HubError>)
        ensures
            match r {
                Err(e) => old(self).execute_action_check(
                    env,
                    agent_id,
                    executor,
                    action,
                    parameters@,
                    nonce,
                ) == Err::<(), HubError>(e) && *final(self) == *old(self),
                Ok(b) => {
                    &&& b
                    &&& old(self).execute_action_check(
                        env,
                        agent_id,
                        executor,
                        action,
                        parameters@,
                        nonce,
                    ) is Ok
                    &&& final(self).action_nonces@ == old(self).action_nonces@.insert(agent_id, nonce)
                    &&& final(self).nonce_of(agent_id) == nonce
                    &&& old(self).nonce_of(agent_id) < final(self).nonce_of(agent_id)
                    &&& final(self).rate_limits@ == old(self).rate_limits@.insert(
                        agent_id,
                        rate_step(
                            old(self).window_of(agent_id),
                            env.timestamp,
                            ACTION_RATE_LIMIT,
                            ACTION_RATE_WINDOW_SECONDS,
                        )->Ok_0,
                    )
                    &&& final(self).history_of(agent_id) == old(self).history_of(agent_id).push(
                        ActionRecord { action, executor, timestamp: env.timestamp },
                    )
                    &&& forall|a: u64|
                        a != agent_id ==> final(self).history_of(a) == old(self).history_of(a)
                    &&& final(self).admin == old(self).admin
                    &&& final(self).rules == old(self).rules
                    &&& final(self).agents == old(self).agents
                },
            },
    {
        if !env.require_auth(executor) {
            return Err(HubError::NotAuthorized);
        }
        if agent_id == 0 {
            return Err(HubError::InvalidAgentId);
        }
        if text_len(&action) > MAX_STRING_LENGTH as usize {
            return Err(HubError::ActionNameTooLong);
        }
        if parameters.len() > MAX_DATA_SIZE as usize {
            return Err(HubError::ParametersTooLarge);
        }
        let stored_nonce = self.get_action_nonce(agent_id);
        if nonce <= stored_nonce {
            return Err(HubError::ReplayedNonce);
        }
        let current = match self.rate_limits.get(&agent_id) {
            Some(w) => Some(*w),
            None => None,
        };
        let window = match next_rate_window(
            current,
            env.timestamp,
            ACTION_RATE_LIMIT,
            ACTION_RATE_WINDOW_SECONDS,
        ) {
            Ok(w) => w,
            Err(e) => return Err(e),
        };
        match self.agents.get(&agent_id) {
            None => return Err(HubError::AgentNotFound),
            Some(agent) => {
                if agent.owner != executor {
                    return Err(HubError::NotAgentOwner);
                }
            },
        }
        let recorded = match self.histories.get(&agent_id) {
            Some(h) => h.len(),
            None => 0,
        };
        if recorded >= MAX_HISTORY_SIZE as usize {
            return Err(HubError::HistoryFull);
        }
        let mut history = match self.histories.remove(&agent_id) {
            Some(h) => h,
            None => Vec::new(),
        };
        history.push(ActionRecord { action, executor, timestamp: env.timestamp });
        self.histories.insert(agent_id, history);
        self.rate_limits.insert(agent_id, window);
        self.action_nonces.insert(agent_id, nonce);
        assert forall|a: u64| a != agent_id implies self.history_of(a) == old(self).history_of(a) by {}
        Ok(true)
    }

    /// The last `min(limit, n)` executed actions of `agent_id`, oldest first.
    pub fn get_history(&self, agent_id: u64, limit: u32) -> (r: Result<Vec<ActionRecord>, HubError>)
        ensures
            agent_id == 0 ==> r == Err::<Vec<ActionRecord>, HubError>(HubError::InvalidAgentId),
            agent_id != 0 && limit > MAX_HISTORY_QUERY_LIMIT ==> r == Err::<
                Vec<ActionRecord>,
                HubError,
            >(HubError::LimitTooLarge),
            agent_id != 0 && limit <= MAX_HISTORY_QUERY_LIMIT ==> (r matches Ok(v) && {
                let h = self.history_of(agent_id);
                let k = if limit < h.len() { limit as int } else { h.len() as int };
                v@ == h.subrange(h.len() - k, h.len() as int)
            }),
    {
        if agent_id == 0 {
            return Err(HubError::InvalidAgentId);
        }
        if limit > MAX_HISTORY_QUERY_LIMIT {
            return Err(HubError::LimitTooLarge);
        }
        let mut result: Vec<ActionRecord> = Vec::new();
        match self.histories.get(&agent_id) {
            None => {},
            Some(history) => {
                let n = history.len();
                let max_items = if (limit as usize) < n { limit as usize } else { n };
                let start = n - max_items;
                let mut i: usize = 0;
                while i < max_items
                    invariant
                        n == history@.len(),
                        max_items <= n,
                        start == n - max_items,
                        i <= max_items,
                        result@ == history@.subrange(start as int, start + i),
                    decreases max_items - i,
                {
                    result.push(copy_action_record(&history[start + i]));
                    i = i + 1;
                }
            },
        }
        Ok(result)
    }

    /// The first reason to refuse revoking a rule, if any.
    pub open spec fn revoke_rule_check(&self, env: &Context, agent_id: u64, owner: AccountId) -> Result<
        (),
        HubError,
    > {
        if !env.authorizes(owner) {
            Err(HubError::NotAuthorized)
        } else if agent_id == 0 {
            Err(HubError::InvalidAgentId)
        } else if !self.agents@.contains_key(agent_id) {
            Err(HubError::AgentNotFound)
        } else if self.agents@[agent_id].owner != owner {
            Err(HubError::NotAgentOwner)
        } else {
            Ok(())
        }
    }

    /// The agent's owner removes the rule `rule_name` (if it exists).
    pub fn revoke_rule(&mut self, env: &Context, agent_id: u64, owner: AccountId, rule_name: String) -> (r:
        Result<(), HubError>)
        ensures
            r == old(self).revoke_rule_check(env, agent_id, owner),
            r is Err ==> *final(self) == *old(self),
            r is Ok ==> {
                &&& final(self).rules_of(agent_id) == old(self).rules_of(agent_id).remove(rule_name@)
                &&& forall|a: u64| a != agent_id ==> final(self).rules_of(a) == old(self).rules_of(a)
                &&& final(self).admin == old(self).admin
                &&& final(self).agents == old(self).agents
                &&& final(self).action_nonces == old(self).action_nonces
                &&& final(self).histories == old(self).histories
                &&& final(self).rate_limits == old(self).rate_limits
            },
    {
        if !env.require_auth(owner) {
            return Err(HubError::NotAuthorized);
        }
        if agent_id == 0 {
            return Err(HubError::InvalidAgentId);
        }
        match self.agents.get(&agent_id) {
            None => return Err(HubError::AgentNotFound),
            Some(agent) => {
                if agent.owner != owner {
                    return Err(HubError::NotAgentOwner);
                }
            },
        }
        match self.rules.remove(&agent_id) {
            Some(mut m) => {
                m.remove(rule_name.as_str());
                self.rules.insert(agent_id, m);
            },
            None => {
                assert(old(self).rules_of(agent_id).remove(rule_name@) =~= Map::empty());
            },
        }
        Ok(())
    }
}

/// Replay protection of actions: a call whose nonce is at most the agent's
/// last accepted nonce is refused, whatever else it carries. Since an accepted
/// call records its nonce as the agent's last one, no nonce is accepted twice.
pub proof fn stale_action_nonce_refused(
    hub: ExecutionHub,
    env: &Context,
    agent_id: u64,
    executor: AccountId,
    action: String,
    parameters: Seq<u8>,
    nonce: u64,
)
    requires
        nonce <= hub.nonce_of(agent_id),
    ensures
        hub.execute_action_check(env, agent_id, executor, action, parameters, nonce) is Err,
{
}

/// The rate limit: a window never holds more than `max_operations` operations.
/// From a window within the limit, an accepted operation leaves a window with
/// between 1 and `max_operations` operations, and a full window that has not
/// elapsed accepts nothing.
pub proof fn rate_window_never_overfills(
    w: Option<RateWindow>,
    now: u64,
    max_operations: u32,
    window_seconds: u64,
)
    requires
        max_operations >= 1,
        w matches Some(x) ==> x.count <= max_operations,
    ensures
        rate_step(w, now, max_operations, window_seconds) matches Ok(n) ==> 1 <= n.count
            <= max_operations,
        (w matches Some(x) && x.count == max_operations && now <= x.last_reset + window_seconds)
            ==> rate_step(w, now, max_operations, window_seconds) is Err,
{
}

} // verus!
