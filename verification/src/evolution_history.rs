use vstd::prelude::*;
use vstd::hash_map::HashMapWithView;
use crate::context::{AccountId, Context};

verus! {

broadcast use vstd::std_specs::hash::group_hash_axioms;

/// One step of an agent's evolution.
#[derive(Clone, Debug, PartialEq, Eq)]
pub struct EvolutionRecord {
    pub timestamp: u64,
    pub from_stage: u32,
    pub to_stage: u32,
    pub agent_id: AccountId,
    pub trigger: String,
}

/// The append-only evolution history of every agent, keyed by the agent's address.
pub struct EvolutionHistoryStore {
    pub histories: HashMapWithView<u64, Vec<EvolutionRecord>>,
}

impl EvolutionHistoryStore {
    /// A store with no history.
    pub fn new() -> (s: EvolutionHistoryStore)
        ensures
            s.histories@ == Map::<u64, Vec<EvolutionRecord>>::empty(),
    {
        EvolutionHistoryStore { histories: HashMapWithView::new() }
    }

    /// The records of `agent_id`, oldest first (empty when none was appended).
    pub open spec fn history_of(&self, agent_id: AccountId) -> Seq<EvolutionRecord> {
        if self.histories@.contains_key(agent_id.id) {
            self.histories@[agent_id.id]@
        } else {
            Seq::empty()
        }
    }
}

/// A copy of `r`.
pub fn copy_record(r: &EvolutionRecord) -> (c: EvolutionRecord)
    ensures
        c == *r,
{
    EvolutionRecord {
        timestamp: r.timestamp,
        from_stage: r.from_stage,
        to_stage: r.to_stage,
        agent_id: r.agent_id,
        trigger: r.trigger.clone(),
    }
}

/// Appends a record of `agent_id` moving from `from_stage` to `to_stage`,
/// stamped with the ledger time; the earlier records stay as they were.
pub fn append_evolution(
    store: &mut EvolutionHistoryStore,
    env: &Context,
    agent_id: AccountId,
    from_stage: u32,
    to_stage: u32,
    trigger: String,
)
    ensures
        final(store).history_of(agent_id) == old(store).history_of(agent_id).push(
            EvolutionRecord { timestamp: env.timestamp, from_stage, to_stage, agent_id, trigger },
        ),
        forall|other: AccountId|
            other != agent_id ==> final(store).history_of(other) == old(store).history_of(other),
{
    let mut history = match store.histories.remove(&agent_id.id) {
        Some(h) => h,
        None => Vec::new(),
    };
    history.push(EvolutionRecord { timestamp: env.timestamp, from_stage, to_stage, agent_id, trigger });
    store.histories.insert(agent_id.id, history);
    assert forall|other: AccountId| other != agent_id implies final(store).history_of(other)
        == old(store).history_of(other) by {
        assert(other.id != agent_id.id);
    }
}

/// The full history of `agent_id`, oldest first.
pub fn get_evolution_history(store: &EvolutionHistoryStore, agent_id: AccountId) -> (v: Vec<
    EvolutionRecord,
>)
    ensures
        v@ == store.history_of(agent_id),
{
    let mut out: Vec<EvolutionRecord> = Vec::new();
    match store.histories.get(&agent_id.id) {
        None => {},
        Some(h) => {
            let n = h.len();
            let mut i: usize = 0;
            while i < n
                invariant
                    n == h@.len(),
                    i <= n,
                    out@ == h@.subrange(0, i as int),
                decreases n - i,
            {
                out.push(copy_record(&h[i]));
                i = i + 1;
            }
            assert(out@ == h@);
        },
    }
    out
}

/// Number of records of `agent_id`.
pub fn get_evolution_count(store: &EvolutionHistoryStore, agent_id: AccountId) -> (n: u32)
    requires
        store.history_of(agent_id).len() <= u32::MAX,
    ensures
        n == store.history_of(agent_id).len(),
{
    match store.histories.get(&agent_id.id) {
        None => 0,
        Some(h) => h.len() as u32,
    }
}

/// The most recent record of `agent_id`, if any.
pub fn get_latest_evolution(store: &EvolutionHistoryStore, agent_id: AccountId) -> (r: Option<
    EvolutionRecord,
>)
    ensures
        store.history_of(agent_id).len() == 0 ==> r is None,
        store.history_of(agent_id).len() > 0 ==> r == Some(store.history_of(agent_id).last()),
{
    match store.histories.get(&agent_id.id) {
        None => None,
        Some(h) => {
            if h.len() == 0 {
                None
            } else {
                Some(copy_record(&h[h.len() - 1]))
            }
        },
    }
}

/// The record of `agent_id` at position `index` (0 is the oldest), if there is one.
pub fn get_evolution_at_index(store: &EvolutionHistoryStore, agent_id: AccountId, index: u32) -> (r:
    Option<EvolutionRecord>)
    ensures
        index < store.history_of(agent_id).len() ==> r == Some(
            store.history_of(agent_id)[index as int],
        ),
        index >= store.history_of(agent_id).len() ==> r is None,
{
    match store.histories.get(&agent_id.id) {
        None => None,
        Some(h) => {
            if (index as usize) < h.len() {
                Some(copy_record(&h[index as usize]))
            } else {
                None
            }
        },
    }
}

} // verus!
