use vstd::prelude::*;
use vstd::hash_map::HashMapWithView;
use crate::context::AccountId;
use crate::pair_map::PairMap;
use super::types::{Hash32, LeaseError, LeaseStatus, LeaseTerm};

verus! {

broadcast use vstd::std_specs::hash::group_hash_axioms;

/// The leasing records: the lease of each (agent, lessee) pair, the owner of
/// each agent, and a monotonic count of the leases created per agent.
pub struct LeaseRepository {
    pub leases: PairMap<HashMapWithView<u64, LeaseTerm>>,
    pub owners: PairMap<AccountId>,
    pub counts: PairMap<u64>,
}

/// The abstract contents of the leasing records.
pub struct RepoView {
    pub leases: Map<(Hash32, AccountId), LeaseTerm>,
    pub owners: Map<Hash32, AccountId>,
    pub counts: Map<Hash32, u64>,
}

impl View for LeaseRepository {
    type V = RepoView;

    open spec fn view(&self) -> RepoView {
        RepoView {
            leases: Map::new(
                |k: (Hash32, AccountId)|
                    self.leases.as_map().contains_key((k.0.hi, k.0.lo)) && self.leases.as_map()[(
                    k.0.hi,
                    k.0.lo,
                )]@.contains_key(k.1.id),
                |k: (Hash32, AccountId)| self.leases.as_map()[(k.0.hi, k.0.lo)]@[k.1.id],
            ),
            owners: Map::new(
                |a: Hash32| self.owners.as_map().contains_key((a.hi, a.lo)),
                |a: Hash32| self.owners.as_map()[(a.hi, a.lo)],
            ),
            counts: Map::new(
                |a: Hash32| self.counts.as_map().contains_key((a.hi, a.lo)),
                |a: Hash32| self.counts.as_map()[(a.hi, a.lo)],
            ),
        }
    }
}

impl RepoView {
    /// The lease of `lessee` on `agent`, if any.
    pub open spec fn lease(self, agent: Hash32, lessee: AccountId) -> Option<LeaseTerm> {
        if self.leases.contains_key((agent, lessee)) {
            Some(self.leases[(agent, lessee)])
        } else {
            None
        }
    }

    /// The owner of `agent`, if registered.
    pub open spec fn owner(self, agent: Hash32) -> Option<AccountId> {
        if self.owners.contains_key(agent) {
            Some(self.owners[agent])
        } else {
            None
        }
    }

    /// The number of leases created on `agent`.
    pub open spec fn count(self, agent: Hash32) -> u64 {
        if self.counts.contains_key(agent) {
            self.counts[agent]
        } else {
            0
        }
    }

    /// This view with the lease of `lessee` on `agent` set to `term`.
    pub open spec fn with_lease(self, agent: Hash32, lessee: AccountId, term: LeaseTerm) -> RepoView {
        RepoView { leases: self.leases.insert((agent, lessee), term), ..self }
    }

    /// This view with the lease of `lessee` on `agent` (if any) in status `status`.
    pub open spec fn with_status(self, agent: Hash32, lessee: AccountId, status: LeaseStatus) -> RepoView {
        if self.leases.contains_key((agent, lessee)) {
            self.with_lease(agent, lessee, LeaseTerm { status, ..self.leases[(agent, lessee)] })
        } else {
            self
        }
    }
}

impl LeaseRepository {
    /// Empty records.
    pub fn new() -> (r: LeaseRepository)
        ensures
            r@.leases == Map::<(Hash32, AccountId), LeaseTerm>::empty(),
            r@.owners == Map::<Hash32, AccountId>::empty(),
            r@.counts == Map::<Hash32, u64>::empty(),
    {
        let r = LeaseRepository { leases: PairMap::new(), owners: PairMap::new(), counts: PairMap::new() };
        assert(r@.leases =~= Map::<(Hash32, AccountId), LeaseTerm>::empty());
        assert(r@.owners =~= Map::<Hash32, AccountId>::empty());
        assert(r@.counts =~= Map::<Hash32, u64>::empty());
        r
    }

    /// Records `term` as the lease of `lessee` on `agent_id`.
    pub fn save_lease(&mut self, agent_id: Hash32, lessee: AccountId, term: LeaseTerm)
        ensures
            final(self)@ == old(self)@.with_lease(agent_id, lessee, term),
    {
        let mut inner = match self.leases.remove(agent_id.hi, agent_id.lo) {
            Some(m) => m,
            None => HashMapWithView::new(),
        };
        inner.insert(lessee.id, term);
        self.leases.insert(agent_id.hi, agent_id.lo, inner);
        assert(self@.leases =~= old(self)@.with_lease(agent_id, lessee, term).leases) by {
            assert forall|k: (Hash32, AccountId)| #[trigger] self@.leases.contains_key(k) implies (k.0
                == agent_id && k.1 == lessee) || old(self)@.leases.contains_key(k) by {
                if k.0 != agent_id {
                    assert((k.0.hi, k.0.lo) != (agent_id.hi, agent_id.lo));
                }
            }
            assert forall|k: (Hash32, AccountId)| #[trigger] old(self)@.leases.contains_key(k) && !(k.0
                == agent_id && k.1 == lessee) implies self@.leases.contains_key(k) && self@.leases[k]
                == old(self)@.leases[k] by {
                if k.0 != agent_id {
                    assert((k.0.hi, k.0.lo) != (agent_id.hi, agent_id.lo));
                } else {
                    assert(k.1.id != lessee.id);
                }
            }
        }
        assert(self@.owners =~= old(self)@.owners);
        assert(self@.counts =~= old(self)@.counts);
    }

    /// The lease of `lessee` on `agent_id`, if any.
    pub fn load_lease(&self, agent_id: Hash32, lessee: AccountId) -> (r: Option<LeaseTerm>)
        ensures
            r == self@.lease(agent_id, lessee),
    {
        match self.leases.get(agent_id.hi, agent_id.lo) {
            None => None,
            Some(m) => match m.get(&lessee.id) {
                Some(t) => Some(*t),
                None => None,
            },
        }
    }

    /// Whether a lease of `lessee` on `agent_id` is recorded.
    pub fn lease_exists(&self, agent_id: Hash32, lessee: AccountId) -> (b: bool)
        ensures
            b == self@.leases.contains_key((agent_id, lessee)),
    {
        self.load_lease(agent_id, lessee).is_some()
    }

    /// Marks the lease of `lessee` on `agent_id` expired (if there is one).
    pub fn expire_lease(&mut self, agent_id: Hash32, lessee: AccountId)
        ensures
            final(self)@ == old(self)@.with_status(agent_id, lessee, LeaseStatus::Expired),
    {
        if let Some(term) = self.load_lease(agent_id, lessee) {
            self.save_lease(agent_id, lessee, LeaseTerm { status: LeaseStatus::Expired, ..term });
        }
    }

    /// Marks the lease of `lessee` on `agent_id` revoked (if there is one).
    pub fn revoke_lease(&mut self, agent_id: Hash32, lessee: AccountId)
        ensures
            final(self)@ == old(self)@.with_status(agent_id, lessee, LeaseStatus::Revoked),
    {
        if let Some(term) = self.load_lease(agent_id, lessee) {
            self.save_lease(agent_id, lessee, LeaseTerm { status: LeaseStatus::Revoked, ..term });
        }
    }

    /// Records `owner` as the owner of `agent_id`.
    pub fn save_agent_owner(&mut self, agent_id: Hash32, owner: AccountId)
        ensures
            final(self)@ == (RepoView { owners: old(self)@.owners.insert(agent_id, owner), ..old(self)@ }),
    {
        self.owners.insert(agent_id.hi, agent_id.lo, owner);
        assert(self@.owners =~= old(self)@.owners.insert(agent_id, owner));
        assert(self@.leases =~= old(self)@.leases);
        assert(self@.counts =~= old(self)@.counts);
    }

    /// The owner of `agent_id`, if registered.
    pub fn load_agent_owner(&self, agent_id: Hash32) -> (r: Option<AccountId>)
        ensures
            r == self@.owner(agent_id),
    {
        match self.owners.get(agent_id.hi, agent_id.lo) {
            Some(o) => Some(*o),
            None => None,
        }
    }

    /// Moves the lease count of `agent_id` one up and returns it.
    pub fn increment_lease_count(&mut self, agent_id: Hash32) -> (r: Result<u64, LeaseError>)
        ensures
            old(self)@.count(agent_id) == u64::MAX ==> r == Err::<u64, LeaseError>(
                LeaseError::Overflow,
            ) && final(self)@ == old(self)@,
            old(self)@.count(agent_id) < u64::MAX ==> r == Ok::<u64, LeaseError>(
                (old(self)@.count(agent_id) + 1) as u64,
            ) && final(self)@ == (RepoView {
                counts: old(self)@.counts.insert(agent_id, (old(self)@.count(agent_id) + 1) as u64),
                ..old(self)@
            }),
    {
        let count = self.get_lease_count(agent_id);
        if count == u64::MAX {
            return Err(LeaseError::Overflow);
        }
        let next = count + 1;
        self.counts.insert(agent_id.hi, agent_id.lo, next);
        assert(self@.counts =~= old(self)@.counts.insert(agent_id, next));
        assert(self@.leases =~= old(self)@.leases);
        assert(self@.owners =~= old(self)@.owners);
        Ok(next)
    }

    /// The number of leases created on `agent_id`.
    pub fn get_lease_count(&self, agent_id: Hash32) -> (n: u64)
        ensures
            n == self@.count(agent_id),
    {
        match self.counts.get(agent_id.hi, agent_id.lo) {
            Some(c) => *c,
            None => 0,
        }
    }
}

} // verus!
