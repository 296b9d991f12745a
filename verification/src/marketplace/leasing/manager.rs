use vstd::prelude::*;
use crate::context::{AccountId, Context};
use super::repository::{LeaseRepository, RepoView};
use super::types::{Hash32, LeaseError, LeaseStatus, LeaseTerm};

verus! {

/// A lease must last more than this many ledgers (about five minutes).
pub const MIN_LEASE_DURATION_LEDGERS: u32 = 60;

/// The leasing rules over the leasing records.
pub struct LeaseManager {
    pub repo: LeaseRepository,
}

impl RepoView {
    /// The first reason to refuse creating a lease, if any.
    pub open spec fn create_lease_check(
        self,
        env: &Context,
        agent_id: Hash32,
        lessor: AccountId,
        lessee: AccountId,
        start_ledger: u32,
        end_ledger: u32,
    ) -> Result<(), LeaseError> {
        if !env.authorizes(lessor) {
            Err(LeaseError::NotAuthorized)
        } else if self.owner(agent_id) != Some(lessor) {
            Err(LeaseError::Unauthorized)
        } else if end_ledger <= start_ledger || end_ledger - start_ledger <= MIN_LEASE_DURATION_LEDGERS {
            Err(LeaseError::InvalidLeaseTerm)
        } else if self.lease(agent_id, lessee) matches Some(t) && t.status == LeaseStatus::Active {
            Err(LeaseError::LeaseAlreadyExists)
        } else if self.count(agent_id) == u64::MAX {
            Err(LeaseError::Overflow)
        } else {
            Ok(())
        }
    }

    /// The records after a lazy expiry check at ledger `current`: an active
    /// lease whose end has passed is marked expired.
    pub open spec fn settled(self, agent_id: Hash32, lessee: AccountId, current: u32) -> RepoView {
        if self.lease(agent_id, lessee) matches Some(t) && t.status == LeaseStatus::Active && current
            >= t.end_ledger {
            self.with_status(agent_id, lessee, LeaseStatus::Expired)
        } else {
            self
        }
    }

    /// The answer to whether `lessee` may execute `agent_id` at ledger `current`.
    pub open spec fn permission(self, agent_id: Hash32, lessee: AccountId, current: u32) -> Result<
        (),
        LeaseError,
    > {
        match self.lease(agent_id, lessee) {
            None => Err(LeaseError::LeaseNotFound),
            Some(t) => if t.status == LeaseStatus::Revoked {
                Err(LeaseError::LeaseRevoked)
            } else if t.status == LeaseStatus::Expired || current >= t.end_ledger {
                Err(LeaseError::LeaseExpired)
            } else if !t.valid_at(current) {
                Err(LeaseError::LeaseExpired)
            } else {
                Ok(())
            },
        }
    }
}

impl LeaseManager {
    /// A manager over empty records.
    pub fn new() -> (m: LeaseManager)
        ensures
            m.repo@.leases == Map::<(Hash32, AccountId), LeaseTerm>::empty(),
            m.repo@.owners == Map::<Hash32, AccountId>::empty(),
            m.repo@.counts == Map::<Hash32, u64>::empty(),
    {
        LeaseManager { repo: LeaseRepository::new() }
    }

    /// Registers `owner` as the lessor of `agent_id`; refused when another
    /// address is already registered.
    pub fn register_agent(&mut self, env: &Context, agent_id: Hash32, owner: AccountId) -> (r: Result<
        (),
        LeaseError,
    >)
        ensures
            !env.authorizes(owner) ==> r == Err::<(), LeaseError>(LeaseError::NotAuthorized),
            env.authorizes(owner) && old(self).repo@.owner(agent_id) is Some && old(
                self,
            ).repo@.owner(agent_id) != Some(owner) ==> r == Err::<(), LeaseError>(
                LeaseError::Unauthorized,
            ),
            r is Ok <==> env.authorizes(owner) && (old(self).repo@.owner(agent_id) is None || old(
                self,
            ).repo@.owner(agent_id) == Some(owner)),
            r is Err ==> final(self).repo@ == old(self).repo@,
            r is Ok ==> final(self).repo@ == (RepoView {
                owners: old(self).repo@.owners.insert(agent_id, owner),
                ..old(self).repo@
            }),
    {
        if !env.require_auth(owner) {
            return Err(LeaseError::NotAuthorized);
        }
        if let Some(existing) = self.repo.load_agent_owner(agent_id) {
            if existing != owner {
                return Err(LeaseError::Unauthorized);
            }
        }
        self.repo.save_agent_owner(agent_id, owner);
        Ok(())
    }

    /// The owner grants `lessee` execution rights on `agent_id` for ledgers
    /// `[start_ledger, end_ledger)`, longer than `MIN_LEASE_DURATION_LEDGERS`,
    /// unless an active lease of that lessee exists; the agent's lease count
    /// goes one up.
    pub fn create_lease(
        &mut self,
        env: &Context,
        agent_id: Hash32,
        lessor: AccountId,
        lessee: AccountId,
        start_ledger: u32,
        end_ledger: u32,
    ) -> (r: Result<LeaseTerm, LeaseError>)
        ensures
            match r {
                Err(e) => old(self).repo@.create_lease_check(
                    env,
                    agent_id,
                    lessor,
                    lessee,
                    start_ledger,
                    end_ledger,
                ) == Err::<(), LeaseError>(e) && final(self).repo@ == old(self).repo@,
                Ok(term) => {
                    let v = old(self).repo@;
                    &&& v.create_lease_check(env, agent_id, lessor, lessee, start_ledger, end_ledger) is Ok
                    &&& term == LeaseTerm {
                        lessor,
                        lessee,
                        start_ledger,
                        end_ledger,
                        status: LeaseStatus::Active,
                    }
                    &&& final(self).repo@ == (RepoView {
                        counts: v.counts.insert(agent_id, (v.count(agent_id) + 1) as u64),
                        ..v.with_lease(agent_id, lessee, term)
                    })
                },
            },
    {
        if !env.require_auth(lessor) {
            return Err(LeaseError::NotAuthorized);
        }
        let owner = match self.repo.load_agent_owner(agent_id) {
            None => return Err(LeaseError::Unauthorized),
            Some(o) => o,
        };
        if owner != lessor {
            return Err(LeaseError::Unauthorized);
        }
        if end_ledger <= start_ledger || (end_ledger - start_ledger) <= MIN_LEASE_DURATION_LEDGERS {
            return Err(LeaseError::InvalidLeaseTerm);
        }
        if let Some(existing) = self.repo.load_lease(agent_id, lessee) {
            if existing.status == LeaseStatus::Active {
                return Err(LeaseError::LeaseAlreadyExists);
            }
        }
        if self.repo.get_lease_count(agent_id) == u64::MAX {
            return Err(LeaseError::Overflow);
        }
        let term = LeaseTerm { lessor, lessee, start_ledger, end_ledger, status: LeaseStatus::Active };
        self.repo.save_lease(agent_id, lessee, term);
        let _ = self.repo.increment_lease_count(agent_id);
        Ok(term)
    }

    /// The lessor revokes the lease of `lessee` on `agent_id`; the record stays,
    /// marked revoked.
    pub fn revoke_lease(&mut self, env: &Context, agent_id: Hash32, lessor: AccountId, lessee: AccountId) -> (r:
        Result<(), LeaseError>)
        ensures
            !env.authorizes(lessor) ==> r == Err::<(), LeaseError>(LeaseError::NotAuthorized),
            env.authorizes(lessor) && old(self).repo@.lease(agent_id, lessee) is None ==> r == Err::<
                (),
                LeaseError,
            >(LeaseError::LeaseNotFound),
            env.authorizes(lessor) && (old(self).repo@.lease(agent_id, lessee) matches Some(t)
                && t.lessor != lessor) ==> r == Err::<(), LeaseError>(LeaseError::Unauthorized),
            r is Ok <==> (env.authorizes(lessor) && (old(self).repo@.lease(agent_id, lessee) matches Some(
                t,
            ) && t.lessor == lessor)),
            r is Err ==> final(self).repo@ == old(self).repo@,
            r is Ok ==> final(self).repo@ == old(self).repo@.with_status(
                agent_id,
                lessee,
                LeaseStatus::Revoked,
            ),
    {
        if !env.require_auth(lessor) {
            return Err(LeaseError::NotAuthorized);
        }
        let term = match self.repo.load_lease(agent_id, lessee) {
            None => return Err(LeaseError::LeaseNotFound),
            Some(t) => t,
        };
        if term.lessor != lessor {
            return Err(LeaseError::Unauthorized);
        }
        self.repo.revoke_lease(agent_id, lessee);
        Ok(())
    }

    /// Anyone marks an active lease whose end ledger has passed as expired.
    pub fn settle_expiry(&mut self, env: &Context, agent_id: Hash32, lessee: AccountId) -> (r: Result<
        (),
        LeaseError,
    >)
        ensures
            old(self).repo@.lease(agent_id, lessee) is None ==> r == Err::<(), LeaseError>(
                LeaseError::LeaseNotFound,
            ) && final(self).repo@ == old(self).repo@,
            old(self).repo@.lease(agent_id, lessee) is Some ==> r is Ok && final(self).repo@ == old(
                self,
            ).repo@.settled(agent_id, lessee, env.sequence),
    {
        let term = match self.repo.load_lease(agent_id, lessee) {
            None => return Err(LeaseError::LeaseNotFound),
            Some(t) => t,
        };
        let current = env.sequence;
        if term.status == LeaseStatus::Active && current >= term.end_ledger {
            self.repo.expire_lease(agent_id, lessee);
        }
        Ok(())
    }

    /// Whether `lessee` may execute `agent_id` at the current ledger, settling a
    /// lapsed active lease as expired on the way (the record keeps that change
    /// whatever the answer).
    pub fn check_lease_permission(&mut self, env: &Context, agent_id: Hash32, lessee: AccountId) -> (r:
        Result<(), LeaseError>)
        ensures
            r == old(self).repo@.permission(agent_id, lessee, env.sequence),
            final(self).repo@ == old(self).repo@.settled(agent_id, lessee, env.sequence),
    {
        let mut term = match self.repo.load_lease(agent_id, lessee) {
            None => return Err(LeaseError::LeaseNotFound),
            Some(t) => t,
        };
        let current = env.sequence;
        if term.status == LeaseStatus::Active && current >= term.end_ledger {
            self.repo.expire_lease(agent_id, lessee);
            term.status = LeaseStatus::Expired;
        }
        match term.status {
            LeaseStatus::Revoked => Err(LeaseError::LeaseRevoked),
            LeaseStatus::Expired => Err(LeaseError::LeaseExpired),
            LeaseStatus::Active => {
                if !term.is_valid_at(current) {
                    Err(LeaseError::LeaseExpired)
                } else {
                    Ok(())
                }
            },
        }
    }

    /// The lease of `lessee` on `agent_id`, if any.
    pub fn get_lease(&self, agent_id: Hash32, lessee: AccountId) -> (r: Option<LeaseTerm>)
        ensures
            r == self.repo@.lease(agent_id, lessee),
    {
        self.repo.load_lease(agent_id, lessee)
    }

    /// The number of leases created on `agent_id`.
    pub fn get_lease_count(&self, agent_id: Hash32) -> (n: u64)
        ensures
            n == self.repo@.count(agent_id),
    {
        self.repo.get_lease_count(agent_id)
    }
}

/// A lessee may execute an agent exactly when its lease on the agent is
/// active and the ledger lies in the lease window.
pub proof fn permission_iff_valid_lease(v: RepoView, agent_id: Hash32, lessee: AccountId, current: u32)
    ensures
        v.permission(agent_id, lessee, current) is Ok <==> (v.lease(agent_id, lessee) matches Some(t)
            && t.valid_at(current)),
{
}

/// A revoked lease grants nothing: after revocation every permission check
/// answers `LeaseRevoked`.
pub proof fn revoked_lease_denied(v: RepoView, agent_id: Hash32, lessee: AccountId, current: u32)
    requires
        v.lease(agent_id, lessee) is Some,
    ensures
        v.with_status(agent_id, lessee, LeaseStatus::Revoked).permission(agent_id, lessee, current)
            == Err::<(), LeaseError>(LeaseError::LeaseRevoked),
{
}

/// Settling a lapsed lease changes no answer: the permission check gives the
/// same result before and after the lazy expiry.
pub proof fn settling_keeps_permission(v: RepoView, agent_id: Hash32, lessee: AccountId, current: u32)
    ensures
        v.settled(agent_id, lessee, current).permission(agent_id, lessee, current) == v.permission(
            agent_id,
            lessee,
            current,
        ),
{
}

} // verus!
