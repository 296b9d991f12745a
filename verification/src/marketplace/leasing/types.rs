use vstd::prelude::*;
pub use crate::context::{AccountId, Hash32};

verus! {

/// Lifecycle state of a lease.
#[derive(Clone, Copy, Debug, PartialEq, Eq, Structural)]
pub enum LeaseStatus {
    /// The lessee may execute the agent.
    Active,
    /// The lease term has elapsed.
    Expired,
    /// The lessor revoked the lease before it expired.
    Revoked,
}

/// One lease: `lessee` may execute the lessor's agent from ledger
/// `start_ledger` up to, not including, `end_ledger`.
#[derive(Clone, Copy, Debug, PartialEq, Eq, Structural)]
pub struct LeaseTerm {
    pub lessor: AccountId,
    pub lessee: AccountId,
    pub start_ledger: u32,
    pub end_ledger: u32,
    pub status: LeaseStatus,
}

impl LeaseTerm {
    /// The lease is active and `current_ledger` lies in its window.
    pub open spec fn valid_at(self, current_ledger: u32) -> bool {
        self.status == LeaseStatus::Active && current_ledger >= self.start_ledger && current_ledger
            < self.end_ledger
    }

    /// Whether the lease is active and `current_ledger` lies in its window.
    pub fn is_valid_at(&self, current_ledger: u32) -> (b: bool)
        ensures
            b == self.valid_at(current_ledger),
    {
        self.status == LeaseStatus::Active && current_ledger >= self.start_ledger && current_ledger
            < self.end_ledger
    }
}

/// Why a leasing operation was refused.
#[derive(Clone, Copy, Debug, PartialEq, Eq, Structural)]
pub enum LeaseError {
    /// The caller is not the agent's owner (or the lease's lessor).
    Unauthorized,
    /// An active lease already exists for this agent and lessee.
    LeaseAlreadyExists,
    /// No lease is recorded for this agent and lessee.
    LeaseNotFound,
    /// The lease window is empty or shorter than the minimum.
    InvalidLeaseTerm,
    /// The lease has expired (or has not started yet).
    LeaseExpired,
    /// The lessor revoked the lease.
    LeaseRevoked,
    /// The host refused the required authorization.
    NotAuthorized,
    /// A counter would leave its integer type.
    Overflow,
}

} // verus!
