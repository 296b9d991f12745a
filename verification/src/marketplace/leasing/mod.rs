//! Agent leasing: time-bounded execution rights, in ledger sequence numbers,
//! that an agent's owner grants to a lessee. `LeaseManager` holds the rules and
//! is what the execution hub asks before an execution; `LeaseRepository` holds
//! the records.
pub mod types;
pub mod repository;
pub mod manager;
