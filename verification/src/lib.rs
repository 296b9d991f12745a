//! Verified state machines of the StellAIverse contract suite: agent NFTs, the
//! execution hub, agent evolution, the marketplace (listings, multi-signature
//! approvals, auctions, leases, atomic steps and the ledger-bounded leasing
//! module), the oracle and the upgrade proxy.
//!
//! Each contract's storage is a plain value of the library; each contract entry
//! point is a method that either rejects the call (the state is left exactly as
//! it was, as a reverted transaction leaves it) or applies its effect and reports
//! the token movements and cross-contract calls it asks for.
pub mod context;
pub mod types;
pub mod pair_map;
pub mod agent_nft;
pub mod evolution;
pub mod evolution_history;
pub mod execution_hub;
pub mod marketplace;
pub mod oracle;
pub mod proxy;
