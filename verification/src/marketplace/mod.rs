//! The marketplace contract: listings, royalties, multi-signature approvals of
//! high-value sales, English and Dutch auctions, leases with deposits,
//! extensions and renewals, two-phase atomic steps, and the ledger-bounded
//! leasing module.
pub mod storage;
pub mod listing;
pub mod approval;
pub mod auction;
pub mod lease;
pub mod atomic;
pub mod leasing;
