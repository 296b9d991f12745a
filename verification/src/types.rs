use vstd::prelude::*;
use crate::context::AccountId;

verus! {

/// Longest name, hash or capability string accepted (in bytes).
pub const MAX_STRING_LENGTH: u32 = 256;
/// Largest royalty fee, in basis points (100 %).
pub const MAX_ROYALTY_FEE: u32 = 10000;
/// Largest rule or parameter payload accepted (in bytes).
pub const MAX_DATA_SIZE: u32 = 65536;
/// Most entries kept in an agent's action history.
pub const MAX_HISTORY_SIZE: u32 = 1000;
/// Most entries one history query may return.
pub const MAX_HISTORY_QUERY_LIMIT: u32 = 500;
/// Operations allowed per rate-limit window.
pub const DEFAULT_RATE_LIMIT_OPERATIONS: u32 = 100;
/// Length of a rate-limit window, in seconds.
pub const DEFAULT_RATE_LIMIT_WINDOW_SECONDS: u64 = 60;
/// Most capabilities an agent may carry.
pub const MAX_CAPABILITIES: usize = 32;
/// Largest stake or price accepted (half of `i128::MAX`, to keep sums in range).
pub const PRICE_UPPER_BOUND: i128 = 85070591730234615865843651857942052863;
/// Size of an Ed25519 signature, in bytes.
pub const ATTESTATION_SIGNATURE_SIZE: usize = 64;
/// Largest attestation payload accepted (in bytes).
pub const MAX_ATTESTATION_DATA_SIZE: usize = 1024;
/// Price from which a sale needs multi-signature approval (10,000 units at 7 decimals).
pub const DEFAULT_APPROVAL_THRESHOLD: i128 = 10_000_000_000;
/// Approvals needed by default.
pub const DEFAULT_APPROVERS_REQUIRED: u32 = 2;
/// Approvers allowed by default.
pub const DEFAULT_TOTAL_APPROVERS: u32 = 3;
/// Default lifetime of a sale proposal, in seconds (7 days).
pub const DEFAULT_APPROVAL_TTL_SECONDS: u64 = 604800;
/// Default lease deposit, in basis points of the lease value.
pub const DEFAULT_LEASE_DEPOSIT_BPS: u32 = 1000;
/// Default early-termination penalty, in basis points of the remaining value.
pub const DEFAULT_EARLY_TERMINATION_PENALTY_BPS: u32 = 2000;
/// Shortest lease accepted, in seconds (one day).
pub const MIN_LEASE_DURATION_SECONDS: u64 = 86400;
/// Longest lease accepted, in days (about 100 years).
pub const MAX_DURATION_DAYS: u64 = 36500;
/// Longest lease accepted, in seconds.
pub const MAX_LEASE_DURATION_SECONDS: u64 = MAX_DURATION_DAYS * 86400;
/// How long a lease extension request stays open, in seconds (7 days).
pub const LEASE_EXTENSION_REQUEST_TTL_SECONDS: u64 = 604800;

/// An agent's metadata and state.
#[derive(Clone, Debug, PartialEq, Eq)]
pub struct Agent {
    pub id: u64,
    pub owner: AccountId,
    pub name: String,
    pub model_hash: String,
    pub metadata_cid: String,
    pub capabilities: Vec<String>,
    pub evolution_level: u32,
    pub created_at: u64,
    pub updated_at: u64,
    pub nonce: u64,
    pub escrow_locked: bool,
    pub escrow_holder: Option<AccountId>,
}

/// A rate-limit setting: at most `max_operations` operations per `window_seconds`.
#[derive(Clone, Copy, Debug, PartialEq, Eq, Structural)]
pub struct RateLimit {
    pub window_seconds: u64,
    pub max_operations: u32,
}

/// What a listing offers.
#[derive(Clone, Copy, Debug, PartialEq, Eq, Structural)]
pub enum ListingType {
    Sale,
    Lease,
    Auction,
}

/// A marketplace listing.
#[derive(Clone, Copy, Debug, PartialEq, Eq, Structural)]
pub struct Listing {
    pub listing_id: u64,
    pub agent_id: u64,
    pub seller: AccountId,
    pub price: i128,
    pub listing_type: ListingType,
    pub active: bool,
    pub created_at: u64,
}

/// Lifecycle of an evolution request.
#[derive(Clone, Copy, Debug, PartialEq, Eq, Structural)]
pub enum EvolutionStatus {
    Pending,
    InProgress,
    Completed,
    Failed,
}

/// An agent upgrade request.
#[derive(Clone, Copy, Debug, PartialEq, Eq, Structural)]
pub struct EvolutionRequest {
    pub request_id: u64,
    pub agent_id: u64,
    pub owner: AccountId,
    pub stake_amount: i128,
    pub status: EvolutionStatus,
    pub created_at: u64,
    pub completed_at: Option<u64>,
}

/// Royalty paid on an agent's sales: `fee` basis points to `recipient`.
#[derive(Clone, Copy, Debug, PartialEq, Eq, Structural)]
pub struct RoyaltyInfo {
    pub recipient: AccountId,
    pub fee: u32,
}

/// Kind of auction.
#[derive(Clone, Copy, Debug, PartialEq, Eq, Structural)]
pub enum AuctionType {
    English,
    Dutch,
}

/// Lifecycle of an auction.
#[derive(Clone, Copy, Debug, PartialEq, Eq, Structural)]
pub enum AuctionStatus {
    Created,
    Active,
    Ended,
    Cancelled,
    Won,
}

/// How a Dutch auction's price falls.
#[derive(Clone, Copy, Debug, PartialEq, Eq, Structural)]
pub enum PriceDecay {
    Linear,
    Exponential,
}

/// Parameters of a Dutch auction.
#[derive(Clone, Copy, Debug, PartialEq, Eq, Structural)]
pub struct DutchAuctionConfig {
    pub start_price: i128,
    pub end_price: i128,
    pub duration_seconds: u64,
    pub price_decay: PriceDecay,
}

/// An auction of an agent.
#[derive(Clone, Copy, Debug, PartialEq, Eq, Structural)]
pub struct Auction {
    pub auction_id: u64,
    pub agent_id: u64,
    pub seller: AccountId,
    pub auction_type: AuctionType,
    pub start_price: i128,
    pub reserve_price: i128,
    pub highest_bidder: Option<AccountId>,
    pub highest_bid: i128,
    pub start_time: u64,
    pub end_time: u64,
    pub min_bid_increment_bps: u32,
    pub status: AuctionStatus,
    pub dutch_start_price: Option<i128>,
    pub dutch_end_price: Option<i128>,
    pub dutch_duration_seconds: Option<u64>,
    pub dutch_price_decay: Option<u32>,
}

/// Multi-signature approval settings for high-value sales.
#[derive(Clone, Copy, Debug, PartialEq, Eq, Structural)]
pub struct ApprovalConfig {
    pub threshold: i128,
    pub approvers_required: u32,
    pub total_approvers: u32,
    pub ttl_seconds: u64,
}

/// Lifecycle of a sale proposal.
#[derive(Clone, Copy, Debug, PartialEq, Eq, Structural)]
pub enum ApprovalStatus {
    Pending,
    Approved,
    Rejected,
    Expired,
    Executed,
}

/// A multi-signature approval for a high-value sale.
#[derive(Clone, Debug, PartialEq, Eq)]
pub struct Approval {
    pub approval_id: u64,
    pub listing_id: Option<u64>,
    pub auction_id: Option<u64>,
    pub buyer: AccountId,
    pub price: i128,
    pub proposed_at: u64,
    pub expires_at: u64,
    pub status: ApprovalStatus,
    pub required_approvals: u32,
    pub approvers: Vec<AccountId>,
    pub approvals_received: Vec<AccountId>,
    pub rejections_received: Vec<AccountId>,
    pub rejection_reasons: Vec<String>,
}

/// What happened to a sale proposal.
#[derive(Clone, Copy, Debug, PartialEq, Eq, Structural)]
pub enum ApprovalAction {
    Proposed,
    Approved,
    FullyApproved,
    Rejected,
    Executed,
    Expired,
}

impl ApprovalAction {
    /// The name under which the action is recorded.
    pub fn name(&self) -> (r: &'static str)
        ensures
            r@ == match *self {
                ApprovalAction::Proposed => "proposed"@,
                ApprovalAction::Approved => "approved"@,
                ApprovalAction::FullyApproved => "fully_approved"@,
                ApprovalAction::Rejected => "rejected"@,
                ApprovalAction::Executed => "executed"@,
                ApprovalAction::Expired => "expired"@,
            },
    {
        match self {
            ApprovalAction::Proposed => "proposed",
            ApprovalAction::Approved => "approved",
            ApprovalAction::FullyApproved => "fully_approved",
            ApprovalAction::Rejected => "rejected",
            ApprovalAction::Executed => "executed",
            ApprovalAction::Expired => "expired",
        }
    }
}

/// One entry of a sale proposal's audit trail.
#[derive(Clone, Debug, PartialEq, Eq)]
pub struct ApprovalHistory {
    pub approval_id: u64,
    pub action: ApprovalAction,
    pub actor: AccountId,
    pub timestamp: u64,
    pub reason: Option<String>,
}

/// An oracle's signed statement that an evolution request has been carried out.
#[derive(Clone, Debug, PartialEq, Eq)]
pub struct EvolutionAttestation {
    pub request_id: u64,
    pub agent_id: u64,
    pub oracle_provider: AccountId,
    pub new_model_hash: String,
    pub attestation_data: Vec<u8>,
    pub signature: Vec<u8>,
    pub timestamp: u64,
    pub nonce: u64,
}

/// A value submitted by an oracle provider.
#[derive(Clone, Debug, PartialEq, Eq)]
pub struct OracleData {
    pub key: String,
    pub value: i128,
    pub timestamp: u64,
    pub provider: AccountId,
    pub signature: Option<String>,
    pub source: Option<String>,
}

/// Lifecycle of a marketplace lease.
#[derive(Clone, Copy, Debug, PartialEq, Eq, Structural)]
pub enum LeaseState {
    Active,
    ExtensionRequested,
    Terminated,
    Renewed,
}

/// A lease of an agent bought through a lease listing.
#[derive(Clone, Copy, Debug, PartialEq, Eq, Structural)]
pub struct LeaseData {
    pub lease_id: u64,
    pub agent_id: u64,
    pub listing_id: u64,
    pub lessor: AccountId,
    pub lessee: AccountId,
    pub start_time: u64,
    pub end_time: u64,
    pub duration_seconds: u64,
    pub deposit_amount: i128,
    pub total_value: i128,
    pub auto_renew: bool,
    pub lessee_consent_for_renewal: bool,
    pub status: LeaseState,
    pub pending_extension_id: Option<u64>,
}

/// A lessee's request to extend a lease.
#[derive(Clone, Copy, Debug, PartialEq, Eq, Structural)]
pub struct LeaseExtensionRequest {
    pub extension_id: u64,
    pub lease_id: u64,
    pub additional_duration_seconds: u64,
    pub requested_at: u64,
    pub approved: bool,
}

/// What happened to a lease.
#[derive(Clone, Copy, Debug, PartialEq, Eq, Structural)]
pub enum LeaseAction {
    Initiated,
    ExtensionRequested,
    Extended,
    Terminated,
    Expired,
    Renewed,
}

impl LeaseAction {
    /// The name under which the action is recorded.
    pub fn name(&self) -> (r: &'static str)
        ensures
            r@ == match *self {
                LeaseAction::Initiated => "initiated"@,
                LeaseAction::ExtensionRequested => "extension_requested"@,
                LeaseAction::Extended => "extended"@,
                LeaseAction::Terminated => "terminated"@,
                LeaseAction::Expired => "expired"@,
                LeaseAction::Renewed => "renewed"@,
            },
    {
        match self {
            LeaseAction::Initiated => "initiated",
            LeaseAction::ExtensionRequested => "extension_requested",
            LeaseAction::Extended => "extended",
            LeaseAction::Terminated => "terminated",
            LeaseAction::Expired => "expired",
            LeaseAction::Renewed => "renewed",
        }
    }
}

/// One entry of a lease's history.
#[derive(Clone, Copy, Debug, PartialEq, Eq, Structural)]
pub struct LeaseHistoryEntry {
    pub lease_id: u64,
    pub action: LeaseAction,
    pub actor: AccountId,
    pub timestamp: u64,
}

/// A token movement that a contract call asks the payment token to make.
#[derive(Clone, Copy, Debug, PartialEq, Eq, Structural)]
pub struct Transfer {
    pub from: AccountId,
    pub to: AccountId,
    pub amount: i128,
}

} // verus!
