use vstd::prelude::*;
use vstd::hash_map::HashMapWithView;
use crate::context::{AccountId, Context};
use crate::pair_map::PairMap;
use crate::types::{
    Approval, ApprovalConfig, ApprovalHistory, ApprovalStatus, Auction, LeaseData, LeaseExtensionRequest,
    LeaseHistoryEntry, Listing, RoyaltyInfo, DEFAULT_APPROVAL_THRESHOLD, DEFAULT_APPROVAL_TTL_SECONDS,
    DEFAULT_APPROVERS_REQUIRED, DEFAULT_EARLY_TERMINATION_PENALTY_BPS, DEFAULT_LEASE_DEPOSIT_BPS,
    DEFAULT_TOTAL_APPROVERS, MAX_ROYALTY_FEE,
};

verus! {

broadcast use vstd::std_specs::hash::group_hash_axioms;

/// Why the marketplace rejected a call (the call's effects are all undone).
#[derive(Clone, Copy, Debug, PartialEq, Eq, Structural)]
pub enum MarketError {
    AlreadyInitialized,
    NotAuthorized,
    NotInitialized,
    Unauthorized,
    Overflow,
    PaymentTokenNotSet,
    RoyaltyBpsNotSet,
    InvalidAgentId,
    InvalidListingType,
    NonPositivePrice,
    PriceTooHigh,
    InvalidListingId,
    ListingNotFound,
    ListingNotActive,
    ApprovalRequired,
    RoyaltyTooHigh,
    InvalidThreshold,
    InvalidApproversRequired,
    InvalidTotalApprovers,
    InvalidTtl,
    BelowThreshold,
    InsufficientApprovers,
    TooManyApprovers,
    AuctionNotFound,
    AuctionNotActive,
    NoWinningBid,
    InvalidApprovalId,
    ApprovalNotFound,
    ApprovalNotPending,
    ApprovalExpired,
    UnauthorizedApprover,
    AlreadyApproved,
    AlreadyRejected,
    ApprovalNotApproved,
    InvalidApproval,
    RoyaltyNotFound,
    InvalidStartPrice,
    InvalidDuration,
    NotDutchAuction,
    MissingDutchConfig,
    DivisionByZero,
    NotEnglishAuction,
    AuctionExpired,
    BidTooLow,
    AuctionNotEnded,
    AuctionHasBids,
    InvalidLeaseId,
    LeaseNotFound,
    NotALeaseListing,
    LessorIsLessee,
    LeaseNotActive,
    LeaseEnded,
    InvalidAdditionalDuration,
    InvalidExtensionId,
    NotExtensionRequested,
    ExtensionMismatch,
    ExtensionNotFound,
    ExtensionAlreadyApproved,
    ExtensionForOtherLease,
    ExtensionExpired,
    InsufficientTerminationFee,
    LeaseNotExpired,
    AutoRenewOff,
    NoRenewalConsent,
    DepositBpsTooHigh,
    PenaltyBpsTooHigh,
    InvalidArgument,
}

/// Lease deposit and early-termination penalty, in basis points.
#[derive(Clone, Copy, Debug, PartialEq, Eq, Structural)]
pub struct LeaseConfig {
    pub deposit_bps: u32,
    pub early_termination_penalty_bps: u32,
}

/// State of one prepared atomic step.
#[derive(Clone, Copy, Debug, PartialEq, Eq, Structural)]
pub struct AtomicState {
    pub transaction_id: u64,
    pub step_id: u32,
    pub locked_listing_id: Option<u64>,
    pub escrowed_amount: Option<i128>,
    pub original_listing_state: Option<Listing>,
}

/// The abstract contents of an approval.
pub struct ApprovalView {
    pub approval_id: u64,
    pub listing_id: Option<u64>,
    pub auction_id: Option<u64>,
    pub buyer: AccountId,
    pub price: i128,
    pub proposed_at: u64,
    pub expires_at: u64,
    pub status: ApprovalStatus,
    pub required_approvals: u32,
    pub approvers: Seq<AccountId>,
    pub approvals_received: Seq<AccountId>,
    pub rejections_received: Seq<AccountId>,
    pub rejection_reasons: Seq<String>,
}

impl View for Approval {
    type V = ApprovalView;

    open spec fn view(&self) -> ApprovalView {
        ApprovalView {
            approval_id: self.approval_id,
            listing_id: self.listing_id,
            auction_id: self.auction_id,
            buyer: self.buyer,
            price: self.price,
            proposed_at: self.proposed_at,
            expires_at: self.expires_at,
            status: self.status,
            required_approvals: self.required_approvals,
            approvers: self.approvers@,
            approvals_received: self.approvals_received@,
            rejections_received: self.rejections_received@,
            rejection_reasons: self.rejection_reasons@,
        }
    }
}

/// Storage of the marketplace contract.
pub struct Marketplace {
    pub admin: Option<AccountId>,
    pub payment_token: Option<AccountId>,
    pub royalty_bps: Option<u32>,
    pub listing_counter: u64,
    pub listings: HashMapWithView<u64, Listing>,
    pub royalties: HashMapWithView<u64, RoyaltyInfo>,
    pub auction_counter: u64,
    pub auctions: HashMapWithView<u64, Auction>,
    pub approval_config: Option<ApprovalConfig>,
    pub approval_counter: u64,
    pub approvals: HashMapWithView<u64, Approval>,
    pub approval_history: HashMapWithView<u64, Vec<ApprovalHistory>>,
    pub lease_config: Option<LeaseConfig>,
    pub lease_counter: u64,
    pub lease_extension_counter: u64,
    pub leases: HashMapWithView<u64, LeaseData>,
    pub extension_requests: HashMapWithView<u64, LeaseExtensionRequest>,
    pub lease_history: HashMapWithView<u64, Vec<LeaseHistoryEntry>>,
    pub lessee_leases: HashMapWithView<u64, Vec<u64>>,
    pub lessor_leases: HashMapWithView<u64, Vec<u64>>,
    /// Listing id to the atomic transaction that holds it.
    pub locked_listings: HashMapWithView<u64, u64>,
    /// Prepared atomic steps, by (transaction id, step id).
    pub atomic_states: PairMap<AtomicState>,
    /// Escrowed amounts, by (buyer, transaction id).
    pub escrow_balances: PairMap<i128>,
}

/// The abstract contents of the marketplace's storage.
pub struct MarketView {
    pub admin: Option<AccountId>,
    pub payment_token: Option<AccountId>,
    pub royalty_bps: Option<u32>,
    pub listing_counter: u64,
    pub listings: Map<u64, Listing>,
    pub royalties: Map<u64, RoyaltyInfo>,
    pub auction_counter: u64,
    pub auctions: Map<u64, Auction>,
    pub approval_config: Option<ApprovalConfig>,
    pub approval_counter: u64,
    pub approvals: Map<u64, ApprovalView>,
    pub approval_history: Map<u64, Seq<ApprovalHistory>>,
    pub lease_config: Option<LeaseConfig>,
    pub lease_counter: u64,
    pub lease_extension_counter: u64,
    pub leases: Map<u64, LeaseData>,
    pub extension_requests: Map<u64, LeaseExtensionRequest>,
    pub lease_history: Map<u64, Seq<LeaseHistoryEntry>>,
    pub lessee_leases: Map<u64, Seq<u64>>,
    pub lessor_leases: Map<u64, Seq<u64>>,
    pub locked_listings: Map<u64, u64>,
    pub atomic_states: Map<(u128, u128), AtomicState>,
    pub escrow_balances: Map<(u128, u128), i128>,
}

impl View for Marketplace {
    type V = MarketView;

    open spec fn view(&self) -> MarketView {
        MarketView {
            admin: self.admin,
            payment_token: self.payment_token,
            royalty_bps: self.royalty_bps,
            listing_counter: self.listing_counter,
            listings: self.listings@,
            royalties: self.royalties@,
            auction_counter: self.auction_counter,
            auctions: self.auctions@,
            approval_config: self.approval_config,
            approval_counter: self.approval_counter,
            approvals: self.approvals@.map_values(|a: Approval| a@),
            approval_history: self.approval_history@.map_values(|h: Vec<ApprovalHistory>| h@),
            lease_config: self.lease_config,
            lease_counter: self.lease_counter,
            lease_extension_counter: self.lease_extension_counter,
            leases: self.leases@,
            extension_requests: self.extension_requests@,
            lease_history: self.lease_history@.map_values(|h: Vec<LeaseHistoryEntry>| h@),
            lessee_leases: self.lessee_leases@.map_values(|v: Vec<u64>| v@),
            lessor_leases: self.lessor_leases@.map_values(|v: Vec<u64>| v@),
            locked_listings: self.locked_listings@,
            atomic_states: self.atomic_states.as_map(),
            escrow_balances: self.escrow_balances.as_map(),
        }
    }
}

/// The approval settings in force: the stored ones, or the defaults.
pub open spec fn config_or_default(c: Option<ApprovalConfig>) -> ApprovalConfig {
    match c {
        Some(c) => c,
        None => ApprovalConfig {
            threshold: DEFAULT_APPROVAL_THRESHOLD,
            approvers_required: DEFAULT_APPROVERS_REQUIRED,
            total_approvers: DEFAULT_TOTAL_APPROVERS,
            ttl_seconds: DEFAULT_APPROVAL_TTL_SECONDS,
        },
    }
}

/// The lease settings in force: the stored ones, or the defaults.
pub open spec fn lease_config_or_default(c: Option<LeaseConfig>) -> LeaseConfig {
    match c {
        Some(c) => c,
        None => LeaseConfig {
            deposit_bps: DEFAULT_LEASE_DEPOSIT_BPS,
            early_termination_penalty_bps: DEFAULT_EARLY_TERMINATION_PENALTY_BPS,
        },
    }
}

/// Integer division rounded toward zero, as machine division does it.
pub open spec fn trunc_div(a: int, d: int) -> int {
    if a >= 0 {
        a / d
    } else {
        -((-a) / d)
    }
}

/// `a * b / d` on `i128` with the quotient rounded toward zero, or `None` when
/// the product leaves `i128` or `d` is 0.
pub open spec fn mul_div(a: i128, b: i128, d: i128) -> Option<i128> {
    if a * b < i128::MIN || a * b > i128::MAX || d <= 0 {
        None
    } else {
        Some(trunc_div(a * b, d as int) as i128)
    }
}

/// Computes `mul_div` for a positive divisor.
pub fn checked_mul_div(a: i128, b: i128, d: i128) -> (r: Option<i128>)
    requires
        d > 0,
    ensures
        r == mul_div(a, b, d),
{
    match a.checked_mul(b) {
        None => None,
        Some(p) => {
            if p >= 0 {
                let q = p / d;
                assert(0 <= q <= p) by (nonlinear_arith)
                    requires
                        q == p / d,
                        p >= 0,
                        d > 0,
                ;
                Some(q)
            } else {
                let q = p / d;
                assert(q == -((-(p as int)) / (d as int)));
                assert(p <= q <= 0) by (nonlinear_arith)
                    requires
                        q == -((-(p as int)) / (d as int)),
                        p < 0,
                        d > 0,
                ;
                Some(q)
            }
        },
    }
}

/// The royalty on `price` at `bps` basis points, rounded toward zero.
pub fn calculate_royalty(price: i128, bps: u32) -> (r: i128)
    requires
        i128::MIN <= price * bps <= i128::MAX,
    ensures
        r == trunc_div(price * bps, 10000),
{
    match checked_mul_div(price, bps as i128, 10000) {
        Some(r) => r,
        None => {
            assert(false);
            0
        },
    }
}

/// A royalty never exceeds the price: on a non-negative price and at most 100 %
/// it lies between 0 and the price.
pub proof fn royalty_within_price(price: i128, bps: u32)
    requires
        0 <= price,
        bps <= MAX_ROYALTY_FEE,
    ensures
        0 <= trunc_div(price * bps, 10000) <= price,
{
    assert(0 <= (price * bps) / 10000 <= price) by (nonlinear_arith)
        requires
            0 <= price,
            bps <= 10000,
    ;
}

impl Marketplace {
    /// A marketplace with nothing stored.
    pub fn new() -> (s: Marketplace)
        ensures
            s@ == (MarketView {
                admin: None,
                payment_token: None,
                royalty_bps: None,
                listing_counter: 0,
                listings: Map::empty(),
                royalties: Map::empty(),
                auction_counter: 0,
                auctions: Map::empty(),
                approval_config: None,
                approval_counter: 0,
                approvals: Map::empty(),
                approval_history: Map::empty(),
                lease_config: None,
                lease_counter: 0,
                lease_extension_counter: 0,
                leases: Map::empty(),
                extension_requests: Map::empty(),
                lease_history: Map::empty(),
                lessee_leases: Map::empty(),
                lessor_leases: Map::empty(),
                locked_listings: Map::empty(),
                atomic_states: Map::empty(),
                escrow_balances: Map::empty(),
            }),
    {
        let s = Marketplace {
            admin: None,
            payment_token: None,
            royalty_bps: None,
            listing_counter: 0,
            listings: HashMapWithView::new(),
            royalties: HashMapWithView::new(),
            auction_counter: 0,
            auctions: HashMapWithView::new(),
            approval_config: None,
            approval_counter: 0,
            approvals: HashMapWithView::new(),
            approval_history: HashMapWithView::new(),
            lease_config: None,
            lease_counter: 0,
            lease_extension_counter: 0,
            leases: HashMapWithView::new(),
            extension_requests: HashMapWithView::new(),
            lease_history: HashMapWithView::new(),
            lessee_leases: HashMapWithView::new(),
            lessor_leases: HashMapWithView::new(),
            locked_listings: HashMapWithView::new(),
            atomic_states: PairMap::new(),
            escrow_balances: PairMap::new(),
        };
        assert(s@.approvals =~= Map::<u64, ApprovalView>::empty());
        assert(s@.approval_history =~= Map::<u64, Seq<ApprovalHistory>>::empty());
        assert(s@.lease_history =~= Map::<u64, Seq<LeaseHistoryEntry>>::empty());
        assert(s@.lessee_leases =~= Map::<u64, Seq<u64>>::empty());
        assert(s@.lessor_leases =~= Map::<u64, Seq<u64>>::empty());
        s
    }
}

impl MarketView {
    /// The approval settings in force.
    pub open spec fn config(self) -> ApprovalConfig {
        config_or_default(self.approval_config)
    }

    /// The lease settings in force.
    pub open spec fn lease_cfg(self) -> LeaseConfig {
        lease_config_or_default(self.lease_config)
    }

    /// The audit trail of approval `id` (empty when it has none).
    pub open spec fn history_of(self, id: u64) -> Seq<ApprovalHistory> {
        if self.approval_history.contains_key(id) {
            self.approval_history[id]
        } else {
            Seq::empty()
        }
    }

    /// The history of lease `id` (empty when it has none).
    pub open spec fn lease_history_of(self, id: u64) -> Seq<LeaseHistoryEntry> {
        if self.lease_history.contains_key(id) {
            self.lease_history[id]
        } else {
            Seq::empty()
        }
    }

    /// The leases recorded for `a` as lessee.
    pub open spec fn lessee_ids(self, a: AccountId) -> Seq<u64> {
        if self.lessee_leases.contains_key(a.id) {
            self.lessee_leases[a.id]
        } else {
            Seq::empty()
        }
    }

    /// The leases recorded for `a` as lessor.
    pub open spec fn lessor_ids(self, a: AccountId) -> Seq<u64> {
        if self.lessor_leases.contains_key(a.id) {
            self.lessor_leases[a.id]
        } else {
            Seq::empty()
        }
    }

    /// This view with `entry` appended to the audit trail of approval `id`.
    pub open spec fn with_history(self, id: u64, entry: ApprovalHistory) -> MarketView {
        MarketView {
            approval_history: self.approval_history.insert(id, self.history_of(id).push(entry)),
            ..self
        }
    }

    /// This view with `entry` appended to the history of lease `id`.
    pub open spec fn with_lease_history(self, id: u64, entry: LeaseHistoryEntry) -> MarketView {
        MarketView {
            lease_history: self.lease_history.insert(id, self.lease_history_of(id).push(entry)),
            ..self
        }
    }
}

/* ---------------- ADMIN ---------------- */

/// Stores `admin` as the admin.
pub fn set_admin(m: &mut Marketplace, admin: AccountId)
    ensures
        final(m)@ == (MarketView { admin: Some(admin), ..old(m)@ }),
{
    m.admin = Some(admin);
}

/// Requires the stored admin's authorization.
pub fn require_admin(m: &Marketplace, env: &Context) -> (r: Result<(), MarketError>)
    ensures
        m.admin is None ==> r == Err::<(), MarketError>(MarketError::NotInitialized),
        m.admin matches Some(a) ==> (env.authorizes(a) ==> r is Ok) && (!env.authorizes(a) ==> r
            == Err::<(), MarketError>(MarketError::NotAuthorized)),
{
    match m.admin {
        None => Err(MarketError::NotInitialized),
        Some(a) => if env.require_auth(a) { Ok(()) } else { Err(MarketError::NotAuthorized) },
    }
}

/* ---------------- PAYMENT TOKEN ---------------- */

/// Stores the payment token.
pub fn set_payment_token(m: &mut Marketplace, token: AccountId)
    ensures
        final(m)@ == (MarketView { payment_token: Some(token), ..old(m)@ }),
{
    m.payment_token = Some(token);
}

/// The payment token, `PaymentTokenNotSet` before one is stored.
pub fn get_payment_token(m: &Marketplace) -> (r: Result<AccountId, MarketError>)
    ensures
        m.payment_token matches Some(t) ==> r == Ok::<AccountId, MarketError>(t),
        m.payment_token is None ==> r == Err::<AccountId, MarketError>(
            MarketError::PaymentTokenNotSet,
        ),
{
    match m.payment_token {
        Some(t) => Ok(t),
        None => Err(MarketError::PaymentTokenNotSet),
    }
}

/* ---------------- ROYALTY ---------------- */

/// Stores the marketplace-wide royalty rate.
pub fn set_royalty_bps(m: &mut Marketplace, bps: u32)
    ensures
        final(m)@ == (MarketView { royalty_bps: Some(bps), ..old(m)@ }),
{
    m.royalty_bps = Some(bps);
}

/// The marketplace-wide royalty rate, `RoyaltyBpsNotSet` before one is stored.
pub fn get_royalty_bps(m: &Marketplace) -> (r: Result<u32, MarketError>)
    ensures
        m.royalty_bps matches Some(b) ==> r == Ok::<u32, MarketError>(b),
        m.royalty_bps is None ==> r == Err::<u32, MarketError>(MarketError::RoyaltyBpsNotSet),
{
    match m.royalty_bps {
        Some(b) => Ok(b),
        None => Err(MarketError::RoyaltyBpsNotSet),
    }
}

/* ---------------- AUCTION ---------------- */

/// Stores the auction counter.
pub fn set_auction_counter(m: &mut Marketplace, counter: u64)
    ensures
        final(m)@ == (MarketView { auction_counter: counter, ..old(m)@ }),
{
    m.auction_counter = counter;
}

/// The auction counter.
pub fn get_auction_counter(m: &Marketplace) -> (c: u64)
    ensures
        c == m@.auction_counter,
{
    m.auction_counter
}

/// Moves the auction counter one up and returns it.
pub fn increment_auction_counter(m: &mut Marketplace) -> (r: Result<u64, MarketError>)
    ensures
        old(m)@.auction_counter == u64::MAX ==> r == Err::<u64, MarketError>(MarketError::Overflow)
            && final(m)@ == old(m)@,
        old(m)@.auction_counter < u64::MAX ==> r == Ok::<u64, MarketError>(
            (old(m)@.auction_counter + 1) as u64,
        ) && final(m)@ == (MarketView {
            auction_counter: (old(m)@.auction_counter + 1) as u64,
            ..old(m)@
        }),
{
    if m.auction_counter == u64::MAX {
        return Err(MarketError::Overflow);
    }
    let c = m.auction_counter + 1;
    m.auction_counter = c;
    Ok(c)
}

/// Stores `auction` under its id.
pub fn set_auction(m: &mut Marketplace, auction: Auction)
    ensures
        final(m)@ == (MarketView {
            auctions: old(m)@.auctions.insert(auction.auction_id, auction),
            ..old(m)@
        }),
{
    m.auctions.insert(auction.auction_id, auction);
}

/// The auction `auction_id`, if stored.
pub fn get_auction(m: &Marketplace, auction_id: u64) -> (r: Option<Auction>)
    ensures
        r == if m@.auctions.contains_key(auction_id) {
            Some(m@.auctions[auction_id])
        } else {
            None::<Auction>
        },
{
    match m.auctions.get(&auction_id) {
        Some(a) => Some(*a),
        None => None,
    }
}

/* ---------------- APPROVAL ---------------- */

/// Stores the approval settings.
pub fn set_approval_config(m: &mut Marketplace, config: ApprovalConfig)
    ensures
        final(m)@ == (MarketView { approval_config: Some(config), ..old(m)@ }),
{
    m.approval_config = Some(config);
}

/// The approval settings in force (the defaults until some are stored).
pub fn get_approval_config(m: &Marketplace) -> (c: ApprovalConfig)
    ensures
        c == m@.config(),
{
    match m.approval_config {
        Some(c) => c,
        None => ApprovalConfig {
            threshold: DEFAULT_APPROVAL_THRESHOLD,
            approvers_required: DEFAULT_APPROVERS_REQUIRED,
            total_approvers: DEFAULT_TOTAL_APPROVERS,
            ttl_seconds: DEFAULT_APPROVAL_TTL_SECONDS,
        },
    }
}

/// The approval counter.
pub fn get_approval_counter(m: &Marketplace) -> (c: u64)
    ensures
        c == m@.approval_counter,
{
    m.approval_counter
}

/// Stores the approval counter.
pub fn set_approval_counter(m: &mut Marketplace, counter: u64)
    ensures
        final(m)@ == (MarketView { approval_counter: counter, ..old(m)@ }),
{
    m.approval_counter = counter;
}

/// Moves the approval counter one up and returns it.
pub fn increment_approval_counter(m: &mut Marketplace) -> (r: Result<u64, MarketError>)
    ensures
        old(m)@.approval_counter == u64::MAX ==> r == Err::<u64, MarketError>(
            MarketError::Overflow,
        ) && final(m)@ == old(m)@,
        old(m)@.approval_counter < u64::MAX ==> r == Ok::<u64, MarketError>(
            (old(m)@.approval_counter + 1) as u64,
        ) && final(m)@ == (MarketView {
            approval_counter: (old(m)@.approval_counter + 1) as u64,
            ..old(m)@
        }),
{
    if m.approval_counter == u64::MAX {
        return Err(MarketError::Overflow);
    }
    let c = m.approval_counter + 1;
    m.approval_counter = c;
    Ok(c)
}

/// Stores `approval` under its id.
pub fn set_approval(m: &mut Marketplace, approval: Approval)
    ensures
        final(m)@ == (MarketView {
            approvals: old(m)@.approvals.insert(approval.approval_id, approval@),
            ..old(m)@
        }),
{
    m.approvals.insert(approval.approval_id, approval);
    assert(m@.approvals =~= old(m)@.approvals.insert(approval.approval_id, approval@));
}

/// The approval `approval_id`, if stored.
pub fn get_approval(m: &Marketplace, approval_id: u64) -> (r: Option<&Approval>)
    ensures
        match r {
            Some(a) => m@.approvals.contains_key(approval_id) && a@ == m@.approvals[approval_id],
            None => !m@.approvals.contains_key(approval_id),
        },
{
    m.approvals.get(&approval_id)
}

/// Appends `entry` to the audit trail of approval `approval_id`.
pub fn add_approval_history(m: &mut Marketplace, approval_id: u64, entry: ApprovalHistory)
    ensures
        final(m)@ == old(m)@.with_history(approval_id, entry),
{
    let mut h = match m.approval_history.remove(&approval_id) {
        Some(h) => h,
        None => Vec::new(),
    };
    h.push(entry);
    m.approval_history.insert(approval_id, h);
    assert(m@.approval_history =~= old(m)@.with_history(approval_id, entry).approval_history);
}

/// Number of audit-trail entries of approval `approval_id`.
pub fn get_approval_history_count(m: &Marketplace, approval_id: u64) -> (n: u64)
    ensures
        n == m@.history_of(approval_id).len(),
{
    match m.approval_history.get(&approval_id) {
        None => 0,
        Some(h) => h.len() as u64,
    }
}

/// Entry `index` of the audit trail of approval `approval_id`, if there is one.
pub fn get_approval_history(m: &Marketplace, approval_id: u64, index: u64) -> (r: Option<
    &ApprovalHistory,
>)
    ensures
        index < m@.history_of(approval_id).len() ==> r == Some(
            &m@.history_of(approval_id)[index as int],
        ),
        index >= m@.history_of(approval_id).len() ==> r is None,
{
    match m.approval_history.get(&approval_id) {
        None => None,
        Some(h) => {
            if index < h.len() as u64 {
                Some(&h[index as usize])
            } else {
                None
            }
        },
    }
}

/// Removes approval `approval_id` and its audit trail.
pub fn delete_approval(m: &mut Marketplace, approval_id: u64)
    ensures
        final(m)@ == (MarketView {
            approvals: old(m)@.approvals.remove(approval_id),
            approval_history: old(m)@.approval_history.remove(approval_id),
            ..old(m)@
        }),
{
    let _ = m.approvals.remove(&approval_id);
    let _ = m.approval_history.remove(&approval_id);
    assert(m@.approvals =~= old(m)@.approvals.remove(approval_id));
    assert(m@.approval_history =~= old(m)@.approval_history.remove(approval_id));
}

/* ---------------- LEASE LIFECYCLE ---------------- */

/// The lease settings in force (the defaults until some are stored).
pub fn get_lease_config(m: &Marketplace) -> (c: LeaseConfig)
    ensures
        c == m@.lease_cfg(),
{
    match m.lease_config {
        Some(c) => c,
        None => LeaseConfig {
            deposit_bps: DEFAULT_LEASE_DEPOSIT_BPS,
            early_termination_penalty_bps: DEFAULT_EARLY_TERMINATION_PENALTY_BPS,
        },
    }
}

/// Stores the lease settings.
pub fn set_lease_config(m: &mut Marketplace, config: LeaseConfig)
    ensures
        final(m)@ == (MarketView { lease_config: Some(config), ..old(m)@ }),
{
    m.lease_config = Some(config);
}

/// The lease counter.
pub fn get_lease_counter(m: &Marketplace) -> (c: u64)
    ensures
        c == m@.lease_counter,
{
    m.lease_counter
}

/// Moves the lease counter one up and returns it.
pub fn increment_lease_counter(m: &mut Marketplace) -> (r: Result<u64, MarketError>)
    ensures
        old(m)@.lease_counter == u64::MAX ==> r == Err::<u64, MarketError>(MarketError::Overflow)
            && final(m)@ == old(m)@,
        old(m)@.lease_counter < u64::MAX ==> r == Ok::<u64, MarketError>(
            (old(m)@.lease_counter + 1) as u64,
        ) && final(m)@ == (MarketView {
            lease_counter: (old(m)@.lease_counter + 1) as u64,
            ..old(m)@
        }),
{
    if m.lease_counter == u64::MAX {
        return Err(MarketError::Overflow);
    }
    let c = m.lease_counter + 1;
    m.lease_counter = c;
    Ok(c)
}

/// The lease extension counter.
pub fn get_lease_extension_counter(m: &Marketplace) -> (c: u64)
    ensures
        c == m@.lease_extension_counter,
{
    m.lease_extension_counter
}

/// Moves the lease extension counter one up and returns it.
pub fn increment_lease_extension_counter(m: &mut Marketplace) -> (r: Result<u64, MarketError>)
    ensures
        old(m)@.lease_extension_counter == u64::MAX ==> r == Err::<u64, MarketError>(
            MarketError::Overflow,
        ) && final(m)@ == old(m)@,
        old(m)@.lease_extension_counter < u64::MAX ==> r == Ok::<u64, MarketError>(
            (old(m)@.lease_extension_counter + 1) as u64,
        ) && final(m)@ == (MarketView {
            lease_extension_counter: (old(m)@.lease_extension_counter + 1) as u64,
            ..old(m)@
        }),
{
    if m.lease_extension_counter == u64::MAX {
        return Err(MarketError::Overflow);
    }
    let c = m.lease_extension_counter + 1;
    m.lease_extension_counter = c;
    Ok(c)
}

/// Stores `lease` under its id.
pub fn set_lease(m: &mut Marketplace, lease: LeaseData)
    ensures
        final(m)@ == (MarketView { leases: old(m)@.leases.insert(lease.lease_id, lease), ..old(m)@ }),
{
    m.leases.insert(lease.lease_id, lease);
}

/// The lease `lease_id`, if stored.
pub fn get_lease(m: &Marketplace, lease_id: u64) -> (r: Option<LeaseData>)
    ensures
        r == if m@.leases.contains_key(lease_id) {
            Some(m@.leases[lease_id])
        } else {
            None::<LeaseData>
        },
{
    match m.leases.get(&lease_id) {
        Some(l) => Some(*l),
        None => None,
    }
}

/// Stores `req` under its id.
pub fn set_lease_extension_request(m: &mut Marketplace, req: LeaseExtensionRequest)
    ensures
        final(m)@ == (MarketView {
            extension_requests: old(m)@.extension_requests.insert(req.extension_id, req),
            ..old(m)@
        }),
{
    m.extension_requests.insert(req.extension_id, req);
}

/// The extension request `extension_id`, if stored.
pub fn get_lease_extension_request(m: &Marketplace, extension_id: u64) -> (r: Option<
    LeaseExtensionRequest,
>)
    ensures
        r == if m@.extension_requests.contains_key(extension_id) {
            Some(m@.extension_requests[extension_id])
        } else {
            None::<LeaseExtensionRequest>
        },
{
    match m.extension_requests.get(&extension_id) {
        Some(r) => Some(*r),
        None => None,
    }
}

/// Appends `entry` to the history of lease `lease_id`.
pub fn add_lease_history(m: &mut Marketplace, lease_id: u64, entry: LeaseHistoryEntry)
    ensures
        final(m)@ == old(m)@.with_lease_history(lease_id, entry),
{
    let mut h = match m.lease_history.remove(&lease_id) {
        Some(h) => h,
        None => Vec::new(),
    };
    h.push(entry);
    m.lease_history.insert(lease_id, h);
    assert(m@.lease_history =~= old(m)@.with_lease_history(lease_id, entry).lease_history);
}

/// Number of history entries of lease `lease_id`.
pub fn get_lease_history_count(m: &Marketplace, lease_id: u64) -> (n: u64)
    ensures
        n == m@.lease_history_of(lease_id).len(),
{
    match m.lease_history.get(&lease_id) {
        None => 0,
        Some(h) => h.len() as u64,
    }
}

/// History entry `index` of lease `lease_id`, if there is one.
pub fn get_lease_history_entry(m: &Marketplace, lease_id: u64, index: u64) -> (r: Option<
    LeaseHistoryEntry,
>)
    ensures
        index < m@.lease_history_of(lease_id).len() ==> r == Some(
            m@.lease_history_of(lease_id)[index as int],
        ),
        index >= m@.lease_history_of(lease_id).len() ==> r is None,
{
    match m.lease_history.get(&lease_id) {
        None => None,
        Some(h) => {
            if index < h.len() as u64 {
                Some(h[index as usize])
            } else {
                None
            }
        },
    }
}

/// Records `lease_id` among the leases of `lessee` as lessee.
pub fn lessee_leases_append(m: &mut Marketplace, lessee: AccountId, lease_id: u64)
    ensures
        final(m)@ == (MarketView {
            lessee_leases: old(m)@.lessee_leases.insert(
                lessee.id,
                old(m)@.lessee_ids(lessee).push(lease_id),
            ),
            ..old(m)@
        }),
{
    let mut v = match m.lessee_leases.remove(&lessee.id) {
        Some(v) => v,
        None => Vec::new(),
    };
    v.push(lease_id);
    m.lessee_leases.insert(lessee.id, v);
    assert(m@.lessee_leases =~= old(m)@.lessee_leases.insert(
        lessee.id,
        old(m)@.lessee_ids(lessee).push(lease_id),
    ));
}

/// Records `lease_id` among the leases of `lessor` as lessor.
pub fn lessor_leases_append(m: &mut Marketplace, lessor: AccountId, lease_id: u64)
    ensures
        final(m)@ == (MarketView {
            lessor_leases: old(m)@.lessor_leases.insert(
                lessor.id,
                old(m)@.lessor_ids(lessor).push(lease_id),
            ),
            ..old(m)@
        }),
{
    let mut v = match m.lessor_leases.remove(&lessor.id) {
        Some(v) => v,
        None => Vec::new(),
    };
    v.push(lease_id);
    m.lessor_leases.insert(lessor.id, v);
    assert(m@.lessor_leases =~= old(m)@.lessor_leases.insert(
        lessor.id,
        old(m)@.lessor_ids(lessor).push(lease_id),
    ));
}

/// Copies the ids of `v`.
fn copy_ids(v: &Vec<u64>) -> (c: Vec<u64>)
    ensures
        c@ == v@,
{
    let mut c: Vec<u64> = Vec::new();
    let n = v.len();
    let mut i: usize = 0;
    while i < n
        invariant
            n == v@.len(),
            i <= n,
            c@ == v@.subrange(0, i as int),
        decreases n - i,
    {
        c.push(v[i]);
        i = i + 1;
    }
    assert(c@ =~= v@);
    c
}

/// The leases recorded for `lessee` as lessee, in the order they were added.
pub fn get_lessee_lease_ids(m: &Marketplace, lessee: AccountId) -> (v: Vec<u64>)
    ensures
        v@ == m@.lessee_ids(lessee),
{
    match m.lessee_leases.get(&lessee.id) {
        None => Vec::new(),
        Some(v) => copy_ids(v),
    }
}

/// The leases recorded for `lessor` as lessor, in the order they were added.
pub fn get_lessor_lease_ids(m: &Marketplace, lessor: AccountId) -> (v: Vec<u64>)
    ensures
        v@ == m@.lessor_ids(lessor),
{
    match m.lessor_leases.get(&lessor.id) {
        None => Vec::new(),
        Some(v) => copy_ids(v),
    }
}

} // verus!
