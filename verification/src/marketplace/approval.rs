use vstd::prelude::*;
use crate::context::{contains_account, AccountId, Context};
use crate::types::{
    Approval, ApprovalAction, ApprovalConfig, ApprovalHistory, ApprovalStatus, AuctionStatus,
    Listing, Transfer,
};
use super::storage::{
    add_approval_history, get_approval_config, get_auction, increment_approval_counter,
    set_approval, set_approval_config, ApprovalView, MarketError, MarketView, Marketplace,
};
use super::auction::{sale_split, split_sale};

verus! {

broadcast use vstd::std_specs::hash::group_hash_axioms;

/// The audit-trail entry recording `action` on approval `id`.
pub open spec fn trail(id: u64, action: ApprovalAction, actor: AccountId, at: u64) -> ApprovalHistory {
    ApprovalHistory { approval_id: id, action, actor, timestamp: at, reason: None }
}

/// Builds the entry `trail` describes.
pub fn trail_entry(id: u64, action: ApprovalAction, actor: AccountId, at: u64) -> (h: ApprovalHistory)
    ensures
        h == trail(id, action, actor, at),
{
    ApprovalHistory { approval_id: id, action, actor, timestamp: at, reason: None }
}

/// A fresh pending proposal.
pub open spec fn proposal(
    id: u64,
    listing_id: Option<u64>,
    auction_id: Option<u64>,
    buyer: AccountId,
    price: i128,
    now: u64,
    config: ApprovalConfig,
    approvers: Seq<AccountId>,
) -> ApprovalView {
    ApprovalView {
        approval_id: id,
        listing_id,
        auction_id,
        buyer,
        price,
        proposed_at: now,
        expires_at: (now + config.ttl_seconds) as u64,
        status: ApprovalStatus::Pending,
        required_approvals: config.approvers_required,
        approvers,
        approvals_received: Seq::empty(),
        rejections_received: Seq::empty(),
        rejection_reasons: Seq::empty(),
    }
}

/// `a` is pending and its lifetime is over at `now`.
pub open spec fn lapsed(a: ApprovalView, now: u64) -> bool {
    a.status == ApprovalStatus::Pending && now >= a.expires_at
}

impl MarketView {
    /// The first reason to refuse new approval settings, if any.
    pub open spec fn set_approval_config_check(
        self,
        admin: AccountId,
        threshold: i128,
        approvers_required: u32,
        total_approvers: u32,
        ttl_seconds: u64,
    ) -> Result<(), MarketError> {
        if self.admin is None {
            Err(MarketError::NotInitialized)
        } else if self.admin != Some(admin) {
            Err(MarketError::Unauthorized)
        } else if threshold <= 0 {
            Err(MarketError::InvalidThreshold)
        } else if approvers_required == 0 {
            Err(MarketError::InvalidApproversRequired)
        } else if total_approvers < approvers_required {
            Err(MarketError::InvalidTotalApprovers)
        } else if ttl_seconds == 0 {
            Err(MarketError::InvalidTtl)
        } else {
            Ok(())
        }
    }

    /// Whether `approvers` has an allowed size under the settings in force.
    pub open spec fn approvers_check(self, approvers: Seq<AccountId>) -> Result<(), MarketError> {
        if approvers.len() < self.config().approvers_required {
            Err(MarketError::InsufficientApprovers)
        } else if approvers.len() > self.config().total_approvers {
            Err(MarketError::TooManyApprovers)
        } else {
            Ok(())
        }
    }

    /// Whether a new proposal can be numbered and dated at `now`.
    pub open spec fn numbering_check(self, now: u64) -> Result<(), MarketError> {
        if self.approval_counter == u64::MAX {
            Err(MarketError::Overflow)
        } else if now + self.config().ttl_seconds > u64::MAX {
            Err(MarketError::Overflow)
        } else {
            Ok(())
        }
    }

    /// The first reason to refuse proposing a listing's sale, if any.
    pub open spec fn propose_sale_check(
        self,
        env: &Context,
        listing_id: u64,
        buyer: AccountId,
        approvers: Seq<AccountId>,
    ) -> Result<(), MarketError> {
        if !env.authorizes(buyer) {
            Err(MarketError::NotAuthorized)
        } else if listing_id == 0 {
            Err(MarketError::InvalidListingId)
        } else if !self.listings.contains_key(listing_id) {
            Err(MarketError::ListingNotFound)
        } else if !self.listings[listing_id].active {
            Err(MarketError::ListingNotActive)
        } else if self.listings[listing_id].price < self.config().threshold {
            Err(MarketError::BelowThreshold)
        } else if self.approvers_check(approvers) is Err {
            self.approvers_check(approvers)
        } else {
            self.numbering_check(env.timestamp)
        }
    }

    /// This view with proposal `p` recorded as number `p.approval_id`, proposed by `buyer`.
    pub open spec fn with_proposal(self, p: ApprovalView, now: u64) -> MarketView {
        MarketView {
            approval_counter: p.approval_id,
            approvals: self.approvals.insert(p.approval_id, p),
            ..self
        }.with_history(p.approval_id, trail(p.approval_id, ApprovalAction::Proposed, p.buyer, now))
    }

    /// The first reason to refuse proposing an auction's sale, if any.
    pub open spec fn propose_auction_sale_check(
        self,
        env: &Context,
        auction_id: u64,
        approvers: Seq<AccountId>,
    ) -> Result<(), MarketError> {
        if !self.auctions.contains_key(auction_id) {
            Err(MarketError::AuctionNotFound)
        } else if self.auctions[auction_id].status != AuctionStatus::Active {
            Err(MarketError::AuctionNotActive)
        } else if self.auctions[auction_id].highest_bidder is None {
            Err(MarketError::NoWinningBid)
        } else if self.auctions[auction_id].highest_bid < self.config().threshold {
            Err(MarketError::BelowThreshold)
        } else if self.approvers_check(approvers) is Err {
            self.approvers_check(approvers)
        } else {
            self.numbering_check(env.timestamp)
        }
    }

    /// The first reason to refuse a vote by `approver` on approval `approval_id`, if any.
    pub open spec fn vote_check(self, env: &Context, approval_id: u64, approver: AccountId) -> Result<
        (),
        MarketError,
    > {
        if !env.authorizes(approver) {
            Err(MarketError::NotAuthorized)
        } else if approval_id == 0 {
            Err(MarketError::InvalidApprovalId)
        } else if !self.approvals.contains_key(approval_id) {
            Err(MarketError::ApprovalNotFound)
        } else if self.approvals[approval_id].status != ApprovalStatus::Pending {
            Err(MarketError::ApprovalNotPending)
        } else if env.timestamp >= self.approvals[approval_id].expires_at {
            Err(MarketError::ApprovalExpired)
        } else if !self.approvals[approval_id].approvers.contains(approver) {
            Err(MarketError::UnauthorizedApprover)
        } else if self.approvals[approval_id].approvals_received.contains(approver) {
            Err(MarketError::AlreadyApproved)
        } else if self.approvals[approval_id].rejections_received.contains(approver) {
            Err(MarketError::AlreadyRejected)
        } else {
            Ok(())
        }
    }

    /// This view after `approver`'s approval of `approval_id` at `now`.
    pub open spec fn after_approve(self, approval_id: u64, approver: AccountId, now: u64) -> MarketView {
        let a = self.approvals[approval_id];
        let received = a.approvals_received.push(approver);
        let full = received.len() >= a.required_approvals;
        let a2 = ApprovalView {
            approvals_received: received,
            status: if full {
                ApprovalStatus::Approved
            } else {
                a.status
            },
            ..a
        };
        let v = MarketView { approvals: self.approvals.insert(approval_id, a2), ..self }.with_history(
            approval_id,
            trail(approval_id, ApprovalAction::Approved, approver, now),
        );
        if full {
            v.with_history(approval_id, trail(approval_id, ApprovalAction::FullyApproved, approver, now))
        } else {
            v
        }
    }

    /// This view after `approver`'s rejection of `approval_id` at `now` for `reason`.
    pub open spec fn after_reject(
        self,
        approval_id: u64,
        approver: AccountId,
        reason: String,
        now: u64,
    ) -> MarketView {
        let a = self.approvals[approval_id];
        let a2 = ApprovalView {
            rejections_received: a.rejections_received.push(approver),
            rejection_reasons: a.rejection_reasons.push(reason),
            status: ApprovalStatus::Rejected,
            ..a
        };
        MarketView { approvals: self.approvals.insert(approval_id, a2), ..self }.with_history(
            approval_id,
            ApprovalHistory {
                approval_id,
                action: ApprovalAction::Rejected,
                actor: approver,
                timestamp: now,
                reason: Some(reason),
            },
        )
    }

    /// This view with approval `approval_id` executed by contract `actor` at `now`.
    pub open spec fn with_executed(self, approval_id: u64, actor: AccountId, now: u64) -> MarketView {
        MarketView {
            approvals: self.approvals.insert(
                approval_id,
                ApprovalView { status: ApprovalStatus::Executed, ..self.approvals[approval_id] },
            ),
            ..self
        }.with_history(approval_id, trail(approval_id, ApprovalAction::Executed, actor, now))
    }

    /// The first reason to refuse executing approval `approval_id`, if any
    /// (before the sale itself is looked at).
    pub open spec fn execute_check(self, env: &Context, approval_id: u64) -> Result<(), MarketError> {
        if approval_id == 0 {
            Err(MarketError::InvalidApprovalId)
        } else if !self.approvals.contains_key(approval_id) {
            Err(MarketError::ApprovalNotFound)
        } else if self.approvals[approval_id].status != ApprovalStatus::Approved {
            Err(MarketError::ApprovalNotApproved)
        } else if env.timestamp >= self.approvals[approval_id].expires_at {
            Err(MarketError::ApprovalExpired)
        } else if self.approvals[approval_id].listing_id is None
            && self.approvals[approval_id].auction_id is None {
            Err(MarketError::InvalidApproval)
        } else {
            Ok(())
        }
    }

    /// Every approval numbered `1..=upto` that has lapsed at `now` marked expired
    /// (by contract `actor`, with an audit-trail entry).
    pub open spec fn cleaned_upto(self, now: u64, actor: AccountId, upto: int) -> MarketView {
        MarketView {
            approvals: Map::new(
                |k: u64| self.approvals.contains_key(k),
                |k: u64|
                    if 1 <= k <= upto && lapsed(self.approvals[k], now) {
                        ApprovalView { status: ApprovalStatus::Expired, ..self.approvals[k] }
                    } else {
                        self.approvals[k]
                    },
            ),
            approval_history: Map::new(
                |k: u64|
                    self.approval_history.contains_key(k) || (1 <= k <= upto
                        && self.approvals.contains_key(k) && lapsed(self.approvals[k], now)),
                |k: u64|
                    if 1 <= k <= upto && self.approvals.contains_key(k) && lapsed(
                        self.approvals[k],
                        now,
                    ) {
                        self.history_of(k).push(trail(k, ApprovalAction::Expired, actor, now))
                    } else {
                        self.approval_history[k]
                    },
            ),
            ..self
        }
    }
}

/// A copy of `h`.
pub fn copy_history_entry(h: &ApprovalHistory) -> (c: ApprovalHistory)
    ensures
        c == *h,
{
    let reason = match &h.reason {
        Some(r) => Some(r.clone()),
        None => None,
    };
    ApprovalHistory {
        approval_id: h.approval_id,
        action: h.action,
        actor: h.actor,
        timestamp: h.timestamp,
        reason,
    }
}

impl Marketplace {
    /// The admin replaces the approval settings (threshold, approvals needed,
    /// approvers allowed, proposal lifetime).
    pub fn set_approval_config(
        &mut self,
        admin: AccountId,
        threshold: i128,
        approvers_required: u32,
        total_approvers: u32,
        ttl_seconds: u64,
    ) -> (r: Result<(), MarketError>)
        ensures
            r == old(self)@.set_approval_config_check(
                admin,
                threshold,
                approvers_required,
                total_approvers,
                ttl_seconds,
            ),
            r is Err ==> final(self)@ == old(self)@,
            r is Ok ==> final(self)@ == (MarketView {
                approval_config: Some(
                    ApprovalConfig { threshold, approvers_required, total_approvers, ttl_seconds },
                ),
                ..old(self)@
            }),
    {
        match self.admin {
            None => return Err(MarketError::NotInitialized),
            Some(a) => {
                if a != admin {
                    return Err(MarketError::Unauthorized);
                }
            },
        }
        if threshold <= 0 {
            return Err(MarketError::InvalidThreshold);
        }
        if approvers_required == 0 {
            return Err(MarketError::InvalidApproversRequired);
        }
        if total_approvers < approvers_required {
            return Err(MarketError::InvalidTotalApprovers);
        }
        if ttl_seconds == 0 {
            return Err(MarketError::InvalidTtl);
        }
        set_approval_config(
            self,
            ApprovalConfig { threshold, approvers_required, total_approvers, ttl_seconds },
        );
        Ok(())
    }

    /// The approval settings in force.
    pub fn get_approval_config(&self) -> (c: ApprovalConfig)
        ensures
            c == self@.config(),
    {
        get_approval_config(self)
    }

    /// Checks the number of approvers and numbers and dates a new proposal,
    /// recording it with a "proposed" entry by `buyer`.
    fn record_proposal(
        &mut self,
        env: &Context,
        listing_id: Option<u64>,
        auction_id: Option<u64>,
        buyer: AccountId,
        price: i128,
        approvers: Vec<AccountId>,
    ) -> (r: Result<u64, MarketError>)
        ensures
            match r {
                Err(e) => {
                    &&& (if old(self)@.approvers_check(approvers@) is Err {
                        old(self)@.approvers_check(approvers@)
                    } else {
                        old(self)@.numbering_check(env.timestamp)
                    }) == Err::<(), MarketError>(e)
                    &&& final(self)@ == old(self)@
                },
                Ok(id) => {
                    &&& old(self)@.approvers_check(approvers@) is Ok
                    &&& old(self)@.numbering_check(env.timestamp) is Ok
                    &&& id == old(self)@.approval_counter + 1
                    &&& final(self)@ == old(self)@.with_proposal(
                        proposal(
                            id,
                            listing_id,
                            auction_id,
                            buyer,
                            price,
                            env.timestamp,
                            old(self)@.config(),
                            approvers@,
                        ),
                        env.timestamp,
                    )
                },
            },
    {
        let config = get_approval_config(self);
        if (approvers.len() as u64) < config.approvers_required as u64 {
            return Err(MarketError::InsufficientApprovers);
        }
        if (approvers.len() as u64) > config.total_approvers as u64 {
            return Err(MarketError::TooManyApprovers);
        }
        let now = env.timestamp;
        if self.approval_counter == u64::MAX {
            return Err(MarketError::Overflow);
        }
        let expires_at = match now.checked_add(config.ttl_seconds) {
            Some(t) => t,
            None => return Err(MarketError::Overflow),
        };
        let approval_id = match increment_approval_counter(self) {
            Ok(id) => id,
            Err(e) => return Err(e),
        };
        let approval = Approval {
            approval_id,
            listing_id,
            auction_id,
            buyer,
            price,
            proposed_at: now,
            expires_at,
            status: ApprovalStatus::Pending,
            required_approvals: config.approvers_required,
            approvers,
            approvals_received: Vec::new(),
            rejections_received: Vec::new(),
            rejection_reasons: Vec::new(),
        };
        proof {
            assert(approval@ =~= proposal(
                approval_id,
                listing_id,
                auction_id,
                buyer,
                price,
                now,
                old(self)@.config(),
                approvers@,
            ));
        }
        set_approval(self, approval);
        add_approval_history(
            self,
            approval_id,
            ApprovalHistory {
                approval_id,
                action: ApprovalAction::Proposed,
                actor: buyer,
                timestamp: now,
                reason: None,
            },
        );
        Ok(approval_id)
    }

    /// The buyer proposes buying an active listing priced at or above the
    /// threshold; the proposal waits for the required number of the named
    /// approvers and expires after the configured lifetime.
    pub fn propose_sale(
        &mut self,
        env: &Context,
        listing_id: u64,
        buyer: AccountId,
        approvers: Vec<AccountId>,
    ) -> (r: Result<u64, MarketError>)
        ensures
            match r {
                Err(e) => old(self)@.propose_sale_check(env, listing_id, buyer, approvers@) == Err::<
                    (),
                    MarketError,
                >(e) && final(self)@ == old(self)@,
                Ok(id) => {
                    &&& old(self)@.propose_sale_check(env, listing_id, buyer, approvers@) is Ok
                    &&& id == old(self)@.approval_counter + 1
                    &&& final(self)@ == old(self)@.with_proposal(
                        proposal(
                            id,
                            Some(listing_id),
                            None,
                            buyer,
                            old(self)@.listings[listing_id].price,
                            env.timestamp,
                            old(self)@.config(),
                            approvers@,
                        ),
                        env.timestamp,
                    )
                },
            },
    {
        if !env.require_auth(buyer) {
            return Err(MarketError::NotAuthorized);
        }
        if listing_id == 0 {
            return Err(MarketError::InvalidListingId);
        }
        let listing: Listing = match self.listings.get(&listing_id) {
            None => return Err(MarketError::ListingNotFound),
            Some(l) => *l,
        };
        if !listing.active {
            return Err(MarketError::ListingNotActive);
        }
        let config = get_approval_config(self);
        if listing.price < config.threshold {
            return Err(MarketError::BelowThreshold);
        }
        self.record_proposal(env, Some(listing_id), None, buyer, listing.price, approvers)
    }

    /// Proposes the sale of an active auction to its highest bidder when the
    /// bid is at or above the threshold.
    pub fn propose_auction_sale(&mut self, env: &Context, auction_id: u64, approvers: Vec<AccountId>) -> (r:
        Result<u64, MarketError>)
        ensures
            match r {
                Err(e) => old(self)@.propose_auction_sale_check(env, auction_id, approvers@) == Err::<
                    (),
                    MarketError,
                >(e) && final(self)@ == old(self)@,
                Ok(id) => {
                    &&& old(self)@.propose_auction_sale_check(env, auction_id, approvers@) is Ok
                    &&& id == old(self)@.approval_counter + 1
                    &&& final(self)@ == old(self)@.with_proposal(
                        proposal(
                            id,
                            None,
                            Some(auction_id),
                            old(self)@.auctions[auction_id].highest_bidder.unwrap(),
                            old(self)@.auctions[auction_id].highest_bid,
                            env.timestamp,
                            old(self)@.config(),
                            approvers@,
                        ),
                        env.timestamp,
                    )
                },
            },
    {
        let auction = match get_auction(self, auction_id) {
            None => return Err(MarketError::AuctionNotFound),
            Some(a) => a,
        };
        if auction.status != AuctionStatus::Active {
            return Err(MarketError::AuctionNotActive);
        }
        let buyer = match auction.highest_bidder {
            None => return Err(MarketError::NoWinningBid),
            Some(b) => b,
        };
        let config = get_approval_config(self);
        if auction.highest_bid < config.threshold {
            return Err(MarketError::BelowThreshold);
        }
        self.record_proposal(env, None, Some(auction_id), buyer, auction.highest_bid, approvers)
    }

    /// One of the named approvers approves a pending, unexpired proposal (once);
    /// when enough approvals are in, the proposal becomes approved.
    pub fn approve_sale(&mut self, env: &Context, approval_id: u64, approver: AccountId) -> (r:
        Result<(), MarketError>)
        ensures
            r == old(self)@.vote_check(env, approval_id, approver),
            r is Err ==> final(self)@ == old(self)@,
            r is Ok ==> final(self)@ == old(self)@.after_approve(approval_id, approver, env.timestamp),
    {
        if !env.require_auth(approver) {
            return Err(MarketError::NotAuthorized);
        }
        if approval_id == 0 {
            return Err(MarketError::InvalidApprovalId);
        }
        match self.approvals.get(&approval_id) {
            None => return Err(MarketError::ApprovalNotFound),
            Some(a) => {
                if a.status != ApprovalStatus::Pending {
                    return Err(MarketError::ApprovalNotPending);
                }
                if env.timestamp >= a.expires_at {
                    return Err(MarketError::ApprovalExpired);
                }
                if !contains_account(&a.approvers, approver) {
                    return Err(MarketError::UnauthorizedApprover);
                }
                if contains_account(&a.approvals_received, approver) {
                    return Err(MarketError::AlreadyApproved);
                }
                if contains_account(&a.rejections_received, approver) {
                    return Err(MarketError::AlreadyRejected);
                }
            },
        }
        let ghost v0 = self@;
        let mut approval = self.approvals.remove(&approval_id).unwrap();
        approval.approvals_received.push(approver);
        let now = env.timestamp;
        let full = approval.approvals_received.len() as u64 >= approval.required_approvals as u64;
        if full {
            approval.status = ApprovalStatus::Approved;
        }
        self.approvals.insert(approval_id, approval);
        assert(self@ == (MarketView {
            approvals: v0.approvals.insert(approval_id, approval@),
            ..v0
        })) by {
            assert(self@.approvals =~= v0.approvals.insert(approval_id, approval@));
        }
        add_approval_history(self, approval_id, trail_entry(approval_id, ApprovalAction::Approved, approver, now));
        if full {
            add_approval_history(
                self,
                approval_id,
                trail_entry(approval_id, ApprovalAction::FullyApproved, approver, now),
            );
        }
        Ok(())
    }

    /// One of the named approvers rejects a pending, unexpired proposal, giving a reason.
    pub fn reject_sale(
        &mut self,
        env: &Context,
        approval_id: u64,
        approver: AccountId,
        reason: String,
    ) -> (r: Result<(), MarketError>)
        ensures
            r == old(self)@.vote_check(env, approval_id, approver),
            r is Err ==> final(self)@ == old(self)@,
            r is Ok ==> final(self)@ == old(self)@.after_reject(
                approval_id,
                approver,
                reason,
                env.timestamp,
            ),
    {
        if !env.require_auth(approver) {
            return Err(MarketError::NotAuthorized);
        }
        if approval_id == 0 {
            return Err(MarketError::InvalidApprovalId);
        }
        match self.approvals.get(&approval_id) {
            None => return Err(MarketError::ApprovalNotFound),
            Some(a) => {
                if a.status != ApprovalStatus::Pending {
                    return Err(MarketError::ApprovalNotPending);
                }
                if env.timestamp >= a.expires_at {
                    return Err(MarketError::ApprovalExpired);
                }
                if !contains_account(&a.approvers, approver) {
                    return Err(MarketError::UnauthorizedApprover);
                }
                if contains_account(&a.approvals_received, approver) {
                    return Err(MarketError::AlreadyApproved);
                }
                if contains_account(&a.rejections_received, approver) {
                    return Err(MarketError::AlreadyRejected);
                }
            },
        }
        let ghost v0 = self@;
        let mut approval = self.approvals.remove(&approval_id).unwrap();
        approval.rejections_received.push(approver);
        approval.rejection_reasons.push(reason.clone());
        approval.status = ApprovalStatus::Rejected;
        self.approvals.insert(approval_id, approval);
        assert(self@ == (MarketView {
            approvals: v0.approvals.insert(approval_id, approval@),
            ..v0
        })) by {
            assert(self@.approvals =~= v0.approvals.insert(approval_id, approval@));
        }
        add_approval_history(
            self,
            approval_id,
            ApprovalHistory {
                approval_id,
                action: ApprovalAction::Rejected,
                actor: approver,
                timestamp: env.timestamp,
                reason: Some(reason),
            },
        );
        Ok(())
    }

    /// Marks approval `approval_id` executed, with an audit-trail entry by this contract.
    fn mark_executed(&mut self, env: &Context, approval_id: u64)
        requires
            old(self)@.approvals.contains_key(approval_id),
        ensures
            final(self)@ == old(self)@.with_executed(approval_id, env.current_contract, env.timestamp),
    {
        let ghost v0 = self@;
        let mut approval = self.approvals.remove(&approval_id).unwrap();
        approval.status = ApprovalStatus::Executed;
        self.approvals.insert(approval_id, approval);
        assert(self@.approvals =~= v0.with_executed(approval_id, env.current_contract, env.timestamp).approvals);
        add_approval_history(
            self,
            approval_id,
            trail_entry(approval_id, ApprovalAction::Executed, env.current_contract, env.timestamp),
        );
    }

    /// Executes an approved fixed-price sale: the listing becomes inactive and
    /// the approval executed.
    fn execute_approved_listing_sale(&mut self, env: &Context, approval_id: u64, listing_id: u64) -> (r:
        Result<(), MarketError>)
        requires
            old(self)@.approvals.contains_key(approval_id),
        ensures
            !old(self)@.listings.contains_key(listing_id) ==> r == Err::<(), MarketError>(
                MarketError::ListingNotFound,
            ) && final(self)@ == old(self)@,
            old(self)@.listings.contains_key(listing_id) ==> r is Ok && final(self)@ == old(
                self,
            )@.with_listing_inactive(listing_id).with_executed(
                approval_id,
                env.current_contract,
                env.timestamp,
            ),
    {
        let listing = match self.listings.get(&listing_id) {
            None => return Err(MarketError::ListingNotFound),
            Some(l) => *l,
        };
        self.listings.insert(listing_id, Listing { active: false, ..listing });
        self.mark_executed(env, approval_id);
        Ok(())
    }

    /// Executes an approved auction sale: the auction is resolved (paying the
    /// royalty and the seller, or refunding the bidder when the reserve is not
    /// met) and the approval executed. Returns the token transfers, in order.
    fn execute_approved_auction_sale(&mut self, env: &Context, approval_id: u64, auction_id: u64) -> (r:
        Result<Vec<Transfer>, MarketError>)
        requires
            old(self)@.approvals.contains_key(approval_id),
        ensures
            match r {
                Err(e) => old(self)@.settle_auction_check(auction_id, false) == Err::<(), MarketError>(e)
                    && final(self)@ == old(self)@,
                Ok(t) => {
                    &&& old(self)@.settle_auction_check(auction_id, false) is Ok
                    &&& t@ == old(self)@.settlement_transfers(env, auction_id, false)
                    &&& final(self)@ == old(self)@.with_auction_settled(
                        auction_id,
                        false,
                    ).with_executed(approval_id, env.current_contract, env.timestamp)
                },
            },
    {
        let transfers = match self.settle_auction(env, auction_id, false) {
            Ok(t) => t,
            Err(e) => return Err(e),
        };
        self.mark_executed(env, approval_id);
        Ok(transfers)
    }

    /// Executes an approved, unexpired proposal: a listing sale deactivates the
    /// listing, an auction sale resolves the auction; the approval is executed.
    /// Returns the token transfers, in order.
    pub fn execute_approved_sale(&mut self, env: &Context, approval_id: u64) -> (r: Result<
        Vec<Transfer>,
        MarketError,
    >)
        ensures
            old(self)@.execute_check(env, approval_id) matches Err(e) ==> r == Err::<
                Vec<Transfer>,
                MarketError,
            >(e) && final(self)@ == old(self)@,
            old(self)@.execute_check(env, approval_id) is Ok ==> {
                let a = old(self)@.approvals[approval_id];
                match a.listing_id {
                    Some(listing_id) => if old(self)@.listings.contains_key(listing_id) {
                        r matches Ok(t) && t@.len() == 0 && final(self)@ == old(
                            self,
                        )@.with_listing_inactive(listing_id).with_executed(
                            approval_id,
                            env.current_contract,
                            env.timestamp,
                        )
                    } else {
                        r == Err::<Vec<Transfer>, MarketError>(MarketError::ListingNotFound)
                            && final(self)@ == old(self)@
                    },
                    None => {
                        let auction_id = a.auction_id.unwrap();
                        match r {
                            Err(e) => old(self)@.settle_auction_check(auction_id, false) == Err::<
                                (),
                                MarketError,
                            >(e) && final(self)@ == old(self)@,
                            Ok(t) => {
                                &&& old(self)@.settle_auction_check(auction_id, false) is Ok
                                &&& t@ == old(self)@.settlement_transfers(env, auction_id, false)
                                &&& final(self)@ == old(self)@.with_auction_settled(
                                    auction_id,
                                    false,
                                ).with_executed(approval_id, env.current_contract, env.timestamp)
                            },
                        }
                    },
                }
            },
    {
        if approval_id == 0 {
            return Err(MarketError::InvalidApprovalId);
        }
        let (listing_id, auction_id) = match self.approvals.get(&approval_id) {
            None => return Err(MarketError::ApprovalNotFound),
            Some(a) => {
                if a.status != ApprovalStatus::Approved {
                    return Err(MarketError::ApprovalNotApproved);
                }
                if env.timestamp >= a.expires_at {
                    return Err(MarketError::ApprovalExpired);
                }
                (a.listing_id, a.auction_id)
            },
        };
        if let Some(listing_id) = listing_id {
            match self.execute_approved_listing_sale(env, approval_id, listing_id) {
                Ok(()) => Ok(Vec::new()),
                Err(e) => Err(e),
            }
        } else if let Some(auction_id) = auction_id {
            self.execute_approved_auction_sale(env, approval_id, auction_id)
        } else {
            Err(MarketError::InvalidApproval)
        }
    }

    /// The approval `approval_id`, if stored.
    pub fn get_approval(&self, approval_id: u64) -> (r: Result<Option<&Approval>, MarketError>)
        ensures
            approval_id == 0 ==> r == Err::<Option<&Approval>, MarketError>(
                MarketError::InvalidApprovalId,
            ),
            approval_id != 0 ==> (r matches Ok(o) && match o {
                Some(a) => self@.approvals.contains_key(approval_id) && a@ == self@.approvals[approval_id],
                None => !self@.approvals.contains_key(approval_id),
            }),
    {
        if approval_id == 0 {
            return Err(MarketError::InvalidApprovalId);
        }
        Ok(self.approvals.get(&approval_id))
    }

    /// The audit trail of approval `approval_id`, oldest first.
    pub fn get_approval_history(&self, approval_id: u64) -> (r: Result<
        Vec<ApprovalHistory>,
        MarketError,
    >)
        ensures
            approval_id == 0 ==> r == Err::<Vec<ApprovalHistory>, MarketError>(
                MarketError::InvalidApprovalId,
            ),
            approval_id != 0 ==> (r matches Ok(v) && v@ == self@.history_of(approval_id)),
    {
        if approval_id == 0 {
            return Err(MarketError::InvalidApprovalId);
        }
        let mut out: Vec<ApprovalHistory> = Vec::new();
        match self.approval_history.get(&approval_id) {
            None => {},
            Some(h) => {
                let n = h.len();
                let mut i: usize = 0;
                while i < n
                    invariant
                        n == h@.len(),
                        i <= n,
                        out@ == h@.subrange(0, i as int),
                    decreases n - i,
                {
                    out.push(copy_history_entry(&h[i]));
                    i = i + 1;
                }
                assert(out@ =~= h@);
            },
        }
        Ok(out)
    }

    /// Marks every pending proposal numbered up to the approval counter whose
    /// lifetime is over as expired, with an audit-trail entry by this contract.
    pub fn cleanup_expired_approvals(&mut self, env: &Context)
        ensures
            final(self)@ == old(self)@.cleaned_upto(
                env.timestamp,
                env.current_contract,
                old(self)@.approval_counter as int,
            ),
    {
        let counter = self.approval_counter;
        let now = env.timestamp;
        let actor = env.current_contract;
        let ghost v0 = self@;
        let mut k: u64 = 0;
        assert(v0.cleaned_upto(now, actor, 0) == v0) by {
            assert(v0.cleaned_upto(now, actor, 0).approvals =~= v0.approvals);
            assert(v0.cleaned_upto(now, actor, 0).approval_history =~= v0.approval_history);
        }
        while k < counter
            invariant
                counter == v0.approval_counter,
                k <= counter,
                self@ == v0.cleaned_upto(now, actor, k as int),
            decreases counter - k,
        {
            let id = k + 1;
            let due = match self.approvals.get(&id) {
                None => false,
                Some(a) => a.status == ApprovalStatus::Pending && now >= a.expires_at,
            };
            let ghost before = self@;
            proof {
                let nxt = v0.cleaned_upto(now, actor, id as int);
                assert(before.approvals.contains_key(id) == v0.approvals.contains_key(id));
                if v0.approvals.contains_key(id) {
                    assert(before.approvals[id] == v0.approvals[id]);
                }
                assert(before.history_of(id) == v0.history_of(id));
                assert(due == (v0.approvals.contains_key(id) && lapsed(v0.approvals[id], now)));
            }
            if due {
                let mut approval = self.approvals.remove(&id).unwrap();
                assert(approval@ == before.approvals[id]);
                approval.status = ApprovalStatus::Expired;
                self.approvals.insert(id, approval);
                assert(self@.approvals =~= before.approvals.insert(id, approval@));
                add_approval_history(self, id, trail_entry(id, ApprovalAction::Expired, actor, now));
                assert(self@.approvals =~= v0.cleaned_upto(now, actor, id as int).approvals);
                assert(self@.approval_history =~= v0.cleaned_upto(
                    now,
                    actor,
                    id as int,
                ).approval_history);
            } else {
                assert(self@.approvals =~= v0.cleaned_upto(now, actor, id as int).approvals);
                assert(self@.approval_history =~= v0.cleaned_upto(
                    now,
                    actor,
                    id as int,
                ).approval_history);
            }
            k = id;
        }
    }
}

/// An approver votes at most once on a proposal: once its approval is
/// recorded, every further vote of that approver on the proposal is refused.
pub proof fn approver_votes_once(
    v: MarketView,
    env: &Context,
    approval_id: u64,
    approver: AccountId,
    now: u64,
    later: &Context,
)
    requires
        v.vote_check(env, approval_id, approver) is Ok,
    ensures
        v.after_approve(approval_id, approver, now).vote_check(later, approval_id, approver) is Err,
{
    let a = v.approvals[approval_id];
    vstd::seq_lib::lemma_seq_contains_after_push(a.approvals_received, approver, approver);
}

/// A proposal collects approvals until it is approved: it turns `Approved`
/// exactly when the approvals received reach the required number.
pub proof fn approved_exactly_at_quorum(v: MarketView, env: &Context, approval_id: u64, approver: AccountId, now: u64)
    requires
        v.vote_check(env, approval_id, approver) is Ok,
    ensures
        ({
            let after = v.after_approve(approval_id, approver, now).approvals[approval_id];
            &&& after.approvals_received.len() == v.approvals[approval_id].approvals_received.len() + 1
            &&& (after.status == ApprovalStatus::Approved <==> after.approvals_received.len()
                >= v.approvals[approval_id].required_approvals)
        }),
{
}

/// An approved sale is carried out at most once: once executed, the approval
/// can never be executed again.
pub proof fn approval_executes_once(v: MarketView, approval_id: u64, actor: AccountId, now: u64, env: &Context)
    requires
        v.approvals.contains_key(approval_id),
    ensures
        v.with_executed(approval_id, actor, now).execute_check(env, approval_id) is Err,
{
}

} // verus!
