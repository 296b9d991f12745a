use vstd::prelude::*;
use crate::context::{AccountId, Context};
use crate::types::{
    LeaseAction, LeaseData, LeaseExtensionRequest, LeaseHistoryEntry, LeaseState, Listing,
    ListingType, Transfer, LEASE_EXTENSION_REQUEST_TTL_SECONDS, MAX_LEASE_DURATION_SECONDS,
    MIN_LEASE_DURATION_SECONDS, DEFAULT_LEASE_DEPOSIT_BPS,
};
use super::storage::{
    add_lease_history, checked_mul_div, get_lease, get_lease_config, get_lease_extension_request,
    get_lessee_lease_ids, get_lessor_lease_ids, get_payment_token, increment_lease_counter,
    increment_lease_extension_counter, lessee_leases_append, lessor_leases_append, mul_div,
    set_lease_config, set_lease_extension_request, LeaseConfig, MarketError, MarketView,
    Marketplace,
};

verus! {

broadcast use vstd::std_specs::hash::group_hash_axioms;

/// The history entry recording `action` on lease `id`.
pub open spec fn lease_entry(id: u64, action: LeaseAction, actor: AccountId, at: u64) -> LeaseHistoryEntry {
    LeaseHistoryEntry { lease_id: id, action, actor, timestamp: at }
}

/// Value of the unused part of lease `l` at `now`: its value pro rata of the
/// seconds left (rounded toward zero), or 0 for a lease of no duration.
pub open spec fn remaining_value(l: LeaseData, now: u64) -> Option<i128> {
    let remaining = if l.end_time >= now {
        l.end_time - now
    } else {
        0
    };
    if l.duration_seconds > 0 {
        mul_div(l.total_value, remaining as i128, l.duration_seconds as i128)
    } else {
        Some(0)
    }
}

/// Penalty for ending lease `l` at `now`: `bps` basis points of its remaining value.
pub open spec fn termination_penalty(l: LeaseData, now: u64, bps: u32) -> Option<i128> {
    match remaining_value(l, now) {
        None => None,
        Some(rv) => mul_div(rv, bps as i128, 10000),
    }
}

/// What goes back to the lessee of the deposit: the deposit less the penalty,
/// but not below 0.
pub open spec fn deposit_refund(deposit: i128, penalty: i128) -> Option<i128> {
    let d = deposit - penalty;
    if d < i128::MIN || d > i128::MAX {
        None
    } else if d < 0 {
        Some(0)
    } else {
        Some(d as i128)
    }
}

/// What the lessor receives: the kept part of the deposit and the fee paid.
pub open spec fn lessor_share(deposit: i128, refund: i128, fee: i128) -> Option<i128> {
    let kept = deposit - refund;
    if kept < i128::MIN || kept > i128::MAX || kept + fee < i128::MIN || kept + fee > i128::MAX {
        None
    } else {
        Some((kept + fee) as i128)
    }
}

impl MarketView {
    /// This view with `id` recorded among the lessee leases of `a`.
    pub open spec fn with_lessee_lease(self, a: AccountId, id: u64) -> MarketView {
        MarketView {
            lessee_leases: self.lessee_leases.insert(a.id, self.lessee_ids(a).push(id)),
            ..self
        }
    }

    /// This view with `id` recorded among the lessor leases of `a`.
    pub open spec fn with_lessor_lease(self, a: AccountId, id: u64) -> MarketView {
        MarketView {
            lessor_leases: self.lessor_leases.insert(a.id, self.lessor_ids(a).push(id)),
            ..self
        }
    }

    /// This view with lease `id` replaced by `l`.
    pub open spec fn with_lease(self, id: u64, l: LeaseData) -> MarketView {
        MarketView { leases: self.leases.insert(id, l), ..self }
    }

    /// The deposit of a lease of listing `listing_id`.
    pub open spec fn lease_deposit(self, listing_id: u64) -> Option<i128> {
        mul_div(self.listings[listing_id].price, self.lease_cfg().deposit_bps as i128, 10000)
    }

    /// The first reason to refuse starting a lease, if any.
    pub open spec fn initiate_lease_check(
        self,
        env: &Context,
        listing_id: u64,
        lessee: AccountId,
        duration_seconds: u64,
    ) -> Result<(), MarketError> {
        if !env.authorizes(lessee) {
            Err(MarketError::NotAuthorized)
        } else if listing_id == 0 {
            Err(MarketError::InvalidListingId)
        } else if duration_seconds < MIN_LEASE_DURATION_SECONDS || duration_seconds
            > MAX_LEASE_DURATION_SECONDS {
            Err(MarketError::InvalidDuration)
        } else if !self.listings.contains_key(listing_id) {
            Err(MarketError::ListingNotFound)
        } else if !self.listings[listing_id].active {
            Err(MarketError::ListingNotActive)
        } else if self.listings[listing_id].listing_type != ListingType::Lease {
            Err(MarketError::NotALeaseListing)
        } else if self.listings[listing_id].seller == lessee {
            Err(MarketError::LessorIsLessee)
        } else if self.lease_deposit(listing_id) is None {
            Err(MarketError::Overflow)
        } else if self.listings[listing_id].price + self.lease_deposit(listing_id).unwrap()
            > i128::MAX || self.listings[listing_id].price + self.lease_deposit(listing_id).unwrap()
            < i128::MIN {
            Err(MarketError::Overflow)
        } else if self.payment_token is None {
            Err(MarketError::PaymentTokenNotSet)
        } else if self.lease_counter == u64::MAX {
            Err(MarketError::Overflow)
        } else if env.timestamp + duration_seconds > u64::MAX {
            Err(MarketError::Overflow)
        } else {
            Ok(())
        }
    }

    /// The first reason to refuse an extension request, if any.
    pub open spec fn request_extension_check(
        self,
        env: &Context,
        lease_id: u64,
        lessee: AccountId,
        additional: u64,
    ) -> Result<(), MarketError> {
        if !env.authorizes(lessee) {
            Err(MarketError::NotAuthorized)
        } else if lease_id == 0 {
            Err(MarketError::InvalidLeaseId)
        } else if additional == 0 {
            Err(MarketError::InvalidAdditionalDuration)
        } else if !self.leases.contains_key(lease_id) {
            Err(MarketError::LeaseNotFound)
        } else if self.leases[lease_id].lessee != lessee {
            Err(MarketError::Unauthorized)
        } else if self.leases[lease_id].status != LeaseState::Active {
            Err(MarketError::LeaseNotActive)
        } else if env.timestamp >= self.leases[lease_id].end_time {
            Err(MarketError::LeaseEnded)
        } else if self.lease_extension_counter == u64::MAX {
            Err(MarketError::Overflow)
        } else {
            Ok(())
        }
    }

    /// The first reason to refuse approving an extension, if any.
    pub open spec fn approve_extension_check(
        self,
        env: &Context,
        lease_id: u64,
        extension_id: u64,
        lessor: AccountId,
    ) -> Result<(), MarketError> {
        if !env.authorizes(lessor) {
            Err(MarketError::NotAuthorized)
        } else if lease_id == 0 {
            Err(MarketError::InvalidLeaseId)
        } else if extension_id == 0 {
            Err(MarketError::InvalidExtensionId)
        } else if !self.leases.contains_key(lease_id) {
            Err(MarketError::LeaseNotFound)
        } else if self.leases[lease_id].lessor != lessor {
            Err(MarketError::Unauthorized)
        } else if self.leases[lease_id].status != LeaseState::ExtensionRequested {
            Err(MarketError::NotExtensionRequested)
        } else if self.leases[lease_id].pending_extension_id != Some(extension_id) {
            Err(MarketError::ExtensionMismatch)
        } else if !self.extension_requests.contains_key(extension_id) {
            Err(MarketError::ExtensionNotFound)
        } else if self.extension_requests[extension_id].approved {
            Err(MarketError::ExtensionAlreadyApproved)
        } else if self.extension_requests[extension_id].lease_id != lease_id {
            Err(MarketError::ExtensionForOtherLease)
        } else if self.extension_requests[extension_id].requested_at
            + LEASE_EXTENSION_REQUEST_TTL_SECONDS > u64::MAX {
            Err(MarketError::Overflow)
        } else if env.timestamp > self.extension_requests[extension_id].requested_at
            + LEASE_EXTENSION_REQUEST_TTL_SECONDS {
            Err(MarketError::ExtensionExpired)
        } else if self.leases[lease_id].end_time
            + self.extension_requests[extension_id].additional_duration_seconds > u64::MAX
            || self.leases[lease_id].duration_seconds
            + self.extension_requests[extension_id].additional_duration_seconds > u64::MAX {
            Err(MarketError::Overflow)
        } else {
            Ok(())
        }
    }

    /// The first reason to refuse an early termination, if any.
    pub open spec fn early_termination_check(
        self,
        env: &Context,
        lease_id: u64,
        lessee: AccountId,
        fee_paid: i128,
    ) -> Result<(), MarketError> {
        if !env.authorizes(lessee) {
            Err(MarketError::NotAuthorized)
        } else if lease_id == 0 {
            Err(MarketError::InvalidLeaseId)
        } else if !self.leases.contains_key(lease_id) {
            Err(MarketError::LeaseNotFound)
        } else {
            let l = self.leases[lease_id];
            let penalty = termination_penalty(
                l,
                env.timestamp,
                self.lease_cfg().early_termination_penalty_bps,
            );
            if l.lessee != lessee {
                Err(MarketError::Unauthorized)
            } else if l.status != LeaseState::Active {
                Err(MarketError::LeaseNotActive)
            } else if env.timestamp >= l.end_time {
                Err(MarketError::LeaseEnded)
            } else if penalty is None {
                Err(MarketError::Overflow)
            } else if fee_paid < penalty.unwrap() {
                Err(MarketError::InsufficientTerminationFee)
            } else if self.payment_token is None {
                Err(MarketError::PaymentTokenNotSet)
            } else if deposit_refund(l.deposit_amount, penalty.unwrap()) is None {
                Err(MarketError::Overflow)
            } else if lessor_share(
                l.deposit_amount,
                deposit_refund(l.deposit_amount, penalty.unwrap()).unwrap(),
                fee_paid,
            ) is None {
                Err(MarketError::Overflow)
            } else {
                Ok(())
            }
        }
    }

    /// The transfers of an accepted early termination: the fee into the
    /// contract, the lessor's share out of it, and the deposit refund.
    pub open spec fn termination_transfers(
        self,
        env: &Context,
        lease_id: u64,
        lessee: AccountId,
        fee_paid: i128,
    ) -> Seq<Transfer> {
        let l = self.leases[lease_id];
        let penalty = termination_penalty(
            l,
            env.timestamp,
            self.lease_cfg().early_termination_penalty_bps,
        ).unwrap();
        let refund = deposit_refund(l.deposit_amount, penalty).unwrap();
        let to_lessor = lessor_share(l.deposit_amount, refund, fee_paid).unwrap();
        (if fee_paid > 0 {
            seq![Transfer { from: lessee, to: env.current_contract, amount: fee_paid }]
        } else {
            Seq::empty()
        }).push(Transfer { from: env.current_contract, to: l.lessor, amount: to_lessor }) + (
        if refund > 0 {
            seq![Transfer { from: env.current_contract, to: lessee, amount: refund }]
        } else {
            Seq::empty()
        })
    }

    /// The first reason to refuse settling a lease's expiry, if any.
    pub open spec fn settle_expiry_check(self, env: &Context, lease_id: u64) -> Result<(), MarketError> {
        if !self.leases.contains_key(lease_id) {
            Err(MarketError::LeaseNotFound)
        } else if self.leases[lease_id].status != LeaseState::Active && self.leases[lease_id].status
            != LeaseState::ExtensionRequested {
            Err(MarketError::LeaseNotActive)
        } else if env.timestamp < self.leases[lease_id].end_time {
            Err(MarketError::LeaseNotExpired)
        } else if self.payment_token is None {
            Err(MarketError::PaymentTokenNotSet)
        } else {
            Ok(())
        }
    }

    /// The first reason to refuse renewing a lease, if any.
    pub open spec fn renewal_check(self, env: &Context, lease_id: u64) -> Result<(), MarketError> {
        if !self.leases.contains_key(lease_id) {
            Err(MarketError::LeaseNotFound)
        } else {
            let l = self.leases[lease_id];
            if l.status != LeaseState::Active && l.status != LeaseState::ExtensionRequested {
                Err(MarketError::LeaseNotActive)
            } else if env.timestamp < l.end_time {
                Err(MarketError::LeaseNotExpired)
            } else if !l.auto_renew {
                Err(MarketError::AutoRenewOff)
            } else if !l.lessee_consent_for_renewal {
                Err(MarketError::NoRenewalConsent)
            } else if self.lease_counter == u64::MAX {
                Err(MarketError::Overflow)
            } else if env.timestamp + l.duration_seconds > u64::MAX {
                Err(MarketError::Overflow)
            } else {
                Ok(())
            }
        }
    }

    /// The first reason to refuse a lease flag change by `party` (the lessee
    /// when `by_lessee`, otherwise the lessor), if any.
    pub open spec fn lease_flag_check(
        self,
        env: &Context,
        lease_id: u64,
        party: AccountId,
        by_lessee: bool,
    ) -> Result<(), MarketError> {
        if !env.authorizes(party) {
            Err(MarketError::NotAuthorized)
        } else if !self.leases.contains_key(lease_id) {
            Err(MarketError::LeaseNotFound)
        } else if (by_lessee && self.leases[lease_id].lessee != party) || (!by_lessee
            && self.leases[lease_id].lessor != party) {
            Err(MarketError::Unauthorized)
        } else if self.leases[lease_id].status != LeaseState::Active {
            Err(MarketError::LeaseNotActive)
        } else {
            Ok(())
        }
    }

    /// The active leases among `ids`, in order.
    pub open spec fn active_among(self, ids: Seq<u64>) -> Seq<LeaseData>
        decreases ids.len(),
    {
        if ids.len() == 0 {
            Seq::empty()
        } else {
            let prev = self.active_among(ids.drop_last());
            let id = ids.last();
            if self.leases.contains_key(id) && self.leases[id].status == LeaseState::Active {
                prev.push(self.leases[id])
            } else {
                prev
            }
        }
    }

    /// `acc` followed by the active leases among `ids` whose lease id is not in
    /// it yet, in order.
    pub open spec fn add_new_active(self, acc: Seq<LeaseData>, ids: Seq<u64>) -> Seq<LeaseData>
        decreases ids.len(),
    {
        if ids.len() == 0 {
            acc
        } else {
            let prev = self.add_new_active(acc, ids.drop_last());
            let id = ids.last();
            if self.leases.contains_key(id) && self.leases[id].status == LeaseState::Active && !(
            exists|j: int| 0 <= j < prev.len() && prev[j].lease_id == self.leases[id].lease_id) {
                prev.push(self.leases[id])
            } else {
                prev
            }
        }
    }

    /// Lease `id` is recorded and active.
    pub open spec fn is_active_lease(self, id: u64) -> bool {
        self.leases.contains_key(id) && self.leases[id].status == LeaseState::Active
    }

    /// The active leases of `a`: those recorded for it as lessee, then those
    /// recorded as lessor that are not listed yet.
    pub open spec fn active_leases_of(self, a: AccountId) -> Seq<LeaseData> {
        self.add_new_active(self.active_among(self.lessee_ids(a)), self.lessor_ids(a))
    }
}

impl Marketplace {
    /// The lessee leases an active lease listing of someone else for
    /// `duration_seconds` (from one day to `MAX_DURATION_DAYS` days): they
    /// pay the listing price plus the configured deposit into the contract, the
    /// price goes on to the lessor, the listing becomes inactive and an active
    /// lease is recorded (numbered one past the lease counter). Returns the
    /// lease id and the token transfers, in order.
    pub fn initiate_lease(
        &mut self,
        env: &Context,
        listing_id: u64,
        lessee: AccountId,
        duration_seconds: u64,
    ) -> (r: Result<(u64, Vec<Transfer>), MarketError>)
        ensures
            match r {
                Err(e) => old(self)@.initiate_lease_check(env, listing_id, lessee, duration_seconds)
                    == Err::<(), MarketError>(e) && final(self)@ == old(self)@,
                Ok((id, t)) => {
                    let v = old(self)@;
                    let listing = v.listings[listing_id];
                    let deposit = v.lease_deposit(listing_id).unwrap();
                    &&& v.initiate_lease_check(env, listing_id, lessee, duration_seconds) is Ok
                    &&& id == v.lease_counter + 1
                    &&& t@ == seq![
                        Transfer {
                            from: lessee,
                            to: env.current_contract,
                            amount: (listing.price + deposit) as i128,
                        },
                        Transfer { from: env.current_contract, to: listing.seller, amount: listing.price },
                    ]
                    &&& final(self)@ == (MarketView {
                        lease_counter: id,
                        ..v.with_listing_inactive(listing_id)
                    }).with_lease(
                        id,
                        LeaseData {
                            lease_id: id,
                            agent_id: listing.agent_id,
                            listing_id,
                            lessor: listing.seller,
                            lessee,
                            start_time: env.timestamp,
                            end_time: (env.timestamp + duration_seconds) as u64,
                            duration_seconds,
                            deposit_amount: deposit,
                            total_value: listing.price,
                            auto_renew: false,
                            lessee_consent_for_renewal: false,
                            status: LeaseState::Active,
                            pending_extension_id: None,
                        },
                    ).with_lessee_lease(lessee, id).with_lessor_lease(
                        listing.seller,
                        id,
                    ).with_lease_history(
                        id,
                        lease_entry(id, LeaseAction::Initiated, lessee, env.timestamp),
                    )
                },
            },
    {
        if !env.require_auth(lessee) {
            return Err(MarketError::NotAuthorized);
        }
        if listing_id == 0 {
            return Err(MarketError::InvalidListingId);
        }
        if duration_seconds < MIN_LEASE_DURATION_SECONDS || duration_seconds
            > MAX_LEASE_DURATION_SECONDS {
            return Err(MarketError::InvalidDuration);
        }
        let listing: Listing = match self.listings.get(&listing_id) {
            None => return Err(MarketError::ListingNotFound),
            Some(l) => *l,
        };
        if !listing.active {
            return Err(MarketError::ListingNotActive);
        }
        if listing.listing_type != ListingType::Lease {
            return Err(MarketError::NotALeaseListing);
        }
        if listing.seller == lessee {
            return Err(MarketError::LessorIsLessee);
        }
        let config = get_lease_config(self);
        let total_value = listing.price;
        let deposit_amount = match checked_mul_div(total_value, config.deposit_bps as i128, 10000) {
            Some(d) => d,
            None => return Err(MarketError::Overflow),
        };
        let total_payment = match total_value.checked_add(deposit_amount) {
            Some(t) => t,
            None => return Err(MarketError::Overflow),
        };
        if let Err(e) = get_payment_token(self) {
            return Err(e);
        }
        if self.lease_counter == u64::MAX {
            return Err(MarketError::Overflow);
        }
        let now = env.timestamp;
        let end_time = match now.checked_add(duration_seconds) {
            Some(t) => t,
            None => return Err(MarketError::Overflow),
        };
        let mut transfers: Vec<Transfer> = Vec::new();
        transfers.push(Transfer { from: lessee, to: env.current_contract, amount: total_payment });
        transfers.push(Transfer { from: env.current_contract, to: listing.seller, amount: total_value });
        self.listings.insert(listing_id, Listing { active: false, ..listing });
        let lease_id = match increment_lease_counter(self) {
            Ok(id) => id,
            Err(e) => return Err(e),
        };
        self.leases.insert(
            lease_id,
            LeaseData {
                lease_id,
                agent_id: listing.agent_id,
                listing_id,
                lessor: listing.seller,
                lessee,
                start_time: now,
                end_time,
                duration_seconds,
                deposit_amount,
                total_value,
                auto_renew: false,
                lessee_consent_for_renewal: false,
                status: LeaseState::Active,
                pending_extension_id: None,
            },
        );
        lessee_leases_append(self, lessee, lease_id);
        lessor_leases_append(self, listing.seller, lease_id);
        add_lease_history(
            self,
            lease_id,
            LeaseHistoryEntry {
                lease_id,
                action: LeaseAction::Initiated,
                actor: lessee,
                timestamp: now,
            },
        );
        Ok((lease_id, transfers))
    }

    /// The lessee of an active, running lease asks to extend it by
    /// `additional_duration_seconds`; the lease waits for the lessor's answer.
    pub fn request_lease_extension(
        &mut self,
        env: &Context,
        lease_id: u64,
        lessee: AccountId,
        additional_duration_seconds: u64,
    ) -> (r: Result<u64, MarketError>)
        ensures
            match r {
                Err(e) => old(self)@.request_extension_check(
                    env,
                    lease_id,
                    lessee,
                    additional_duration_seconds,
                ) == Err::<(), MarketError>(e) && final(self)@ == old(self)@,
                Ok(ext) => {
                    let v = old(self)@;
                    &&& v.request_extension_check(env, lease_id, lessee, additional_duration_seconds) is Ok
                    &&& ext == v.lease_extension_counter + 1
                    &&& final(self)@ == (MarketView {
                        lease_extension_counter: ext,
                        extension_requests: v.extension_requests.insert(
                            ext,
                            LeaseExtensionRequest {
                                extension_id: ext,
                                lease_id,
                                additional_duration_seconds,
                                requested_at: env.timestamp,
                                approved: false,
                            },
                        ),
                        ..v
                    }).with_lease(
                        lease_id,
                        LeaseData {
                            status: LeaseState::ExtensionRequested,
                            pending_extension_id: Some(ext),
                            ..v.leases[lease_id]
                        },
                    ).with_lease_history(
                        lease_id,
                        lease_entry(lease_id, LeaseAction::ExtensionRequested, lessee, env.timestamp),
                    )
                },
            },
    {
        if !env.require_auth(lessee) {
            return Err(MarketError::NotAuthorized);
        }
        if lease_id == 0 {
            return Err(MarketError::InvalidLeaseId);
        }
        if additional_duration_seconds == 0 {
            return Err(MarketError::InvalidAdditionalDuration);
        }
        let lease = match get_lease(self, lease_id) {
            None => return Err(MarketError::LeaseNotFound),
            Some(l) => l,
        };
        if lease.lessee != lessee {
            return Err(MarketError::Unauthorized);
        }
        if lease.status != LeaseState::Active {
            return Err(MarketError::LeaseNotActive);
        }
        let now = env.timestamp;
        if now >= lease.end_time {
            return Err(MarketError::LeaseEnded);
        }
        let extension_id = match increment_lease_extension_counter(self) {
            Ok(id) => id,
            Err(e) => return Err(e),
        };
        set_lease_extension_request(
            self,
            LeaseExtensionRequest {
                extension_id,
                lease_id,
                additional_duration_seconds,
                requested_at: now,
                approved: false,
            },
        );
        self.leases.insert(
            lease_id,
            LeaseData {
                status: LeaseState::ExtensionRequested,
                pending_extension_id: Some(extension_id),
                ..lease
            },
        );
        add_lease_history(
            self,
            lease_id,
            LeaseHistoryEntry {
                lease_id,
                action: LeaseAction::ExtensionRequested,
                actor: lessee,
                timestamp: now,
            },
        );
        Ok(extension_id)
    }

    /// The lessor approves the pending, unexpired extension request of the
    /// lease: its end time and duration grow by the requested seconds and it is
    /// active again.
    pub fn approve_lease_extension(
        &mut self,
        env: &Context,
        lease_id: u64,
        extension_id: u64,
        lessor: AccountId,
    ) -> (r: Result<(), MarketError>)
        ensures
            r == old(self)@.approve_extension_check(env, lease_id, extension_id, lessor),
            r is Err ==> final(self)@ == old(self)@,
            r is Ok ==> {
                let v = old(self)@;
                let l = v.leases[lease_id];
                let req = v.extension_requests[extension_id];
                final(self)@ == (MarketView {
                    extension_requests: v.extension_requests.insert(
                        extension_id,
                        LeaseExtensionRequest { approved: true, ..req },
                    ),
                    ..v
                }).with_lease(
                    lease_id,
                    LeaseData {
                        end_time: (l.end_time + req.additional_duration_seconds) as u64,
                        duration_seconds: (l.duration_seconds + req.additional_duration_seconds) as u64,
                        status: LeaseState::Active,
                        pending_extension_id: None,
                        ..l
                    },
                ).with_lease_history(
                    lease_id,
                    lease_entry(lease_id, LeaseAction::Extended, lessor, env.timestamp),
                )
            },
    {
        if !env.require_auth(lessor) {
            return Err(MarketError::NotAuthorized);
        }
        if lease_id == 0 {
            return Err(MarketError::InvalidLeaseId);
        }
        if extension_id == 0 {
            return Err(MarketError::InvalidExtensionId);
        }
        let lease = match get_lease(self, lease_id) {
            None => return Err(MarketError::LeaseNotFound),
            Some(l) => l,
        };
        if lease.lessor != lessor {
            return Err(MarketError::Unauthorized);
        }
        if lease.status != LeaseState::ExtensionRequested {
            return Err(MarketError::NotExtensionRequested);
        }
        if lease.pending_extension_id != Some(extension_id) {
            return Err(MarketError::ExtensionMismatch);
        }
        let req = match get_lease_extension_request(self, extension_id) {
            None => return Err(MarketError::ExtensionNotFound),
            Some(r) => r,
        };
        if req.approved {
            return Err(MarketError::ExtensionAlreadyApproved);
        }
        if req.lease_id != lease_id {
            return Err(MarketError::ExtensionForOtherLease);
        }
        let now = env.timestamp;
        let deadline = match req.requested_at.checked_add(LEASE_EXTENSION_REQUEST_TTL_SECONDS) {
            Some(d) => d,
            None => return Err(MarketError::Overflow),
        };
        if now > deadline {
            return Err(MarketError::ExtensionExpired);
        }
        let end_time = match lease.end_time.checked_add(req.additional_duration_seconds) {
            Some(t) => t,
            None => return Err(MarketError::Overflow),
        };
        let duration_seconds = match lease.duration_seconds.checked_add(
            req.additional_duration_seconds,
        ) {
            Some(d) => d,
            None => return Err(MarketError::Overflow),
        };
        self.leases.insert(
            lease_id,
            LeaseData {
                end_time,
                duration_seconds,
                status: LeaseState::Active,
                pending_extension_id: None,
                ..lease
            },
        );
        self.extension_requests.insert(extension_id, LeaseExtensionRequest { approved: true, ..req });
        add_lease_history(
            self,
            lease_id,
            LeaseHistoryEntry { lease_id, action: LeaseAction::Extended, actor: lessor, timestamp: now },
        );
        Ok(())
    }

    /// The lessee ends an active, running lease early, paying at least the
    /// penalty (a share of the remaining value); the deposit less the penalty
    /// goes back to the lessee and the rest, with the fee, to the lessor.
    /// Returns the token transfers, in order.
    pub fn early_termination(
        &mut self,
        env: &Context,
        lease_id: u64,
        lessee: AccountId,
        termination_fee_paid: i128,
    ) -> (r: Result<Vec<Transfer>, MarketError>)
        ensures
            match r {
                Err(e) => old(self)@.early_termination_check(
                    env,
                    lease_id,
                    lessee,
                    termination_fee_paid,
                ) == Err::<(), MarketError>(e) && final(self)@ == old(self)@,
                Ok(t) => {
                    let v = old(self)@;
                    &&& v.early_termination_check(env, lease_id, lessee, termination_fee_paid) is Ok
                    &&& t@ == v.termination_transfers(env, lease_id, lessee, termination_fee_paid)
                    &&& final(self)@ == v.with_lease(
                        lease_id,
                        LeaseData {
                            status: LeaseState::Terminated,
                            pending_extension_id: None,
                            ..v.leases[lease_id]
                        },
                    ).with_lease_history(
                        lease_id,
                        lease_entry(lease_id, LeaseAction::Terminated, lessee, env.timestamp),
                    )
                },
            },
    {
        if !env.require_auth(lessee) {
            return Err(MarketError::NotAuthorized);
        }
        if lease_id == 0 {
            return Err(MarketError::InvalidLeaseId);
        }
        let lease = match get_lease(self, lease_id) {
            None => return Err(MarketError::LeaseNotFound),
            Some(l) => l,
        };
        if lease.lessee != lessee {
            return Err(MarketError::Unauthorized);
        }
        if lease.status != LeaseState::Active {
            return Err(MarketError::LeaseNotActive);
        }
        let now = env.timestamp;
        if now >= lease.end_time {
            return Err(MarketError::LeaseEnded);
        }
        let config = get_lease_config(self);
        let remaining_seconds = lease.end_time - now;
        let remaining_value = if lease.duration_seconds > 0 {
            match checked_mul_div(
                lease.total_value,
                remaining_seconds as i128,
                lease.duration_seconds as i128,
            ) {
                Some(v) => v,
                None => return Err(MarketError::Overflow),
            }
        } else {
            0
        };
        let penalty = match checked_mul_div(
            remaining_value,
            config.early_termination_penalty_bps as i128,
            10000,
        ) {
            Some(p) => p,
            None => return Err(MarketError::Overflow),
        };
        if termination_fee_paid < penalty {
            return Err(MarketError::InsufficientTerminationFee);
        }
        if let Err(e) = get_payment_token(self) {
            return Err(e);
        }
        let refund = match lease.deposit_amount.checked_sub(penalty) {
            Some(d) => if d < 0 {
                0
            } else {
                d
            },
            None => return Err(MarketError::Overflow),
        };
        let kept = match lease.deposit_amount.checked_sub(refund) {
            Some(k) => k,
            None => return Err(MarketError::Overflow),
        };
        let to_lessor = match kept.checked_add(termination_fee_paid) {
            Some(x) => x,
            None => return Err(MarketError::Overflow),
        };
        let mut transfers: Vec<Transfer> = Vec::new();
        if termination_fee_paid > 0 {
            transfers.push(
                Transfer { from: lessee, to: env.current_contract, amount: termination_fee_paid },
            );
        }
        transfers.push(Transfer { from: env.current_contract, to: lease.lessor, amount: to_lessor });
        if refund > 0 {
            transfers.push(Transfer { from: env.current_contract, to: lessee, amount: refund });
        }
        self.leases.insert(
            lease_id,
            LeaseData { status: LeaseState::Terminated, pending_extension_id: None, ..lease },
        );
        add_lease_history(
            self,
            lease_id,
            LeaseHistoryEntry {
                lease_id,
                action: LeaseAction::Terminated,
                actor: lessee,
                timestamp: now,
            },
        );
        assert(transfers@ =~= old(self)@.termination_transfers(
            env,
            lease_id,
            lessee,
            termination_fee_paid,
        ));
        Ok(transfers)
    }

    /// Anyone settles an active (or extension-requested) lease past its end:
    /// the deposit goes back to the lessee and the lease is terminated.
    /// Returns the token transfers, in order.
    pub fn settle_lease_expiry(&mut self, env: &Context, lease_id: u64) -> (r: Result<
        Vec<Transfer>,
        MarketError,
    >)
        ensures
            match r {
                Err(e) => old(self)@.settle_expiry_check(env, lease_id) == Err::<(), MarketError>(e)
                    && final(self)@ == old(self)@,
                Ok(t) => {
                    let v = old(self)@;
                    let l = v.leases[lease_id];
                    &&& v.settle_expiry_check(env, lease_id) is Ok
                    &&& t@ == seq![
                        Transfer { from: env.current_contract, to: l.lessee, amount: l.deposit_amount },
                    ]
                    &&& final(self)@ == v.with_lease(
                        lease_id,
                        LeaseData { status: LeaseState::Terminated, pending_extension_id: None, ..l },
                    ).with_lease_history(
                        lease_id,
                        lease_entry(lease_id, LeaseAction::Expired, env.current_contract, env.timestamp),
                    )
                },
            },
    {
        let lease = match get_lease(self, lease_id) {
            None => return Err(MarketError::LeaseNotFound),
            Some(l) => l,
        };
        if lease.status != LeaseState::Active && lease.status != LeaseState::ExtensionRequested {
            return Err(MarketError::LeaseNotActive);
        }
        let now = env.timestamp;
        if now < lease.end_time {
            return Err(MarketError::LeaseNotExpired);
        }
        if let Err(e) = get_payment_token(self) {
            return Err(e);
        }
        let mut transfers: Vec<Transfer> = Vec::new();
        transfers.push(
            Transfer { from: env.current_contract, to: lease.lessee, amount: lease.deposit_amount },
        );
        self.leases.insert(
            lease_id,
            LeaseData { status: LeaseState::Terminated, pending_extension_id: None, ..lease },
        );
        add_lease_history(
            self,
            lease_id,
            LeaseHistoryEntry {
                lease_id,
                action: LeaseAction::Expired,
                actor: env.current_contract,
                timestamp: now,
            },
        );
        Ok(transfers)
    }

    /// The lessee of an active lease consents (or not) to its renewal.
    pub fn set_lease_renewal_consent(
        &mut self,
        env: &Context,
        lease_id: u64,
        lessee: AccountId,
        consent: bool,
    ) -> (r: Result<(), MarketError>)
        ensures
            r == old(self)@.lease_flag_check(env, lease_id, lessee, true),
            r is Err ==> final(self)@ == old(self)@,
            r is Ok ==> final(self)@ == old(self)@.with_lease(
                lease_id,
                LeaseData { lessee_consent_for_renewal: consent, ..old(self)@.leases[lease_id] },
            ),
    {
        if !env.require_auth(lessee) {
            return Err(MarketError::NotAuthorized);
        }
        let lease = match get_lease(self, lease_id) {
            None => return Err(MarketError::LeaseNotFound),
            Some(l) => l,
        };
        if lease.lessee != lessee {
            return Err(MarketError::Unauthorized);
        }
        if lease.status != LeaseState::Active {
            return Err(MarketError::LeaseNotActive);
        }
        self.leases.insert(lease_id, LeaseData { lessee_consent_for_renewal: consent, ..lease });
        Ok(())
    }

    /// The lessor of an active lease turns automatic renewal on or off.
    pub fn set_lease_auto_renew(
        &mut self,
        env: &Context,
        lease_id: u64,
        lessor: AccountId,
        auto_renew: bool,
    ) -> (r: Result<(), MarketError>)
        ensures
            r == old(self)@.lease_flag_check(env, lease_id, lessor, false),
            r is Err ==> final(self)@ == old(self)@,
            r is Ok ==> final(self)@ == old(self)@.with_lease(
                lease_id,
                LeaseData { auto_renew, ..old(self)@.leases[lease_id] },
            ),
    {
        if !env.require_auth(lessor) {
            return Err(MarketError::NotAuthorized);
        }
        let lease = match get_lease(self, lease_id) {
            None => return Err(MarketError::LeaseNotFound),
            Some(l) => l,
        };
        if lease.lessor != lessor {
            return Err(MarketError::Unauthorized);
        }
        if lease.status != LeaseState::Active {
            return Err(MarketError::LeaseNotActive);
        }
        self.leases.insert(lease_id, LeaseData { auto_renew, ..lease });
        Ok(())
    }

    /// Renews a lease past its end when the lessor enabled auto-renewal and the
    /// lessee consented: the old lease is marked renewed and a new active lease
    /// with the same terms (keeping the deposit) runs for the same duration from
    /// now. Returns the new lease id.
    pub fn process_lease_renewal(&mut self, env: &Context, lease_id: u64) -> (r: Result<
        u64,
        MarketError,
    >)
        ensures
            match r {
                Err(e) => old(self)@.renewal_check(env, lease_id) == Err::<(), MarketError>(e)
                    && final(self)@ == old(self)@,
                Ok(new_id) => {
                    let v = old(self)@;
                    let l = v.leases[lease_id];
                    &&& v.renewal_check(env, lease_id) is Ok
                    &&& new_id == v.lease_counter + 1
                    &&& final(self)@ == (MarketView { lease_counter: new_id, ..v }).with_lease(
                        lease_id,
                        LeaseData { status: LeaseState::Renewed, pending_extension_id: None, ..l },
                    ).with_lease(
                        new_id,
                        LeaseData {
                            lease_id: new_id,
                            start_time: env.timestamp,
                            end_time: (env.timestamp + l.duration_seconds) as u64,
                            lessee_consent_for_renewal: false,
                            status: LeaseState::Active,
                            pending_extension_id: None,
                            ..l
                        },
                    ).with_lessee_lease(l.lessee, new_id).with_lessor_lease(
                        l.lessor,
                        new_id,
                    ).with_lease_history(
                        lease_id,
                        lease_entry(lease_id, LeaseAction::Renewed, env.current_contract, env.timestamp),
                    )
                },
            },
    {
        let old_lease = match get_lease(self, lease_id) {
            None => return Err(MarketError::LeaseNotFound),
            Some(l) => l,
        };
        if old_lease.status != LeaseState::Active && old_lease.status
            != LeaseState::ExtensionRequested {
            return Err(MarketError::LeaseNotActive);
        }
        let now = env.timestamp;
        if now < old_lease.end_time {
            return Err(MarketError::LeaseNotExpired);
        }
        if !old_lease.auto_renew {
            return Err(MarketError::AutoRenewOff);
        }
        if !old_lease.lessee_consent_for_renewal {
            return Err(MarketError::NoRenewalConsent);
        }
        if self.lease_counter == u64::MAX {
            return Err(MarketError::Overflow);
        }
        let new_end_time = match now.checked_add(old_lease.duration_seconds) {
            Some(t) => t,
            None => return Err(MarketError::Overflow),
        };
        let new_lease_id = match increment_lease_counter(self) {
            Ok(id) => id,
            Err(e) => return Err(e),
        };
        self.leases.insert(
            lease_id,
            LeaseData { status: LeaseState::Renewed, pending_extension_id: None, ..old_lease },
        );
        self.leases.insert(
            new_lease_id,
            LeaseData {
                lease_id: new_lease_id,
                start_time: now,
                end_time: new_end_time,
                lessee_consent_for_renewal: false,
                status: LeaseState::Active,
                pending_extension_id: None,
                ..old_lease
            },
        );
        lessee_leases_append(self, old_lease.lessee, new_lease_id);
        lessor_leases_append(self, old_lease.lessor, new_lease_id);
        add_lease_history(
            self,
            lease_id,
            LeaseHistoryEntry {
                lease_id,
                action: LeaseAction::Renewed,
                actor: env.current_contract,
                timestamp: now,
            },
        );
        Ok(new_lease_id)
    }

    /// The admin sets the lease deposit and early-termination penalty (each at most 100 %).
    pub fn set_lease_config(
        &mut self,
        env: &Context,
        admin: AccountId,
        deposit_bps: u32,
        early_termination_penalty_bps: u32,
    ) -> (r: Result<(), MarketError>)
        ensures
            old(self)@.admin is None ==> r == Err::<(), MarketError>(MarketError::NotInitialized),
            old(self)@.admin is Some && !env.authorizes(admin) ==> r == Err::<(), MarketError>(
                MarketError::NotAuthorized,
            ),
            old(self)@.admin is Some && env.authorizes(admin) && old(self)@.admin != Some(admin)
                ==> r == Err::<(), MarketError>(MarketError::Unauthorized),
            old(self)@.admin == Some(admin) && env.authorizes(admin) && deposit_bps > 10000 ==> r
                == Err::<(), MarketError>(MarketError::DepositBpsTooHigh),
            old(self)@.admin == Some(admin) && env.authorizes(admin) && deposit_bps <= 10000
                && early_termination_penalty_bps > 10000 ==> r == Err::<(), MarketError>(
                MarketError::PenaltyBpsTooHigh,
            ),
            r is Ok <==> old(self)@.admin == Some(admin) && env.authorizes(admin) && deposit_bps
                <= 10000 && early_termination_penalty_bps <= 10000,
            r is Err ==> final(self)@ == old(self)@,
            r is Ok ==> final(self)@ == (MarketView {
                lease_config: Some(LeaseConfig { deposit_bps, early_termination_penalty_bps }),
                ..old(self)@
            }),
    {
        let current = match self.admin {
            None => return Err(MarketError::NotInitialized),
            Some(a) => a,
        };
        if !env.require_auth(admin) {
            return Err(MarketError::NotAuthorized);
        }
        if admin != current {
            return Err(MarketError::Unauthorized);
        }
        if deposit_bps > 10000 {
            return Err(MarketError::DepositBpsTooHigh);
        }
        if early_termination_penalty_bps > 10000 {
            return Err(MarketError::PenaltyBpsTooHigh);
        }
        set_lease_config(self, LeaseConfig { deposit_bps, early_termination_penalty_bps });
        Ok(())
    }

    /// The lease `lease_id`, if stored.
    pub fn get_lease_by_id(&self, lease_id: u64) -> (r: Option<LeaseData>)
        ensures
            r == if self@.leases.contains_key(lease_id) {
                Some(self@.leases[lease_id])
            } else {
                None::<LeaseData>
            },
    {
        get_lease(self, lease_id)
    }

    /// The active leases of `address`, as `active_leases_of` lists them.
    pub fn get_active_leases(&self, address: AccountId) -> (out: Vec<LeaseData>)
        ensures
            out@ == self@.active_leases_of(address),
    {
        let lessee_ids = get_lessee_lease_ids(self, address);
        let lessor_ids = get_lessor_lease_ids(self, address);
        let ghost v = self@;
        let mut out: Vec<LeaseData> = Vec::new();
        let n = lessee_ids.len();
        let mut i: usize = 0;
        while i < n
            invariant
                v == self@,
                n == lessee_ids@.len(),
                i <= n,
                out@ == v.active_among(lessee_ids@.subrange(0, i as int)),
            decreases n - i,
        {
            let id = lessee_ids[i];
            assert(lessee_ids@.subrange(0, i + 1).drop_last() =~= lessee_ids@.subrange(0, i as int));
            if let Some(lease) = get_lease(self, id) {
                if lease.status == LeaseState::Active {
                    out.push(lease);
                }
            }
            i = i + 1;
        }
        assert(lessee_ids@.subrange(0, n as int) =~= lessee_ids@);
        let ghost base = out@;
        let m = lessor_ids.len();
        let mut j: usize = 0;
        while j < m
            invariant
                v == self@,
                m == lessor_ids@.len(),
                j <= m,
                out@ == v.add_new_active(base, lessor_ids@.subrange(0, j as int)),
            decreases m - j,
        {
            let id = lessor_ids[j];
            assert(lessor_ids@.subrange(0, j + 1).drop_last() =~= lessor_ids@.subrange(0, j as int));
            if let Some(lease) = get_lease(self, id) {
                if lease.status == LeaseState::Active {
                    let mut found = false;
                    let k = out.len();
                    let mut x: usize = 0;
                    while x < k
                        invariant
                            k == out@.len(),
                            x <= k,
                            found == (exists|y: int| 0 <= y < x && out@[y].lease_id == lease.lease_id),
                        decreases k - x,
                    {
                        if out[x].lease_id == lease.lease_id {
                            found = true;
                        }
                        x = x + 1;
                    }
                    if !found {
                        out.push(lease);
                    }
                }
            }
            j = j + 1;
        }
        assert(lessor_ids@.subrange(0, m as int) =~= lessor_ids@);
        out
    }

    /// The history of lease `lease_id`, oldest first.
    pub fn get_lease_history(&self, lease_id: u64) -> (out: Vec<LeaseHistoryEntry>)
        ensures
            out@ == self@.lease_history_of(lease_id),
    {
        let mut out: Vec<LeaseHistoryEntry> = Vec::new();
        match self.lease_history.get(&lease_id) {
            None => {},
            Some(h) => {
                let n = h.len();
                let mut i: usize = 0;
                while i < n
                    invariant
                        n == h@.len(),
                        i <= n,
                        out@ == h@.subrange(0, i as int),
                    decreases n - i,
                {
                    out.push(h[i]);
                    i = i + 1;
                }
                assert(out@ =~= h@);
            },
        }
        out
    }
}

/// An early termination pays out exactly what it takes in: the deposit refund
/// and the lessor's share add up to the deposit held plus the fee paid; the
/// refund is never negative and, for a non-negative deposit and penalty, never
/// more than the deposit.
pub proof fn termination_conserves_funds(deposit: i128, penalty: i128, fee: i128)
    requires
        deposit_refund(deposit, penalty) is Some,
        lessor_share(deposit, deposit_refund(deposit, penalty).unwrap(), fee) is Some,
    ensures
        ({
            let refund = deposit_refund(deposit, penalty).unwrap();
            let to_lessor = lessor_share(deposit, refund, fee).unwrap();
            &&& refund + to_lessor == deposit + fee
            &&& 0 <= refund
            &&& 0 <= deposit && 0 <= penalty ==> refund <= deposit
        }),
{
}

/// The termination penalty is at most the agreed share of the lease's remaining
/// value, and that value never exceeds the lease's total value.
pub proof fn penalty_bounded_by_remaining_value(l: LeaseData, now: u64, bps: u32)
    requires
        0 <= l.total_value,
        bps <= 10000,
        l.end_time >= now ==> l.end_time - now <= l.duration_seconds,
    ensures
        remaining_value(l, now) matches Some(rv) ==> 0 <= rv <= l.total_value,
        termination_penalty(l, now, bps) matches Some(p) ==> 0 <= p <= remaining_value(l, now).unwrap(),
{
    let remaining: int = if l.end_time >= now {
        l.end_time - now
    } else {
        0
    };
    if l.duration_seconds > 0 {
        assert(0 <= (l.total_value * remaining) / (l.duration_seconds as int) <= l.total_value)
            by (nonlinear_arith)
            requires
                0 <= l.total_value,
                0 <= remaining <= l.duration_seconds,
                l.duration_seconds > 0,
        ;
    }
    if remaining_value(l, now) is Some {
        let rv = remaining_value(l, now).unwrap();
        assert(0 <= (rv * bps) / 10000 <= rv) by (nonlinear_arith)
            requires
                0 <= rv,
                bps <= 10000,
        ;
    }
}

/// The active leases among `ids` are exactly the records of the ids that are
/// active, kept in the order of `ids`.
pub proof fn active_among_is_filter(v: MarketView, ids: Seq<u64>)
    ensures
        v.active_among(ids) == ids.filter(|id: u64| v.is_active_lease(id)).map_values(
            |id: u64| v.leases[id],
        ),
    decreases ids.len(),
{
    reveal_with_fuel(Seq::filter, 1);
    if ids.len() > 0 {
        active_among_is_filter(v, ids.drop_last());
        let f = ids.drop_last().filter(|id: u64| v.is_active_lease(id));
        if v.is_active_lease(ids.last()) {
            assert(f.push(ids.last()).map_values(|id: u64| v.leases[id]) =~= f.map_values(
                |id: u64| v.leases[id],
            ).push(v.leases[ids.last()]));
        }
    }
}

/// `x` is the record of an active lease whose id occurs in `ids`.
pub open spec fn record_of_active_in(v: MarketView, ids: Seq<u64>, x: LeaseData) -> bool {
    exists|k: int| 0 <= k < ids.len() && v.is_active_lease(ids[k]) && x == v.leases[ids[k]]
}

/// Some element of `out` carries lease id `lease_id`.
pub open spec fn lists_lease_id(out: Seq<LeaseData>, lease_id: u64) -> bool {
    exists|i: int| 0 <= i < out.len() && out[i].lease_id == lease_id
}

/// `add_new_active(acc, ids)` keeps `acc` as its prefix; what follows are
/// records of active ids of `ids`; every active id of `ids` has a record with
/// its lease id in the result; and no appended record shares its lease id with
/// another element.
pub proof fn add_new_active_facts(v: MarketView, acc: Seq<LeaseData>, ids: Seq<u64>)
    ensures
        acc.len() <= v.add_new_active(acc, ids).len(),
        v.add_new_active(acc, ids).subrange(0, acc.len() as int) == acc,
        forall|i: int|
            acc.len() <= i < v.add_new_active(acc, ids).len() ==> record_of_active_in(
                v,
                ids,
                #[trigger] v.add_new_active(acc, ids)[i],
            ),
        forall|k: int|
            0 <= k < ids.len() && v.is_active_lease(#[trigger] ids[k]) ==> lists_lease_id(
                v.add_new_active(acc, ids),
                v.leases[ids[k]].lease_id,
            ),
        forall|i: int, j: int|
            acc.len() <= i < v.add_new_active(acc, ids).len() && 0 <= j < v.add_new_active(
                acc,
                ids,
            ).len() && i != j ==> #[trigger] v.add_new_active(acc, ids)[i].lease_id
                != #[trigger] v.add_new_active(acc, ids)[j].lease_id,
    decreases ids.len(),
{
    if ids.len() == 0 {
        assert(acc.subrange(0, acc.len() as int) =~= acc);
    } else {
        let init = ids.drop_last();
        add_new_active_facts(v, acc, init);
        let prev = v.add_new_active(acc, init);
        let r = v.add_new_active(acc, ids);
        let id = ids.last();
        let last = ids.len() - 1;
        let x = v.leases[id];
        assert(ids[last] == id);
        assert forall|i: int| acc.len() <= i < prev.len() implies record_of_active_in(
            v,
            ids,
            prev[i],
        ) by {
            assert(record_of_active_in(v, init, prev[i]));
            let k = choose|k: int|
                0 <= k < init.len() && v.is_active_lease(init[k]) && prev[i] == v.leases[init[k]];
            assert(ids[k] == init[k]);
        }
        assert forall|k: int| 0 <= k < last && v.is_active_lease(#[trigger] ids[k]) implies lists_lease_id(
            prev,
            v.leases[ids[k]].lease_id,
        ) by {
            assert(init[k] == ids[k]);
        }
        if v.is_active_lease(id) && !lists_lease_id(prev, x.lease_id) {
            assert(r == prev.push(x));
            assert(r.subrange(0, acc.len() as int) =~= prev.subrange(0, acc.len() as int));
            assert forall|i: int| acc.len() <= i < r.len() implies record_of_active_in(
                v,
                ids,
                #[trigger] r[i],
            ) by {
                if i < prev.len() {
                    assert(r[i] == prev[i]);
                } else {
                    assert(r[i] == v.leases[ids[last]]);
                }
            }
            assert forall|k: int| 0 <= k < ids.len() && v.is_active_lease(#[trigger] ids[k]) implies lists_lease_id(
                r,
                v.leases[ids[k]].lease_id,
            ) by {
                if k < last {
                    let i = choose|i: int|
                        0 <= i < prev.len() && prev[i].lease_id == v.leases[ids[k]].lease_id;
                    assert(r[i] == prev[i]);
                } else {
                    assert(r[prev.len() as int] == x);
                }
            }
            assert forall|i: int, j: int|
                acc.len() <= i < r.len() && 0 <= j < r.len() && i != j implies #[trigger] r[i].lease_id
                != #[trigger] r[j].lease_id by {
                if i < prev.len() && j < prev.len() {
                    assert(r[i] == prev[i] && r[j] == prev[j]);
                } else if i == prev.len() {
                    assert(r[j] == prev[j]);
                    assert(!(prev[j].lease_id == x.lease_id));
                } else {
                    assert(r[i] == prev[i]);
                    assert(!(prev[i].lease_id == x.lease_id));
                }
            }
        } else {
            assert(r == prev);
            assert forall|k: int| 0 <= k < ids.len() && v.is_active_lease(#[trigger] ids[k]) implies lists_lease_id(
                r,
                v.leases[ids[k]].lease_id,
            ) by {
                if k == last {
                    assert(lists_lease_id(prev, x.lease_id));
                }
            }
        }
    }
}

/// What `get_active_leases` lists for `a`: first the records of the active
/// leases recorded for `a` as lessee, in that order; then records of active
/// leases recorded for `a` as lessor, each with a lease id that occurs nowhere
/// else in the list; and every active lease recorded for `a` as lessor is
/// listed under its lease id.
pub proof fn active_leases_characterized(v: MarketView, a: AccountId)
    ensures
        ({
            let out = v.active_leases_of(a);
            let lessee_part = v.lessee_ids(a).filter(|id: u64| v.is_active_lease(id)).map_values(
                |id: u64| v.leases[id],
            );
            let lessors = v.lessor_ids(a);
            &&& lessee_part.len() <= out.len()
            &&& out.subrange(0, lessee_part.len() as int) == lessee_part
            &&& forall|i: int|
                lessee_part.len() <= i < out.len() ==> record_of_active_in(v, lessors, #[trigger] out[i])
            &&& forall|k: int|
                0 <= k < lessors.len() && v.is_active_lease(#[trigger] lessors[k]) ==> lists_lease_id(
                    out,
                    v.leases[lessors[k]].lease_id,
                )
            &&& forall|i: int, j: int|
                lessee_part.len() <= i < out.len() && 0 <= j < out.len() && i != j
                    ==> #[trigger] out[i].lease_id != #[trigger] out[j].lease_id
        }),
{
    active_among_is_filter(v, v.lessee_ids(a));
    add_new_active_facts(v, v.active_among(v.lessee_ids(a)), v.lessor_ids(a));
}

/// The early-termination penalty is `bps` basis points of the value of the
/// unused lease time, `total_value * (end_time - now) / duration_seconds`, both
/// divisions rounded down (on a non-negative value, wherever the products fit).
pub proof fn termination_penalty_on_unused_time(l: LeaseData, now: u64, bps: u32)
    requires
        l.duration_seconds > 0,
        now <= l.end_time,
        0 <= l.total_value,
        l.total_value * (l.end_time - now) <= i128::MAX,
        (l.total_value * (l.end_time - now) / (l.duration_seconds as int)) * bps <= i128::MAX,
    ensures
        termination_penalty(l, now, bps) == Some(
            ((l.total_value * (l.end_time - now) / (l.duration_seconds as int)) * bps / 10000) as i128,
        ),
{
    let rem: int = l.end_time - now;
    let d: int = l.duration_seconds as int;
    let p: int = l.total_value * rem;
    assert(0 <= p) by (nonlinear_arith)
        requires
            p == l.total_value * rem,
            0 <= l.total_value,
            0 <= rem,
    ;
    let q: int = p / d;
    assert(0 <= q <= p) by (nonlinear_arith)
        requires
            q == p / d,
            0 <= p,
            d > 0,
    ;
    assert(0 <= q * bps) by (nonlinear_arith)
        requires
            0 <= q,
    ;
    assert(remaining_value(l, now) == Some(q as i128));
}

/// Leaving later never costs more: for `t1 <= t2 <= end_time` the penalty at
/// `t2` is at most the penalty at `t1`.
pub proof fn termination_penalty_never_rises(l: LeaseData, t1: u64, t2: u64, bps: u32)
    requires
        l.duration_seconds > 0,
        t1 <= t2 <= l.end_time,
        0 <= l.total_value,
        l.total_value * (l.end_time - t1) <= i128::MAX,
        (l.total_value * (l.end_time - t1) / (l.duration_seconds as int)) * bps <= i128::MAX,
    ensures
        termination_penalty(l, t2, bps) is Some,
        termination_penalty(l, t2, bps).unwrap() <= termination_penalty(l, t1, bps).unwrap(),
{
    let d: int = l.duration_seconds as int;
    let r1: int = l.end_time - t1;
    let r2: int = l.end_time - t2;
    let tv: int = l.total_value as int;
    let b: int = bps as int;
    assert(0 <= tv * r2 <= tv * r1) by (nonlinear_arith)
        requires
            0 <= tv,
            0 <= r2 <= r1,
    ;
    assert(0 <= (tv * r2) / d <= (tv * r1) / d) by (nonlinear_arith)
        requires
            0 <= tv * r2 <= tv * r1,
            d > 0,
    {
        vstd::arithmetic::div_mod::lemma_div_is_ordered(tv * r2, tv * r1, d);
    }
    assert(((tv * r2) / d) * b <= ((tv * r1) / d) * b) by (nonlinear_arith)
        requires
            0 <= (tv * r2) / d <= (tv * r1) / d,
            0 <= b,
    ;
    assert(((tv * r2) / d) * b / 10000 <= ((tv * r1) / d) * b / 10000) by (nonlinear_arith)
        requires
            0 <= ((tv * r2) / d) * b <= ((tv * r1) / d) * b,
    {
        vstd::arithmetic::div_mod::lemma_div_is_ordered(((tv * r2) / d) * b, ((tv * r1) / d) * b, 10000);
    }
    termination_penalty_on_unused_time(l, t1, bps);
    termination_penalty_on_unused_time(l, t2, bps);
}

/// Ending a lease at its very start costs the full share: when the lease
/// window is its whole duration, the penalty at `start_time` is `bps` basis
/// points of `total_value`.
pub proof fn termination_penalty_at_start(l: LeaseData, bps: u32)
    requires
        l.duration_seconds > 0,
        l.end_time - l.start_time == l.duration_seconds,
        0 <= l.total_value,
        l.total_value * l.duration_seconds <= i128::MAX,
        l.total_value * bps <= i128::MAX,
    ensures
        termination_penalty(l, l.start_time, bps) == Some((l.total_value * bps / 10000) as i128),
{
    let d: int = l.duration_seconds as int;
    let tv: int = l.total_value as int;
    assert((tv * d) / d == tv) by (nonlinear_arith)
        requires
            d > 0,
    ;
    termination_penalty_on_unused_time(l, l.start_time, bps);
}

/// An accepted early termination pays at least the penalty on the unused lease
/// time: the fee covers `penalty_bps` of `total_value * (end_time - now) /
/// duration_seconds` (both rounded down).
pub proof fn early_termination_pays_penalty_on_unused_time(
    v: MarketView,
    env: &Context,
    lease_id: u64,
    lessee: AccountId,
    fee_paid: i128,
)
    requires
        v.early_termination_check(env, lease_id, lessee, fee_paid) is Ok,
        v.leases[lease_id].duration_seconds > 0,
        0 <= v.leases[lease_id].total_value,
    ensures
        ({
            let l = v.leases[lease_id];
            let bps = v.lease_cfg().early_termination_penalty_bps;
            fee_paid >= (l.total_value * (l.end_time - env.timestamp) / (l.duration_seconds as int))
                * bps / 10000
        }),
{
    let l = v.leases[lease_id];
    let now = env.timestamp;
    let bps = v.lease_cfg().early_termination_penalty_bps;
    let rem: int = l.end_time - now;
    assert(remaining_value(l, now) is Some);
    assert(l.total_value * rem <= i128::MAX);
    let q: int = (l.total_value * rem) / (l.duration_seconds as int);
    assert(remaining_value(l, now) == Some(q as i128));
    assert(q * bps <= i128::MAX);
    termination_penalty_on_unused_time(l, now, bps);
}

/// The deposit of a new lease follows the lease configuration in force: with
/// `deposit_bps` configured (as `set_lease_config` stores it), a lease of a
/// listing priced `price` takes `price * deposit_bps / 10000` (rounded down),
/// and without a configuration the default `DEFAULT_LEASE_DEPOSIT_BPS`.
pub proof fn lease_deposit_follows_config(
    v: MarketView,
    listing_id: u64,
    deposit_bps: u32,
    penalty_bps: u32,
)
    requires
        0 <= v.listings[listing_id].price,
        v.listings[listing_id].price * deposit_bps <= i128::MAX,
        v.listings[listing_id].price * DEFAULT_LEASE_DEPOSIT_BPS <= i128::MAX,
    ensures
        (MarketView {
            lease_config: Some(
                LeaseConfig { deposit_bps, early_termination_penalty_bps: penalty_bps },
            ),
            ..v
        }).lease_deposit(listing_id) == Some(
            (v.listings[listing_id].price * deposit_bps / 10000) as i128,
        ),
        (MarketView { lease_config: None, ..v }).lease_deposit(listing_id) == Some(
            (v.listings[listing_id].price * DEFAULT_LEASE_DEPOSIT_BPS / 10000) as i128,
        ),
{
    let p: int = v.listings[listing_id].price as int;
    assert(0 <= p * deposit_bps) by (nonlinear_arith)
        requires
            0 <= p,
    ;
    assert(0 <= p * DEFAULT_LEASE_DEPOSIT_BPS) by (nonlinear_arith)
        requires
            0 <= p,
    ;
}

/// A lease is renewed only with both parties' agreement: an accepted renewal
/// has the lessor's auto-renew flag and the lessee's renewal consent set, and
/// comes at or after the end of the lease.
pub proof fn renewal_needs_both_parties(v: MarketView, env: &Context, lease_id: u64)
    requires
        v.renewal_check(env, lease_id) is Ok,
    ensures
        v.leases.contains_key(lease_id),
        v.leases[lease_id].auto_renew,
        v.leases[lease_id].lessee_consent_for_renewal,
        env.timestamp >= v.leases[lease_id].end_time,
{
}

} // verus!
