use vstd::prelude::*;
use crate::context::{AccountId, Context};
use crate::types::{Listing, ListingType, RoyaltyInfo, MAX_ROYALTY_FEE, PRICE_UPPER_BOUND};
use super::storage::{
    get_approval_config, set_admin, set_payment_token, MarketError, MarketView, Marketplace,
};

verus! {

/// The listing type numbered `t` (0 sale, 1 lease, 2 auction).
pub open spec fn listing_type_of(t: u32) -> ListingType {
    if t == 0 {
        ListingType::Sale
    } else if t == 1 {
        ListingType::Lease
    } else {
        ListingType::Auction
    }
}

impl MarketView {
    /// The first reason to refuse creating a listing, if any.
    pub open spec fn create_listing_check(
        self,
        env: &Context,
        agent_id: u64,
        seller: AccountId,
        listing_type: u32,
        price: i128,
    ) -> Result<(), MarketError> {
        if !env.authorizes(seller) {
            Err(MarketError::NotAuthorized)
        } else if agent_id == 0 {
            Err(MarketError::InvalidAgentId)
        } else if listing_type > 2 {
            Err(MarketError::InvalidListingType)
        } else if price <= 0 {
            Err(MarketError::NonPositivePrice)
        } else if price > PRICE_UPPER_BOUND {
            Err(MarketError::PriceTooHigh)
        } else if self.listing_counter == u64::MAX {
            Err(MarketError::Overflow)
        } else {
            Ok(())
        }
    }

    /// The first reason to refuse buying listing `listing_id`, if any.
    pub open spec fn buy_agent_check(self, env: &Context, listing_id: u64, buyer: AccountId) -> Result<
        (),
        MarketError,
    > {
        if !env.authorizes(buyer) {
            Err(MarketError::NotAuthorized)
        } else if listing_id == 0 {
            Err(MarketError::InvalidListingId)
        } else if !self.listings.contains_key(listing_id) {
            Err(MarketError::ListingNotFound)
        } else if !self.listings[listing_id].active {
            Err(MarketError::ListingNotActive)
        } else if self.listings[listing_id].price >= self.config().threshold {
            Err(MarketError::ApprovalRequired)
        } else {
            Ok(())
        }
    }

    /// The first reason to refuse cancelling listing `listing_id`, if any.
    pub open spec fn cancel_listing_check(self, env: &Context, listing_id: u64, seller: AccountId) -> Result<
        (),
        MarketError,
    > {
        if !env.authorizes(seller) {
            Err(MarketError::NotAuthorized)
        } else if listing_id == 0 {
            Err(MarketError::InvalidListingId)
        } else if !self.listings.contains_key(listing_id) {
            Err(MarketError::ListingNotFound)
        } else if self.listings[listing_id].seller != seller {
            Err(MarketError::Unauthorized)
        } else {
            Ok(())
        }
    }

    /// This view with listing `listing_id` deactivated.
    pub open spec fn with_listing_inactive(self, listing_id: u64) -> MarketView {
        MarketView {
            listings: self.listings.insert(
                listing_id,
                Listing { active: false, ..self.listings[listing_id] },
            ),
            ..self
        }
    }
}

impl Marketplace {
    /// One-time setup: `admin` becomes the admin and the listing counter starts at 0.
    pub fn init_contract(&mut self, env: &Context, admin: AccountId) -> (r: Result<(), MarketError>)
        ensures
            old(self)@.admin is Some ==> r == Err::<(), MarketError>(
                MarketError::AlreadyInitialized,
            ),
            old(self)@.admin is None && !env.authorizes(admin) ==> r == Err::<(), MarketError>(
                MarketError::NotAuthorized,
            ),
            r is Ok <==> old(self)@.admin is None && env.authorizes(admin),
            r is Err ==> final(self)@ == old(self)@,
            r is Ok ==> final(self)@ == (MarketView {
                admin: Some(admin),
                listing_counter: 0,
                ..old(self)@
            }),
    {
        if self.admin.is_some() {
            return Err(MarketError::AlreadyInitialized);
        }
        if !env.require_auth(admin) {
            return Err(MarketError::NotAuthorized);
        }
        set_admin(self, admin);
        self.listing_counter = 0;
        Ok(())
    }

    /// The current admin hands the admin role to `new_admin`.
    pub fn set_admin(&mut self, env: &Context, new_admin: AccountId) -> (r: Result<(), MarketError>)
        ensures
            old(self)@.admin is None ==> r == Err::<(), MarketError>(MarketError::NotInitialized),
            old(self)@.admin is Some && !env.authorizes(old(self)@.admin.unwrap()) ==> r == Err::<
                (),
                MarketError,
            >(MarketError::NotAuthorized),
            r is Ok <==> old(self)@.admin is Some && env.authorizes(old(self)@.admin.unwrap()),
            r is Err ==> final(self)@ == old(self)@,
            r is Ok ==> final(self)@ == (MarketView { admin: Some(new_admin), ..old(self)@ }),
    {
        let admin = match self.admin {
            None => return Err(MarketError::NotInitialized),
            Some(a) => a,
        };
        if !env.require_auth(admin) {
            return Err(MarketError::NotAuthorized);
        }
        set_admin(self, new_admin);
        Ok(())
    }

    /// The admin sets the payment token used for all transfers.
    pub fn set_payment_token(&mut self, env: &Context, admin: AccountId, token: AccountId) -> (r:
        Result<(), MarketError>)
        ensures
            !env.authorizes(admin) ==> r == Err::<(), MarketError>(MarketError::NotAuthorized),
            env.authorizes(admin) && old(self)@.admin is None ==> r == Err::<(), MarketError>(
                MarketError::NotInitialized,
            ),
            env.authorizes(admin) && old(self)@.admin is Some && old(self)@.admin != Some(admin)
                ==> r == Err::<(), MarketError>(MarketError::Unauthorized),
            r is Ok <==> env.authorizes(admin) && old(self)@.admin == Some(admin),
            r is Err ==> final(self)@ == old(self)@,
            r is Ok ==> final(self)@ == (MarketView { payment_token: Some(token), ..old(self)@ }),
    {
        if !env.require_auth(admin) {
            return Err(MarketError::NotAuthorized);
        }
        match self.admin {
            None => return Err(MarketError::NotInitialized),
            Some(a) => {
                if a != admin {
                    return Err(MarketError::Unauthorized);
                }
            },
        }
        set_payment_token(self, token);
        Ok(())
    }

    /// Lists agent `agent_id` for sale, lease or auction at a positive price of
    /// at most `PRICE_UPPER_BOUND`; the listing is active, numbered one past
    /// the listing counter.
    pub fn create_listing(
        &mut self,
        env: &Context,
        agent_id: u64,
        seller: AccountId,
        listing_type: u32,
        price: i128,
    ) -> (r: Result<u64, MarketError>)
        ensures
            match r {
                Err(e) => old(self)@.create_listing_check(env, agent_id, seller, listing_type, price)
                    == Err::<(), MarketError>(e) && final(self)@ == old(self)@,
                Ok(id) => {
                    &&& old(self)@.create_listing_check(env, agent_id, seller, listing_type, price) is Ok
                    &&& id == old(self)@.listing_counter + 1
                    &&& final(self)@ == (MarketView {
                        listing_counter: id,
                        listings: old(self)@.listings.insert(
                            id,
                            Listing {
                                listing_id: id,
                                agent_id,
                                seller,
                                price,
                                listing_type: listing_type_of(listing_type),
                                active: true,
                                created_at: env.timestamp,
                            },
                        ),
                        ..old(self)@
                    })
                },
            },
    {
        if !env.require_auth(seller) {
            return Err(MarketError::NotAuthorized);
        }
        if agent_id == 0 {
            return Err(MarketError::InvalidAgentId);
        }
        if listing_type > 2 {
            return Err(MarketError::InvalidListingType);
        }
        if price <= 0 {
            return Err(MarketError::NonPositivePrice);
        }
        if price > PRICE_UPPER_BOUND {
            return Err(MarketError::PriceTooHigh);
        }
        if self.listing_counter == u64::MAX {
            return Err(MarketError::Overflow);
        }
        let listing_id = self.listing_counter + 1;
        let kind = if listing_type == 0 {
            ListingType::Sale
        } else if listing_type == 1 {
            ListingType::Lease
        } else {
            ListingType::Auction
        };
        let listing = Listing {
            listing_id,
            agent_id,
            seller,
            price,
            listing_type: kind,
            active: true,
            created_at: env.timestamp,
        };
        self.listings.insert(listing_id, listing);
        self.listing_counter = listing_id;
        Ok(listing_id)
    }

    /// Buys an active listing priced below the approval threshold: the listing
    /// becomes inactive. Higher prices need `propose_sale`.
    pub fn buy_agent(&mut self, env: &Context, listing_id: u64, buyer: AccountId) -> (r: Result<
        (),
        MarketError,
    >)
        ensures
            r == old(self)@.buy_agent_check(env, listing_id, buyer),
            r is Err ==> final(self)@ == old(self)@,
            r is Ok ==> final(self)@ == old(self)@.with_listing_inactive(listing_id),
    {
        if !env.require_auth(buyer) {
            return Err(MarketError::NotAuthorized);
        }
        if listing_id == 0 {
            return Err(MarketError::InvalidListingId);
        }
        let listing = match self.listings.get(&listing_id) {
            None => return Err(MarketError::ListingNotFound),
            Some(l) => *l,
        };
        if !listing.active {
            return Err(MarketError::ListingNotActive);
        }
        let config = get_approval_config(self);
        if listing.price >= config.threshold {
            return Err(MarketError::ApprovalRequired);
        }
        self.listings.insert(listing_id, Listing { active: false, ..listing });
        Ok(())
    }

    /// The seller deactivates their listing.
    pub fn cancel_listing(&mut self, env: &Context, listing_id: u64, seller: AccountId) -> (r:
        Result<(), MarketError>)
        ensures
            r == old(self)@.cancel_listing_check(env, listing_id, seller),
            r is Err ==> final(self)@ == old(self)@,
            r is Ok ==> final(self)@ == old(self)@.with_listing_inactive(listing_id),
    {
        if !env.require_auth(seller) {
            return Err(MarketError::NotAuthorized);
        }
        if listing_id == 0 {
            return Err(MarketError::InvalidListingId);
        }
        let listing = match self.listings.get(&listing_id) {
            None => return Err(MarketError::ListingNotFound),
            Some(l) => *l,
        };
        if listing.seller != seller {
            return Err(MarketError::Unauthorized);
        }
        self.listings.insert(listing_id, Listing { active: false, ..listing });
        Ok(())
    }

    /// The listing `listing_id`, if stored.
    pub fn get_listing(&self, listing_id: u64) -> (r: Result<Option<Listing>, MarketError>)
        ensures
            listing_id == 0 ==> r == Err::<Option<Listing>, MarketError>(
                MarketError::InvalidListingId,
            ),
            listing_id != 0 ==> r == Ok::<Option<Listing>, MarketError>(
                if self@.listings.contains_key(listing_id) {
                    Some(self@.listings[listing_id])
                } else {
                    None
                },
            ),
    {
        if listing_id == 0 {
            return Err(MarketError::InvalidListingId);
        }
        match self.listings.get(&listing_id) {
            Some(l) => Ok(Some(*l)),
            None => Ok(None),
        }
    }

    /// Records that sales of agent `agent_id` pay `fee` basis points to `recipient`.
    pub fn set_royalty(
        &mut self,
        env: &Context,
        agent_id: u64,
        creator: AccountId,
        recipient: AccountId,
        fee: u32,
    ) -> (r: Result<(), MarketError>)
        ensures
            !env.authorizes(creator) ==> r == Err::<(), MarketError>(MarketError::NotAuthorized),
            env.authorizes(creator) && agent_id == 0 ==> r == Err::<(), MarketError>(
                MarketError::InvalidAgentId,
            ),
            env.authorizes(creator) && agent_id != 0 && fee > MAX_ROYALTY_FEE ==> r == Err::<
                (),
                MarketError,
            >(MarketError::RoyaltyTooHigh),
            r is Ok <==> env.authorizes(creator) && agent_id != 0 && fee <= MAX_ROYALTY_FEE,
            r is Err ==> final(self)@ == old(self)@,
            r is Ok ==> final(self)@ == (MarketView {
                royalties: old(self)@.royalties.insert(agent_id, RoyaltyInfo { recipient, fee }),
                ..old(self)@
            }),
    {
        if !env.require_auth(creator) {
            return Err(MarketError::NotAuthorized);
        }
        if agent_id == 0 {
            return Err(MarketError::InvalidAgentId);
        }
        if fee > MAX_ROYALTY_FEE {
            return Err(MarketError::RoyaltyTooHigh);
        }
        self.royalties.insert(agent_id, RoyaltyInfo { recipient, fee });
        Ok(())
    }

    /// The royalty of agent `agent_id`, if set.
    pub fn get_royalty(&self, agent_id: u64) -> (r: Result<Option<RoyaltyInfo>, MarketError>)
        ensures
            agent_id == 0 ==> r == Err::<Option<RoyaltyInfo>, MarketError>(
                MarketError::InvalidAgentId,
            ),
            agent_id != 0 ==> r == Ok::<Option<RoyaltyInfo>, MarketError>(
                if self@.royalties.contains_key(agent_id) {
                    Some(self@.royalties[agent_id])
                } else {
                    None
                },
            ),
    {
        if agent_id == 0 {
            return Err(MarketError::InvalidAgentId);
        }
        match self.royalties.get(&agent_id) {
            Some(r) => Ok(Some(*r)),
            None => Ok(None),
        }
    }
}

/// A listing is sold at most once: once deactivated by a sale (or a
/// cancellation), every purchase of it is refused.
pub proof fn sold_listing_not_sold_again(v: MarketView, env: &Context, listing_id: u64, buyer: AccountId)
    requires
        v.listings.contains_key(listing_id),
    ensures
        v.with_listing_inactive(listing_id).buy_agent_check(env, listing_id, buyer) is Err,
{
}

} // verus!
