use vstd::prelude::*;
use crate::context::{AccountId, Context};
use crate::types::{Auction, AuctionStatus, AuctionType, Transfer, PRICE_UPPER_BOUND};
use super::storage::{
    get_approval_config, get_auction, get_payment_token, increment_auction_counter, mul_div,
    checked_mul_div, set_auction, trunc_div, MarketError, MarketView, Marketplace,
};

verus! {

broadcast use vstd::std_specs::hash::group_hash_axioms;

/// Smallest raise over the current highest bid.
pub const MIN_BID_INCREMENT: i128 = 1000;
/// A bid this close to the end (in seconds) extends the auction by as much.
pub const BID_EXTENSION_SECONDS: u64 = 300;

/// `bid` split into the royalty at `fee` basis points (computed on the bid
/// read as an unsigned 128-bit number, rounded down) and the rest for the
/// seller, or `None` when a step leaves its integer type.
pub open spec fn sale_split(bid: i128, fee: u32) -> Option<(i128, i128)> {
    let x = bid as u128;
    if x * fee > u128::MAX {
        None
    } else {
        let royalty = ((x * fee) / 10000) as i128;
        if bid - royalty < i128::MIN {
            None
        } else {
            Some((royalty, (bid - royalty) as i128))
        }
    }
}

/// Computes `sale_split`.
pub fn split_sale(bid: i128, fee: u32) -> (r: Option<(i128, i128)>)
    ensures
        r == sale_split(bid, fee),
{
    let x = bid as u128;
    let product = match x.checked_mul(fee as u128) {
        Some(p) => p,
        None => return None,
    };
    let q = product / 10000;
    assert(q <= u128::MAX / 10000) by (nonlinear_arith)
        requires
            q == product / 10000,
    ;
    let royalty = q as i128;
    match bid.checked_sub(royalty) {
        Some(s) => Some((royalty, s)),
        None => None,
    }
}

/// The price of Dutch auction `a` at time `now`: the start price until the
/// start, the end price from the end on, and in between the start price less
/// the elapsed share of the price range (rounded toward zero).
pub open spec fn dutch_price(a: Auction, now: u64) -> Result<i128, MarketError> {
    if a.auction_type != AuctionType::Dutch {
        Err(MarketError::NotDutchAuction)
    } else if a.dutch_start_price is None || a.dutch_end_price is None
        || a.dutch_duration_seconds is None {
        Err(MarketError::MissingDutchConfig)
    } else {
        let start = a.dutch_start_price.unwrap();
        let end = a.dutch_end_price.unwrap();
        let duration = a.dutch_duration_seconds.unwrap();
        if now <= a.start_time {
            Ok(start)
        } else if now >= a.end_time {
            Ok(end)
        } else {
            let elapsed = now - a.start_time;
            let range = start - end;
            if range < i128::MIN || range > i128::MAX {
                Err(MarketError::Overflow)
            } else if range * elapsed < i128::MIN || range * elapsed > i128::MAX {
                Err(MarketError::Overflow)
            } else if duration == 0 {
                Err(MarketError::DivisionByZero)
            } else {
                let price = start - trunc_div(range * elapsed, duration as int);
                if price < i128::MIN || price > i128::MAX {
                    Err(MarketError::Overflow)
                } else {
                    Ok(price as i128)
                }
            }
        }
    }
}

/// Computes `dutch_price`.
pub fn compute_dutch_price(a: &Auction, now: u64) -> (r: Result<i128, MarketError>)
    ensures
        r == dutch_price(*a, now),
{
    if a.auction_type != AuctionType::Dutch {
        return Err(MarketError::NotDutchAuction);
    }
    let start = match a.dutch_start_price {
        Some(p) => p,
        None => return Err(MarketError::MissingDutchConfig),
    };
    let end = match a.dutch_end_price {
        Some(p) => p,
        None => return Err(MarketError::MissingDutchConfig),
    };
    let duration = match a.dutch_duration_seconds {
        Some(d) => d,
        None => return Err(MarketError::MissingDutchConfig),
    };
    let _price_decay: u32 = match a.dutch_price_decay {
        Some(d) => d,
        None => 0,
    };
    if now <= a.start_time {
        return Ok(start);
    }
    if now >= a.end_time {
        return Ok(end);
    }
    let elapsed = now - a.start_time;
    let range = match start.checked_sub(end) {
        Some(r) => r,
        None => return Err(MarketError::Overflow),
    };
    if duration == 0 {
        match range.checked_mul(elapsed as i128) {
            Some(_) => return Err(MarketError::DivisionByZero),
            None => return Err(MarketError::Overflow),
        }
    }
    let q = match checked_mul_div(range, elapsed as i128, duration as i128) {
        Some(q) => q,
        None => return Err(MarketError::Overflow),
    };
    match start.checked_sub(q) {
        Some(p) => Ok(p),
        None => Err(MarketError::Overflow),
    }
}

impl MarketView {
    /// The first reason settling auction `id` fails, if any; `resolving` is a
    /// settlement by `resolve_auction` (which refuses bids needing approval and
    /// refunds only English bids), otherwise an approved sale.
    pub open spec fn settle_auction_check(self, id: u64, resolving: bool) -> Result<(), MarketError> {
        if !self.auctions.contains_key(id) {
            Err(MarketError::AuctionNotFound)
        } else {
            let a = self.auctions[id];
            match a.highest_bidder {
                None => Ok(()),
                Some(w) => if a.highest_bid >= a.reserve_price {
                    if resolving && a.highest_bid >= self.config().threshold {
                        Err(MarketError::ApprovalRequired)
                    } else if a.agent_id == 0 {
                        Err(MarketError::InvalidAgentId)
                    } else if !self.royalties.contains_key(a.agent_id) {
                        Err(MarketError::RoyaltyNotFound)
                    } else if sale_split(a.highest_bid, self.royalties[a.agent_id].fee) is None {
                        Err(MarketError::Overflow)
                    } else if self.payment_token is None {
                        Err(MarketError::PaymentTokenNotSet)
                    } else {
                        Ok(())
                    }
                } else if (!resolving || a.auction_type == AuctionType::English)
                    && self.payment_token is None {
                    Err(MarketError::PaymentTokenNotSet)
                } else {
                    Ok(())
                },
            }
        }
    }

    /// The status auction `id` ends in: won when its highest bid meets the reserve.
    pub open spec fn settled_status(self, id: u64) -> AuctionStatus {
        let a = self.auctions[id];
        if a.highest_bidder is Some && a.highest_bid >= a.reserve_price {
            AuctionStatus::Won
        } else {
            AuctionStatus::Ended
        }
    }

    /// This view with auction `id` settled.
    pub open spec fn with_auction_settled(self, id: u64, resolving: bool) -> MarketView {
        MarketView {
            auctions: self.auctions.insert(
                id,
                Auction { status: self.settled_status(id), ..self.auctions[id] },
            ),
            ..self
        }
    }

    /// The transfers settling auction `id` makes: royalty and seller's share
    /// when the reserve is met, otherwise the refund of the highest bid (for an
    /// approved sale, or an English auction).
    pub open spec fn settlement_transfers(self, env: &Context, id: u64, resolving: bool) -> Seq<
        Transfer,
    > {
        let a = self.auctions[id];
        match a.highest_bidder {
            None => Seq::empty(),
            Some(w) => if a.highest_bid >= a.reserve_price {
                let info = self.royalties[a.agent_id];
                let split = sale_split(a.highest_bid, info.fee).unwrap();
                seq![
                    Transfer { from: env.current_contract, to: info.recipient, amount: split.0 },
                    Transfer { from: env.current_contract, to: a.seller, amount: split.1 },
                ]
            } else if !resolving || a.auction_type == AuctionType::English {
                seq![Transfer { from: env.current_contract, to: w, amount: a.highest_bid }]
            } else {
                Seq::empty()
            },
        }
    }

    /// The first reason to refuse creating an auction, if any.
    pub open spec fn create_auction_check(
        self,
        env: &Context,
        seller: AccountId,
        start_price: i128,
        duration: u64,
    ) -> Result<(), MarketError> {
        if !env.authorizes(seller) {
            Err(MarketError::NotAuthorized)
        } else if start_price <= 0 || start_price > PRICE_UPPER_BOUND {
            Err(MarketError::InvalidStartPrice)
        } else if duration == 0 {
            Err(MarketError::InvalidDuration)
        } else if self.auction_counter == u64::MAX {
            Err(MarketError::Overflow)
        } else if env.timestamp + duration > u64::MAX {
            Err(MarketError::Overflow)
        } else {
            Ok(())
        }
    }

    /// The smallest bid accepted on an auction whose highest bid is `highest`
    /// and minimum raise `bps` basis points of it (at least `MIN_BID_INCREMENT`).
    pub open spec fn min_bid(highest: i128, bps: u32) -> Option<i128> {
        match mul_div(highest, bps as i128, 10000) {
            None => None,
            Some(inc) => {
                let step = if inc > MIN_BID_INCREMENT {
                    inc
                } else {
                    MIN_BID_INCREMENT
                };
                if highest + step > i128::MAX {
                    None
                } else {
                    Some((highest + step) as i128)
                }
            },
        }
    }

    /// The end time of auction `a` after a bid at `now`: extended by
    /// `BID_EXTENSION_SECONDS` when fewer than that many seconds are left.
    pub open spec fn end_after_bid(a: Auction, now: u64) -> Option<u64> {
        if a.end_time - now < BID_EXTENSION_SECONDS {
            if a.end_time + BID_EXTENSION_SECONDS > u64::MAX {
                None
            } else {
                Some((a.end_time + BID_EXTENSION_SECONDS) as u64)
            }
        } else {
            Some(a.end_time)
        }
    }

    /// The first reason to refuse a bid, if any.
    pub open spec fn place_bid_check(
        self,
        env: &Context,
        auction_id: u64,
        bidder: AccountId,
        amount: i128,
    ) -> Result<(), MarketError> {
        if !env.authorizes(bidder) {
            Err(MarketError::NotAuthorized)
        } else if !self.auctions.contains_key(auction_id) {
            Err(MarketError::AuctionNotFound)
        } else {
            let a = self.auctions[auction_id];
            if a.status != AuctionStatus::Active {
                Err(MarketError::AuctionNotActive)
            } else if a.auction_type != AuctionType::English {
                Err(MarketError::NotEnglishAuction)
            } else if env.timestamp >= a.end_time {
                Err(MarketError::AuctionExpired)
            } else if Self::min_bid(a.highest_bid, a.min_bid_increment_bps) is None {
                Err(MarketError::Overflow)
            } else if amount < Self::min_bid(a.highest_bid, a.min_bid_increment_bps).unwrap() {
                Err(MarketError::BidTooLow)
            } else if self.payment_token is None {
                Err(MarketError::PaymentTokenNotSet)
            } else if Self::end_after_bid(a, env.timestamp) is None {
                Err(MarketError::Overflow)
            } else {
                Ok(())
            }
        }
    }

    /// The first reason `resolve_auction` refuses to settle auction `id`
    /// before settlement starts, if any.
    pub open spec fn resolve_check(self, env: &Context, id: u64) -> Result<(), MarketError> {
        if !self.auctions.contains_key(id) {
            Err(MarketError::AuctionNotFound)
        } else {
            let a = self.auctions[id];
            if a.status != AuctionStatus::Active {
                Err(MarketError::AuctionNotActive)
            } else if !((a.auction_type == AuctionType::English && env.timestamp >= a.end_time) || (
            a.auction_type == AuctionType::Dutch && a.highest_bidder is Some)) {
                Err(MarketError::AuctionNotEnded)
            } else {
                Ok(())
            }
        }
    }

    /// The first reason to refuse taking a Dutch auction's current price, if any.
    pub open spec fn accept_dutch_check(self, env: &Context, auction_id: u64, buyer: AccountId) -> Result<
        (),
        MarketError,
    > {
        if !env.authorizes(buyer) {
            Err(MarketError::NotAuthorized)
        } else if !self.auctions.contains_key(auction_id) {
            Err(MarketError::AuctionNotFound)
        } else if self.auctions[auction_id].status != AuctionStatus::Active {
            Err(MarketError::AuctionNotActive)
        } else if self.auctions[auction_id].auction_type != AuctionType::Dutch {
            Err(MarketError::NotDutchAuction)
        } else if dutch_price(self.auctions[auction_id], env.timestamp) is Err {
            Err(dutch_price(self.auctions[auction_id], env.timestamp)->Err_0)
        } else if self.payment_token is None {
            Err(MarketError::PaymentTokenNotSet)
        } else {
            self.with_dutch_bid(env, auction_id, buyer).settle_auction_check(auction_id, true)
        }
    }

    /// This view with `buyer` holding Dutch auction `auction_id` at its current price.
    pub open spec fn with_dutch_bid(self, env: &Context, auction_id: u64, buyer: AccountId) -> MarketView {
        MarketView {
            auctions: self.auctions.insert(
                auction_id,
                Auction {
                    highest_bidder: Some(buyer),
                    highest_bid: dutch_price(self.auctions[auction_id], env.timestamp)->Ok_0,
                    ..self.auctions[auction_id]
                },
            ),
            ..self
        }
    }
}

impl Marketplace {
    /// Settles auction `auction_id` as `settle_auction_check`,
    /// `settlement_transfers` and `with_auction_settled` say.
    pub fn settle_auction(&mut self, env: &Context, auction_id: u64, resolving: bool) -> (r: Result<
        Vec<Transfer>,
        MarketError,
    >)
        ensures
            match r {
                Err(e) => old(self)@.settle_auction_check(auction_id, resolving) == Err::<
                    (),
                    MarketError,
                >(e) && final(self)@ == old(self)@,
                Ok(t) => {
                    &&& old(self)@.settle_auction_check(auction_id, resolving) is Ok
                    &&& t@ == old(self)@.settlement_transfers(env, auction_id, resolving)
                    &&& final(self)@ == old(self)@.with_auction_settled(auction_id, resolving)
                },
            },
    {
        let auction = match get_auction(self, auction_id) {
            None => return Err(MarketError::AuctionNotFound),
            Some(a) => a,
        };
        let mut transfers: Vec<Transfer> = Vec::new();
        let status = match auction.highest_bidder {
            None => AuctionStatus::Ended,
            Some(winner) => {
                if auction.highest_bid >= auction.reserve_price {
                    if resolving {
                        let config = get_approval_config(self);
                        if auction.highest_bid >= config.threshold {
                            return Err(MarketError::ApprovalRequired);
                        }
                    }
                    let info = match self.get_royalty(auction.agent_id) {
                        Err(e) => return Err(e),
                        Ok(None) => return Err(MarketError::RoyaltyNotFound),
                        Ok(Some(info)) => info,
                    };
                    let (royalty, seller_amount) = match split_sale(auction.highest_bid, info.fee) {
                        None => return Err(MarketError::Overflow),
                        Some(s) => s,
                    };
                    if let Err(e) = get_payment_token(self) {
                        return Err(e);
                    }
                    transfers.push(
                        Transfer { from: env.current_contract, to: info.recipient, amount: royalty },
                    );
                    transfers.push(
                        Transfer { from: env.current_contract, to: auction.seller, amount: seller_amount },
                    );
                    AuctionStatus::Won
                } else {
                    if !resolving || auction.auction_type == AuctionType::English {
                        if let Err(e) = get_payment_token(self) {
                            return Err(e);
                        }
                        transfers.push(
                            Transfer {
                                from: env.current_contract,
                                to: winner,
                                amount: auction.highest_bid,
                            },
                        );
                    }
                    AuctionStatus::Ended
                }
            },
        };
        self.auctions.insert(auction_id, Auction { status, ..auction });
        assert(transfers@ =~= old(self)@.settlement_transfers(env, auction_id, resolving));
        Ok(transfers)
    }

    /// Opens an auction of agent `agent_id` by `seller`, running `duration`
    /// seconds from now, numbered one past the auction counter; the start price
    /// is positive and at most `PRICE_UPPER_BOUND`.
    pub fn create_auction(
        &mut self,
        env: &Context,
        agent_id: u64,
        seller: AccountId,
        auction_type: AuctionType,
        start_price: i128,
        reserve_price: i128,
        duration: u64,
        min_bid_increment_bps: u32,
        dutch_params: (Option<i128>, Option<i128>, Option<u64>, Option<u32>),
    ) -> (r: Result<u64, MarketError>)
        ensures
            match r {
                Err(e) => old(self)@.create_auction_check(env, seller, start_price, duration) == Err::<
                    (),
                    MarketError,
                >(e) && final(self)@ == old(self)@,
                Ok(id) => {
                    &&& old(self)@.create_auction_check(env, seller, start_price, duration) is Ok
                    &&& id == old(self)@.auction_counter + 1
                    &&& final(self)@ == (MarketView {
                        auction_counter: id,
                        auctions: old(self)@.auctions.insert(
                            id,
                            Auction {
                                auction_id: id,
                                agent_id,
                                seller,
                                auction_type,
                                start_price,
                                reserve_price,
                                highest_bidder: None,
                                highest_bid: 0,
                                start_time: env.timestamp,
                                end_time: (env.timestamp + duration) as u64,
                                min_bid_increment_bps,
                                status: AuctionStatus::Active,
                                dutch_start_price: dutch_params.0,
                                dutch_end_price: dutch_params.1,
                                dutch_duration_seconds: dutch_params.2,
                                dutch_price_decay: dutch_params.3,
                            },
                        ),
                        ..old(self)@
                    })
                },
            },
    {
        if !env.require_auth(seller) {
            return Err(MarketError::NotAuthorized);
        }
        if start_price <= 0 || start_price > PRICE_UPPER_BOUND {
            return Err(MarketError::InvalidStartPrice);
        }
        if duration == 0 {
            return Err(MarketError::InvalidDuration);
        }
        if self.auction_counter == u64::MAX {
            return Err(MarketError::Overflow);
        }
        let start_time = env.timestamp;
        let end_time = match start_time.checked_add(duration) {
            Some(t) => t,
            None => return Err(MarketError::Overflow),
        };
        let auction_id = match increment_auction_counter(self) {
            Ok(id) => id,
            Err(e) => return Err(e),
        };
        let (dutch_start_price, dutch_end_price, dutch_duration_seconds, dutch_price_decay) =
            dutch_params;
        set_auction(
            self,
            Auction {
                auction_id,
                agent_id,
                seller,
                auction_type,
                start_price,
                reserve_price,
                highest_bidder: None,
                highest_bid: 0,
                start_time,
                end_time,
                min_bid_increment_bps,
                status: AuctionStatus::Active,
                dutch_start_price,
                dutch_end_price,
                dutch_duration_seconds,
                dutch_price_decay,
            },
        );
        Ok(auction_id)
    }

    /// The current price of Dutch auction `auction_id`.
    pub fn calculate_dutch_price(&self, env: &Context, auction_id: u64) -> (r: Result<
        i128,
        MarketError,
    >)
        ensures
            !self@.auctions.contains_key(auction_id) ==> r == Err::<i128, MarketError>(
                MarketError::AuctionNotFound,
            ),
            self@.auctions.contains_key(auction_id) ==> r == dutch_price(
                self@.auctions[auction_id],
                env.timestamp,
            ),
    {
        match get_auction(self, auction_id) {
            None => Err(MarketError::AuctionNotFound),
            Some(a) => compute_dutch_price(&a, env.timestamp),
        }
    }

    /// A bid on an active English auction before its end: it must beat the
    /// highest bid by the minimum raise; the previous bidder is refunded, the
    /// new bid is taken into the contract, and a bid in the last five minutes
    /// extends the auction by five minutes. Returns the token transfers, in order.
    pub fn place_bid(&mut self, env: &Context, auction_id: u64, bidder: AccountId, amount: i128) -> (r:
        Result<Vec<Transfer>, MarketError>)
        ensures
            match r {
                Err(e) => old(self)@.place_bid_check(env, auction_id, bidder, amount) == Err::<
                    (),
                    MarketError,
                >(e) && final(self)@ == old(self)@,
                Ok(t) => {
                    let a = old(self)@.auctions[auction_id];
                    &&& old(self)@.place_bid_check(env, auction_id, bidder, amount) is Ok
                    &&& t@ == (match a.highest_bidder {
                        Some(p) => seq![
                            Transfer { from: env.current_contract, to: p, amount: a.highest_bid },
                        ],
                        None => Seq::empty(),
                    }).push(Transfer { from: bidder, to: env.current_contract, amount })
                    &&& final(self)@ == (MarketView {
                        auctions: old(self)@.auctions.insert(
                            auction_id,
                            Auction {
                                highest_bidder: Some(bidder),
                                highest_bid: amount,
                                end_time: MarketView::end_after_bid(a, env.timestamp).unwrap(),
                                ..a
                            },
                        ),
                        ..old(self)@
                    })
                },
            },
    {
        if !env.require_auth(bidder) {
            return Err(MarketError::NotAuthorized);
        }
        let auction = match get_auction(self, auction_id) {
            None => return Err(MarketError::AuctionNotFound),
            Some(a) => a,
        };
        if auction.status != AuctionStatus::Active {
            return Err(MarketError::AuctionNotActive);
        }
        if auction.auction_type != AuctionType::English {
            return Err(MarketError::NotEnglishAuction);
        }
        let now = env.timestamp;
        if now >= auction.end_time {
            return Err(MarketError::AuctionExpired);
        }
        let min_increment = match checked_mul_div(
            auction.highest_bid,
            auction.min_bid_increment_bps as i128,
            10000,
        ) {
            Some(v) => v,
            None => return Err(MarketError::Overflow),
        };
        let step = if min_increment > MIN_BID_INCREMENT {
            min_increment
        } else {
            MIN_BID_INCREMENT
        };
        let min_bid = match auction.highest_bid.checked_add(step) {
            Some(v) => v,
            None => return Err(MarketError::Overflow),
        };
        if amount < min_bid {
            return Err(MarketError::BidTooLow);
        }
        if let Err(e) = get_payment_token(self) {
            return Err(e);
        }
        let time_left = auction.end_time - now;
        let end_time = if time_left < BID_EXTENSION_SECONDS {
            match auction.end_time.checked_add(BID_EXTENSION_SECONDS) {
                Some(t) => t,
                None => return Err(MarketError::Overflow),
            }
        } else {
            auction.end_time
        };
        let mut transfers: Vec<Transfer> = Vec::new();
        if let Some(prev) = auction.highest_bidder {
            transfers.push(
                Transfer { from: env.current_contract, to: prev, amount: auction.highest_bid },
            );
        }
        transfers.push(Transfer { from: bidder, to: env.current_contract, amount });
        self.auctions.insert(
            auction_id,
            Auction { highest_bidder: Some(bidder), highest_bid: amount, end_time, ..auction },
        );
        Ok(transfers)
    }

    /// The buyer takes an active Dutch auction at its current price: the price
    /// is paid into the contract and the auction is resolved at once. Returns
    /// the token transfers, in order.
    pub fn accept_dutch_price(&mut self, env: &Context, auction_id: u64, buyer: AccountId) -> (r:
        Result<Vec<Transfer>, MarketError>)
        ensures
            match r {
                Err(e) => old(self)@.accept_dutch_check(env, auction_id, buyer) == Err::<
                    (),
                    MarketError,
                >(e) && final(self)@ == old(self)@,
                Ok(t) => {
                    let v1 = old(self)@.with_dutch_bid(env, auction_id, buyer);
                    &&& old(self)@.accept_dutch_check(env, auction_id, buyer) is Ok
                    &&& t@ == seq![
                        Transfer {
                            from: buyer,
                            to: env.current_contract,
                            amount: v1.auctions[auction_id].highest_bid,
                        },
                    ] + v1.settlement_transfers(env, auction_id, true)
                    &&& final(self)@ == v1.with_auction_settled(auction_id, true)
                },
            },
    {
        if !env.require_auth(buyer) {
            return Err(MarketError::NotAuthorized);
        }
        let auction = match get_auction(self, auction_id) {
            None => return Err(MarketError::AuctionNotFound),
            Some(a) => a,
        };
        if auction.status != AuctionStatus::Active {
            return Err(MarketError::AuctionNotActive);
        }
        if auction.auction_type != AuctionType::Dutch {
            return Err(MarketError::NotDutchAuction);
        }
        let price = match compute_dutch_price(&auction, env.timestamp) {
            Ok(p) => p,
            Err(e) => return Err(e),
        };
        if let Err(e) = get_payment_token(self) {
            return Err(e);
        }
        let ghost v0 = self@;
        self.auctions.insert(auction_id, Auction { highest_bidder: Some(buyer), highest_bid: price, ..auction });
        assert(self@ == v0.with_dutch_bid(env, auction_id, buyer));
        match self.settle_auction(env, auction_id, true) {
            Err(e) => {
                self.auctions.insert(auction_id, auction);
                assert(self@.auctions =~= v0.auctions);
                Err(e)
            },
            Ok(rest) => {
                let mut transfers: Vec<Transfer> = Vec::new();
                transfers.push(Transfer { from: buyer, to: env.current_contract, amount: price });
                let mut rest = rest;
                transfers.append(&mut rest);
                Ok(transfers)
            },
        }
    }

    /// Settles an active auction that is over (an English auction past its
    /// end, or a Dutch auction with a buyer): a bid meeting the reserve (and
    /// below the approval threshold) pays the royalty and the seller and wins;
    /// otherwise the auction ends, refunding an English bid. Returns the token
    /// transfers, in order.
    pub fn resolve_auction(&mut self, env: &Context, auction_id: u64) -> (r: Result<
        Vec<Transfer>,
        MarketError,
    >)
        ensures
            old(self)@.resolve_check(env, auction_id) matches Err(e) ==> r == Err::<
                Vec<Transfer>,
                MarketError,
            >(e) && final(self)@ == old(self)@,
            old(self)@.resolve_check(env, auction_id) is Ok ==> match r {
                Err(e) => old(self)@.settle_auction_check(auction_id, true) == Err::<
                    (),
                    MarketError,
                >(e) && final(self)@ == old(self)@,
                Ok(t) => {
                    &&& old(self)@.settle_auction_check(auction_id, true) is Ok
                    &&& t@ == old(self)@.settlement_transfers(env, auction_id, true)
                    &&& final(self)@ == old(self)@.with_auction_settled(auction_id, true)
                },
            },
    {
        let auction = match get_auction(self, auction_id) {
            None => return Err(MarketError::AuctionNotFound),
            Some(a) => a,
        };
        if auction.status != AuctionStatus::Active {
            return Err(MarketError::AuctionNotActive);
        }
        let is_dutch = auction.auction_type == AuctionType::Dutch;
        let is_english = auction.auction_type == AuctionType::English;
        if !((is_english && env.timestamp >= auction.end_time) || (is_dutch
            && auction.highest_bidder.is_some())) {
            return Err(MarketError::AuctionNotEnded);
        }
        self.settle_auction(env, auction_id, true)
    }

    /// The seller cancels an active auction that has no bid.
    pub fn cancel_auction(&mut self, env: &Context, auction_id: u64) -> (r: Result<(), MarketError>)
        ensures
            !old(self)@.auctions.contains_key(auction_id) ==> r == Err::<(), MarketError>(
                MarketError::AuctionNotFound,
            ),
            old(self)@.auctions.contains_key(auction_id) ==> {
                let a = old(self)@.auctions[auction_id];
                &&& !env.authorizes(a.seller) ==> r == Err::<(), MarketError>(
                    MarketError::NotAuthorized,
                )
                &&& env.authorizes(a.seller) && a.status != AuctionStatus::Active ==> r == Err::<
                    (),
                    MarketError,
                >(MarketError::AuctionNotActive)
                &&& env.authorizes(a.seller) && a.status == AuctionStatus::Active
                    && a.highest_bidder is Some ==> r == Err::<(), MarketError>(
                    MarketError::AuctionHasBids,
                )
                &&& r is Ok <==> env.authorizes(a.seller) && a.status == AuctionStatus::Active
                    && a.highest_bidder is None
            },
            r is Err ==> final(self)@ == old(self)@,
            r is Ok ==> final(self)@ == (MarketView {
                auctions: old(self)@.auctions.insert(
                    auction_id,
                    Auction { status: AuctionStatus::Cancelled, ..old(self)@.auctions[auction_id] },
                ),
                ..old(self)@
            }),
    {
        let auction = match get_auction(self, auction_id) {
            None => return Err(MarketError::AuctionNotFound),
            Some(a) => a,
        };
        if !env.require_auth(auction.seller) {
            return Err(MarketError::NotAuthorized);
        }
        if auction.status != AuctionStatus::Active {
            return Err(MarketError::AuctionNotActive);
        }
        if auction.highest_bidder.is_some() {
            return Err(MarketError::AuctionHasBids);
        }
        self.auctions.insert(auction_id, Auction { status: AuctionStatus::Cancelled, ..auction });
        Ok(())
    }
}

/// A sale never pays out more than the price: on a non-negative price and a fee
/// of at most 100 %, the royalty lies between 0 and the price and the royalty
/// and the seller's share add up to the price.
pub proof fn sale_split_conserves_price(bid: i128, fee: u32)
    requires
        0 <= bid,
        fee <= 10000,
    ensures
        sale_split(bid, fee) matches Some((royalty, rest)) ==> 0 <= royalty <= bid && 0 <= rest
            && royalty + rest == bid,
{
    let x = bid as u128;
    assert(x == bid);
    if x * fee <= u128::MAX {
        assert((x * fee) / 10000 <= x) by (nonlinear_arith)
            requires
                fee <= 10000,
        ;
    }
}

/// Every accepted bid beats the previous highest bid by at least
/// `MIN_BID_INCREMENT`.
pub proof fn accepted_bid_raises_by_minimum(highest: i128, bps: u32)
    ensures
        MarketView::min_bid(highest, bps) matches Some(m) ==> m >= highest + MIN_BID_INCREMENT,
{
}

/// The Dutch price of an auction whose schedule falls from the start price to
/// the end price over at least the auction's lifetime stays between the two
/// prices.
pub proof fn dutch_price_within_range(a: Auction, now: u64)
    requires
        a.dutch_start_price matches Some(start) && a.dutch_end_price matches Some(end) && end
            <= start,
        a.dutch_duration_seconds matches Some(d) && d > 0 && a.end_time <= a.start_time + d,
    ensures
        dutch_price(a, now) matches Ok(p) ==> a.dutch_end_price.unwrap() <= p
            <= a.dutch_start_price.unwrap(),
{
    let start = a.dutch_start_price.unwrap();
    let end = a.dutch_end_price.unwrap();
    let d = a.dutch_duration_seconds.unwrap();
    if now > a.start_time && now < a.end_time {
        let elapsed = now - a.start_time;
        let range = start - end;
        assert(0 <= (range * elapsed) / (d as int) <= range) by (nonlinear_arith)
            requires
                range >= 0,
                0 <= elapsed <= d,
                d > 0,
        ;
    }
}

/// The Dutch price never rises over time (for a schedule as in
/// `dutch_price_within_range`).
pub proof fn dutch_price_never_rises(a: Auction, t1: u64, t2: u64)
    requires
        a.dutch_start_price matches Some(start) && a.dutch_end_price matches Some(end) && end
            <= start,
        a.dutch_duration_seconds matches Some(d) && d > 0 && a.end_time <= a.start_time + d,
        t1 <= t2,
    ensures
        dutch_price(a, t1) is Ok && dutch_price(a, t2) is Ok ==> dutch_price(a, t2)->Ok_0
            <= dutch_price(a, t1)->Ok_0,
{
    dutch_price_within_range(a, t1);
    dutch_price_within_range(a, t2);
    let start = a.dutch_start_price.unwrap();
    let end = a.dutch_end_price.unwrap();
    let d = a.dutch_duration_seconds.unwrap();
    if t1 > a.start_time && t2 < a.end_time {
        let e1 = t1 - a.start_time;
        let e2 = t2 - a.start_time;
        let range = start - end;
        assert((range * e1) / (d as int) <= (range * e2) / (d as int)) by (nonlinear_arith)
            requires
                range >= 0,
                0 <= e1 <= e2,
                d > 0,
        {
            assert(range * e1 <= range * e2);
            vstd::arithmetic::div_mod::lemma_div_is_ordered(range * e1, range * e2, d as int);
        }
    }
}

/// The smallest accepted bid on a non-negative highest bid `h` at a minimum
/// raise of `bps` basis points is `h` plus the larger of `h * bps / 10000`
/// (rounded down) and `MIN_BID_INCREMENT`, wherever it fits.
pub proof fn min_bid_is_percentage_raise(h: i128, bps: u32)
    requires
        0 <= h,
        h * bps <= i128::MAX,
    ensures
        ({
            let raise = h * bps / 10000;
            let step = if raise > MIN_BID_INCREMENT { raise } else { MIN_BID_INCREMENT as int };
            &&& h + step <= i128::MAX ==> MarketView::min_bid(h, bps) == Some((h + step) as i128)
            &&& MarketView::min_bid(h, bps) matches Some(m) ==> m >= h + h * bps / 10000 && m >= h
                + MIN_BID_INCREMENT
        }),
{
    assert(0 <= h * bps) by (nonlinear_arith)
        requires
            0 <= h,
    ;
}

/// Every accepted bid beats the previous highest bid `h` (when non-negative) by
/// at least `h * min_bid_increment_bps / 10000` (rounded down) and by at least
/// `MIN_BID_INCREMENT`.
pub proof fn accepted_bid_beats_percentage_raise(
    v: MarketView,
    env: &Context,
    auction_id: u64,
    bidder: AccountId,
    amount: i128,
)
    requires
        v.place_bid_check(env, auction_id, bidder, amount) is Ok,
        0 <= v.auctions[auction_id].highest_bid,
    ensures
        ({
            let a = v.auctions[auction_id];
            &&& amount >= a.highest_bid + a.highest_bid * a.min_bid_increment_bps / 10000
            &&& amount >= a.highest_bid + MIN_BID_INCREMENT
        }),
{
    let a = v.auctions[auction_id];
    let h = a.highest_bid;
    let bps = a.min_bid_increment_bps;
    assert(MarketView::min_bid(h, bps) is Some);
    assert(mul_div(h, bps as i128, 10000) is Some);
    assert(h * bps <= i128::MAX);
    min_bid_is_percentage_raise(h, bps);
}

} // verus!
