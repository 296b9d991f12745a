use stellaiverse::context::{AccountId, Context};
use stellaiverse::marketplace::auction::{compute_dutch_price, split_sale, BID_EXTENSION_SECONDS};
use stellaiverse::marketplace::storage::{calculate_royalty, get_auction, MarketError, Marketplace};
use stellaiverse::types::{AuctionStatus, AuctionType, Transfer, PRICE_UPPER_BOUND};

const CONTRACT: AccountId = AccountId { id: 9_000 };
const ADMIN: AccountId = AccountId { id: 1 };
const SELLER: AccountId = AccountId { id: 2 };
const CREATOR: AccountId = AccountId { id: 3 };
const TOKEN: AccountId = AccountId { id: 4 };

fn ctx(timestamp: u64) -> Context {
    Context::new(timestamp, 1, CONTRACT)
}

fn market() -> Marketplace {
    let mut m = Marketplace::new();
    m.init_contract(&ctx(1_000), ADMIN).unwrap();
    m.set_payment_token(&ctx(1_000), ADMIN, TOKEN).unwrap();
    m.set_royalty(&ctx(1_000), 1, CREATOR, CREATOR, 1000).unwrap();
    m
}

#[test]
fn english_auction_bids_and_settlement() {
    let mut m = market();
    let (b1, b2) = (AccountId { id: 10 }, AccountId { id: 11 });
    let id = m
        .create_auction(&ctx(1_000), 1, SELLER, AuctionType::English, 1000, 500, 1_000, 500, (None, None, None, None))
        .unwrap();
    assert_eq!(id, 1);

    assert_eq!(m.place_bid(&ctx(1_100), id, b1, 999), Err(MarketError::BidTooLow));
    assert_eq!(
        m.place_bid(&ctx(1_100), id, b1, 1000).unwrap(),
        vec![Transfer { from: b1, to: CONTRACT, amount: 1000 }]
    );
    // the next bid must beat 1000 by at least the minimum increment of 1000
    assert_eq!(m.place_bid(&ctx(1_200), id, b2, 1999), Err(MarketError::BidTooLow));
    assert_eq!(
        m.place_bid(&ctx(1_200), id, b2, 2000).unwrap(),
        vec![
            Transfer { from: CONTRACT, to: b1, amount: 1000 },
            Transfer { from: b2, to: CONTRACT, amount: 2000 },
        ]
    );
    assert_eq!(m.resolve_auction(&ctx(1_500), id), Err(MarketError::AuctionNotEnded));

    // royalty 10 % of 2000 to the creator, the rest to the seller
    let transfers = m.resolve_auction(&ctx(2_000), id).unwrap();
    assert_eq!(
        transfers,
        vec![
            Transfer { from: CONTRACT, to: CREATOR, amount: 200 },
            Transfer { from: CONTRACT, to: SELLER, amount: 1800 },
        ]
    );
    let a = get_auction(&m, id).unwrap();
    assert_eq!(a.status, AuctionStatus::Won);
    assert_eq!(a.highest_bidder, Some(b2));
    assert_eq!(m.resolve_auction(&ctx(2_000), id), Err(MarketError::AuctionNotActive));
}

#[test]
fn late_bid_extends_auction() {
    let mut m = market();
    let id = m
        .create_auction(&ctx(1_000), 1, SELLER, AuctionType::English, 1000, 500, 1_000, 0, (None, None, None, None))
        .unwrap();
    m.place_bid(&ctx(1_900), id, AccountId { id: 10 }, 1000).unwrap();
    assert_eq!(get_auction(&m, id).unwrap().end_time, 2_000 + BID_EXTENSION_SECONDS);
    assert_eq!(m.place_bid(&ctx(2_300), id, AccountId { id: 11 }, 5000), Err(MarketError::AuctionExpired));
}

#[test]
fn reserve_not_met_refunds_bidder() {
    let mut m = market();
    let b = AccountId { id: 10 };
    let id = m
        .create_auction(&ctx(1_000), 1, SELLER, AuctionType::English, 1000, 5000, 1_000, 0, (None, None, None, None))
        .unwrap();
    m.place_bid(&ctx(1_100), id, b, 1000).unwrap();
    assert_eq!(
        m.resolve_auction(&ctx(2_000), id).unwrap(),
        vec![Transfer { from: CONTRACT, to: b, amount: 1000 }]
    );
    assert_eq!(get_auction(&m, id).unwrap().status, AuctionStatus::Ended);
}

#[test]
fn dutch_auction_price_and_purchase() {
    let mut m = market();
    let buyer = AccountId { id: 10 };
    let id = m
        .create_auction(
            &ctx(1_000),
            1,
            SELLER,
            AuctionType::Dutch,
            10_000,
            500,
            1_000,
            0,
            (Some(10_000), Some(2_000), Some(1_000), Some(0)),
        )
        .unwrap();
    assert_eq!(m.calculate_dutch_price(&ctx(1_000), id), Ok(10_000));
    assert_eq!(m.calculate_dutch_price(&ctx(1_250), id), Ok(8_000));
    assert_eq!(m.calculate_dutch_price(&ctx(1_999), id), Ok(2_008));
    assert_eq!(m.calculate_dutch_price(&ctx(5_000), id), Ok(2_000));
    assert_eq!(m.place_bid(&ctx(1_250), id, buyer, 9_000), Err(MarketError::NotEnglishAuction));

    let transfers = m.accept_dutch_price(&ctx(1_250), id, buyer).unwrap();
    assert_eq!(
        transfers,
        vec![
            Transfer { from: buyer, to: CONTRACT, amount: 8_000 },
            Transfer { from: CONTRACT, to: CREATOR, amount: 800 },
            Transfer { from: CONTRACT, to: SELLER, amount: 7_200 },
        ]
    );
    assert_eq!(get_auction(&m, id).unwrap().status, AuctionStatus::Won);
}

#[test]
fn dutch_price_errors() {
    let mut m = market();
    let eng = m
        .create_auction(&ctx(1_000), 1, SELLER, AuctionType::English, 1000, 0, 1_000, 0, (None, None, None, None))
        .unwrap();
    assert_eq!(m.calculate_dutch_price(&ctx(1_100), eng), Err(MarketError::NotDutchAuction));
    let a = get_auction(&m, eng).unwrap();
    assert_eq!(compute_dutch_price(&a, 1_100), Err(MarketError::NotDutchAuction));
    let no_cfg = m
        .create_auction(&ctx(1_000), 1, SELLER, AuctionType::Dutch, 1000, 0, 1_000, 0, (Some(5), None, None, None))
        .unwrap();
    assert_eq!(m.calculate_dutch_price(&ctx(1_100), no_cfg), Err(MarketError::MissingDutchConfig));
    let zero = m
        .create_auction(&ctx(1_000), 1, SELLER, AuctionType::Dutch, 1000, 0, 1_000, 0, (Some(5), Some(1), Some(0), None))
        .unwrap();
    assert_eq!(m.calculate_dutch_price(&ctx(1_100), zero), Err(MarketError::DivisionByZero));
}

#[test]
fn create_auction_errors_and_cancel() {
    let mut m = market();
    let env = ctx(1_000);
    assert_eq!(
        m.create_auction(&env, 1, SELLER, AuctionType::English, 0, 0, 10, 0, (None, None, None, None)),
        Err(MarketError::InvalidStartPrice)
    );
    assert_eq!(
        m.create_auction(&env, 1, SELLER, AuctionType::English, PRICE_UPPER_BOUND + 1, 0, 10, 0, (None, None, None, None)),
        Err(MarketError::InvalidStartPrice)
    );
    assert_eq!(
        m.create_auction(&env, 1, SELLER, AuctionType::English, 10, 0, 0, 0, (None, None, None, None)),
        Err(MarketError::InvalidDuration)
    );
    let id = m
        .create_auction(&env, 1, SELLER, AuctionType::English, 10, 0, 10, 0, (None, None, None, None))
        .unwrap();
    m.cancel_auction(&env, id).unwrap();
    assert_eq!(get_auction(&m, id).unwrap().status, AuctionStatus::Cancelled);
    assert_eq!(m.place_bid(&env, id, AccountId { id: 10 }, 5000), Err(MarketError::AuctionNotActive));
}

#[test]
fn royalty_and_split_formulas() {
    assert_eq!(calculate_royalty(5000, 250), 125);
    assert_eq!(calculate_royalty(9999, 1), 0);
    assert_eq!(calculate_royalty(-9999, 5000), -4999);
    assert_eq!(split_sale(2000, 1000), Some((200, 1800)));
    assert_eq!(split_sale(1001, 10000), Some((1001, 0)));
    assert_eq!(split_sale(i128::MAX, 10000), None);
}

#[test]
fn royalty_settings() {
    let mut m = market();
    let env = ctx(1_000);
    assert_eq!(m.set_royalty(&env, 0, CREATOR, CREATOR, 10), Err(MarketError::InvalidAgentId));
    assert_eq!(m.set_royalty(&env, 2, CREATOR, CREATOR, 10_001), Err(MarketError::RoyaltyTooHigh));
    let info = m.get_royalty(1).unwrap().unwrap();
    assert_eq!((info.recipient, info.fee), (CREATOR, 1000));
    assert!(m.get_royalty(2).unwrap().is_none());
}
