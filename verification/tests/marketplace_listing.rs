use stellaiverse::context::{AccountId, Context};
use stellaiverse::marketplace::storage::{MarketError, Marketplace};
use stellaiverse::types::{ListingType, PRICE_UPPER_BOUND};

const ADMIN: AccountId = AccountId { id: 1 };
const SELLER: AccountId = AccountId { id: 2 };

fn ctx() -> Context {
    Context::new(1_000, 1, AccountId { id: 9_000 })
}

#[test]
fn listings_are_numbered_and_cancelled() {
    let mut m = Marketplace::new();
    assert_eq!(m.init_contract(&ctx(), ADMIN), Ok(()));
    assert_eq!(m.init_contract(&ctx(), SELLER), Err(MarketError::AlreadyInitialized));
    let a = m.create_listing(&ctx(), 5, SELLER, 0, 100).unwrap();
    let b = m.create_listing(&ctx(), 6, SELLER, 1, 200).unwrap();
    let c = m.create_listing(&ctx(), 7, SELLER, 2, 300).unwrap();
    assert_eq!((a, b, c), (1, 2, 3));
    let l = m.get_listing(b).unwrap().unwrap();
    assert_eq!((l.agent_id, l.seller, l.price, l.listing_type), (6, SELLER, 200, ListingType::Lease));
    assert!(l.active);
    assert_eq!(m.get_listing(c).unwrap().unwrap().listing_type, ListingType::Auction);
    assert!(m.get_listing(4).unwrap().is_none());
    assert_eq!(m.get_listing(0), Err(MarketError::InvalidListingId));

    assert_eq!(m.cancel_listing(&ctx(), a, AccountId { id: 3 }), Err(MarketError::Unauthorized));
    m.cancel_listing(&ctx(), a, SELLER).unwrap();
    assert!(!m.get_listing(a).unwrap().unwrap().active);
    assert_eq!(m.buy_agent(&ctx(), a, AccountId { id: 3 }), Err(MarketError::ListingNotActive));
}

#[test]
fn listing_input_errors() {
    let mut m = Marketplace::new();
    m.init_contract(&ctx(), ADMIN).unwrap();
    assert_eq!(m.create_listing(&ctx(), 0, SELLER, 0, 100), Err(MarketError::InvalidAgentId));
    assert_eq!(m.create_listing(&ctx(), 1, SELLER, 3, 100), Err(MarketError::InvalidListingType));
    assert_eq!(m.create_listing(&ctx(), 1, SELLER, 0, 0), Err(MarketError::NonPositivePrice));
    assert_eq!(
        m.create_listing(&ctx(), 1, SELLER, 0, PRICE_UPPER_BOUND + 1),
        Err(MarketError::PriceTooHigh)
    );
    assert_eq!(m.create_listing(&ctx(), 1, SELLER, 0, i128::MAX), Err(MarketError::PriceTooHigh));
    assert_eq!(m.create_listing(&ctx(), 1, SELLER, 0, PRICE_UPPER_BOUND), Ok(1));
    assert_eq!(PRICE_UPPER_BOUND, i128::MAX / 2);
    let unsigned = Context::with_signers(1_000, 1, AccountId { id: 9_000 }, vec![ADMIN]);
    assert_eq!(m.create_listing(&unsigned, 1, SELLER, 0, 10), Err(MarketError::NotAuthorized));
    assert_eq!(m.buy_agent(&ctx(), 9, SELLER), Err(MarketError::ListingNotFound));
}

#[test]
fn admin_and_payment_token() {
    let mut m = Marketplace::new();
    m.init_contract(&ctx(), ADMIN).unwrap();
    assert_eq!(m.set_payment_token(&ctx(), SELLER, AccountId { id: 50 }), Err(MarketError::Unauthorized));
    m.set_payment_token(&ctx(), ADMIN, AccountId { id: 50 }).unwrap();
    assert_eq!(m.payment_token, Some(AccountId { id: 50 }));
    m.set_admin(&ctx(), SELLER).unwrap();
    assert_eq!(m.admin, Some(SELLER));
}
