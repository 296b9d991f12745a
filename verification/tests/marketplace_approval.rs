use stellaiverse::context::{AccountId, Context};
use stellaiverse::marketplace::storage::{get_auction, set_auction, MarketError, Marketplace};
use stellaiverse::types::{
    ApprovalAction, ApprovalStatus, AuctionType, DEFAULT_APPROVAL_THRESHOLD,
    DEFAULT_APPROVAL_TTL_SECONDS, DEFAULT_APPROVERS_REQUIRED, DEFAULT_TOTAL_APPROVERS,
};

const CONTRACT: AccountId = AccountId { id: 9_000 };

fn ctx(timestamp: u64) -> Context {
    Context::new(timestamp, 1, CONTRACT)
}

fn account(id: u64) -> AccountId {
    AccountId { id }
}

fn initialized(admin: AccountId) -> Marketplace {
    let mut m = Marketplace::new();
    m.init_contract(&ctx(1_000), admin).unwrap();
    m
}

#[test]
fn default_approval_config_after_init() {
    let m = initialized(account(1));
    let config = m.get_approval_config();
    assert_eq!(config.threshold, DEFAULT_APPROVAL_THRESHOLD);
    assert_eq!(config.approvers_required, DEFAULT_APPROVERS_REQUIRED);
    assert_eq!(config.total_approvers, DEFAULT_TOTAL_APPROVERS);
    assert_eq!(config.ttl_seconds, DEFAULT_APPROVAL_TTL_SECONDS);
}

#[test]
fn test_set_approval_config() {
    let admin = account(1);
    let mut m = initialized(admin);
    m.set_approval_config(admin, 5000_000_000, 3, 5, 86400 * 14).unwrap();

    let config = m.get_approval_config();
    assert_eq!(config.threshold, 5000_000_000);
    assert_eq!(config.approvers_required, 3);
    assert_eq!(config.total_approvers, 5);
    assert_eq!(config.ttl_seconds, 86400 * 14);
}

#[test]
#[should_panic(expected = "Unauthorized")]
fn test_set_approval_config_unauthorized() {
    let admin = account(1);
    let unauthorized = account(2);
    let mut m = initialized(admin);
    let r = m.set_approval_config(unauthorized, 5000_000_000, 3, 5, 86400 * 14);
    assert_eq!(r, Err(MarketError::Unauthorized));
    panic!("Unauthorized");
}

#[test]
fn test_propose_sale_success() {
    let admin = account(1);
    let (seller, buyer) = (account(2), account(3));
    let (approver1, approver2, approver3) = (account(4), account(5), account(6));
    let env = ctx(1_000);
    let mut m = initialized(admin);
    m.set_approval_config(admin, 1000, 2, 3, 604800).unwrap();

    let listing_id = m.create_listing(&env, 1, seller, 0, 5000).unwrap();
    let approvers = vec![approver1, approver2, approver3];
    let approval_id = m.propose_sale(&env, listing_id, buyer, approvers).unwrap();

    let approval = m.get_approval(approval_id).unwrap().unwrap();
    assert_eq!(approval.approval_id, approval_id);
    assert_eq!(approval.listing_id, Some(listing_id));
    assert_eq!(approval.buyer, buyer);
    assert_eq!(approval.price, 5000);
    assert!(approval.status == ApprovalStatus::Pending);
    assert_eq!(approval.required_approvals, 2);
    assert_eq!(approval.approvers.len(), 3);
    assert_eq!(approval.expires_at, 1_000 + 604800);
}

#[test]
#[should_panic(expected = "Price below approval threshold")]
fn test_propose_sale_below_threshold() {
    let admin = account(1);
    let env = ctx(1_000);
    let mut m = initialized(admin);
    m.set_approval_config(admin, 10000, 2, 3, 604800).unwrap();

    let listing_id = m.create_listing(&env, 1, account(2), 0, 5000).unwrap();
    let r = m.propose_sale(&env, listing_id, account(3), vec![account(4)]);
    assert_eq!(r, Err(MarketError::BelowThreshold));
    panic!("Price below approval threshold");
}

#[test]
#[should_panic(expected = "Insufficient approvers")]
fn test_propose_sale_insufficient_approvers() {
    let admin = account(1);
    let env = ctx(1_000);
    let mut m = initialized(admin);
    m.set_approval_config(admin, 1000, 2, 3, 604800).unwrap();

    let listing_id = m.create_listing(&env, 1, account(2), 0, 5000).unwrap();
    let r = m.propose_sale(&env, listing_id, account(3), vec![account(4)]);
    assert_eq!(r, Err(MarketError::InsufficientApprovers));
    panic!("Insufficient approvers");
}

#[test]
fn test_approve_sale_success() {
    let admin = account(1);
    let (approver1, approver2, approver3) = (account(4), account(5), account(6));
    let env = ctx(1_000);
    let mut m = initialized(admin);
    m.set_approval_config(admin, 1000, 2, 3, 604800).unwrap();

    let listing_id = m.create_listing(&env, 1, account(2), 0, 5000).unwrap();
    let approval_id =
        m.propose_sale(&env, listing_id, account(3), vec![approver1, approver2, approver3]).unwrap();

    m.approve_sale(&env, approval_id, approver1).unwrap();
    let approval = m.get_approval(approval_id).unwrap().unwrap();
    assert!(approval.status == ApprovalStatus::Pending);
    assert_eq!(approval.approvals_received.len(), 1);

    m.approve_sale(&env, approval_id, approver2).unwrap();
    let approval = m.get_approval(approval_id).unwrap().unwrap();
    assert!(approval.status == ApprovalStatus::Approved);
    assert_eq!(approval.approvals_received.len(), 2);
}

#[test]
#[should_panic(expected = "Unauthorized approver")]
fn test_approve_sale_unauthorized() {
    let admin = account(1);
    let env = ctx(1_000);
    let mut m = initialized(admin);
    m.set_approval_config(admin, 1000, 2, 3, 604800).unwrap();

    let listing_id = m.create_listing(&env, 1, account(2), 0, 5000).unwrap();
    let approval_id = m.propose_sale(&env, listing_id, account(3), vec![account(4), account(5)]).unwrap();

    let r = m.approve_sale(&env, approval_id, account(66));
    assert_eq!(r, Err(MarketError::UnauthorizedApprover));
    panic!("Unauthorized approver");
}

#[test]
fn test_reject_sale() {
    let admin = account(1);
    let (approver1, approver2) = (account(4), account(5));
    let env = ctx(1_000);
    let mut m = initialized(admin);
    m.set_approval_config(admin, 1000, 2, 3, 604800).unwrap();

    let listing_id = m.create_listing(&env, 1, account(2), 0, 5000).unwrap();
    let approval_id = m.propose_sale(&env, listing_id, account(3), vec![approver1, approver2]).unwrap();

    let reason = "Suspicious activity detected".to_string();
    m.reject_sale(&env, approval_id, approver1, reason.clone()).unwrap();

    let approval = m.get_approval(approval_id).unwrap().unwrap();
    assert!(approval.status == ApprovalStatus::Rejected);
    assert_eq!(approval.rejections_received.len(), 1);
    assert_eq!(approval.rejection_reasons[0], reason);
}

#[test]
fn test_approval_history() {
    let admin = account(1);
    let (approver1, approver2) = (account(4), account(5));
    let env = ctx(1_000);
    let mut m = initialized(admin);
    m.set_approval_config(admin, 1000, 2, 3, 604800).unwrap();

    let listing_id = m.create_listing(&env, 1, account(2), 0, 5000).unwrap();
    let approval_id = m.propose_sale(&env, listing_id, account(3), vec![approver1, approver2]).unwrap();

    let history = m.get_approval_history(approval_id).unwrap();
    assert_eq!(history.len(), 1);
    assert_eq!(history[0].action.name(), "proposed");

    m.approve_sale(&env, approval_id, approver1).unwrap();
    let history = m.get_approval_history(approval_id).unwrap();
    assert_eq!(history.len(), 2);
    assert_eq!(history[1].action.name(), "approved");
    assert_eq!(history[1].action, ApprovalAction::Approved);
    assert_eq!(history[1].actor, approver1);
}

#[test]
fn test_approval_expiration() {
    let admin = account(1);
    let (approver1, approver2) = (account(4), account(5));
    let env = ctx(1_000);
    let mut m = initialized(admin);
    m.set_approval_config(admin, 1000, 2, 3, 1).unwrap();

    let listing_id = m.create_listing(&env, 1, account(2), 0, 5000).unwrap();
    let approval_id = m.propose_sale(&env, listing_id, account(3), vec![approver1, approver2]).unwrap();

    let later = ctx(1_000 + 2);
    assert_eq!(m.approve_sale(&later, approval_id, approver1), Err(MarketError::ApprovalExpired));
    m.cleanup_expired_approvals(&later);

    let approval = m.get_approval(approval_id).unwrap().unwrap();
    assert!(approval.status == ApprovalStatus::Expired);
    let history = m.get_approval_history(approval_id).unwrap();
    assert_eq!(history.len(), 2);
    assert_eq!(history[1].action, ApprovalAction::Expired);
    assert_eq!(history[1].actor, CONTRACT);
}

#[test]
fn test_execute_approved_sale() {
    let admin = account(1);
    let (approver1, approver2) = (account(4), account(5));
    let env = ctx(1_000);
    let mut m = initialized(admin);
    m.set_approval_config(admin, 1000, 2, 3, 604800).unwrap();

    let listing_id = m.create_listing(&env, 1, account(2), 0, 5000).unwrap();
    let approval_id = m.propose_sale(&env, listing_id, account(3), vec![approver1, approver2]).unwrap();

    m.approve_sale(&env, approval_id, approver1).unwrap();
    m.approve_sale(&env, approval_id, approver2).unwrap();
    let transfers = m.execute_approved_sale(&env, approval_id).unwrap();
    assert!(transfers.is_empty());

    let listing = m.get_listing(listing_id).unwrap().unwrap();
    assert!(!listing.active);

    let approval = m.get_approval(approval_id).unwrap().unwrap();
    assert!(approval.status == ApprovalStatus::Executed);

    // an executed approval is not executed again
    assert_eq!(m.execute_approved_sale(&env, approval_id), Err(MarketError::ApprovalNotApproved));
}

#[test]
#[should_panic]
fn test_buy_agent_requires_approval_for_high_value() {
    let admin = account(1);
    let env = ctx(1_000);
    let mut m = initialized(admin);
    m.set_approval_config(admin, 1000, 2, 3, 604800).unwrap();

    let listing_id = m.create_listing(&env, 1, account(2), 0, 5000).unwrap();
    let r = m.buy_agent(&env, listing_id, account(3));
    assert_eq!(r, Err(MarketError::ApprovalRequired));
    r.unwrap();
}

#[test]
fn test_buy_agent_below_threshold() {
    let admin = account(1);
    let env = ctx(1_000);
    let mut m = initialized(admin);
    m.set_approval_config(admin, 10000, 2, 3, 604800).unwrap();

    let listing_id = m.create_listing(&env, 1, account(2), 0, 5000).unwrap();
    m.buy_agent(&env, listing_id, account(3)).unwrap();

    let listing = m.get_listing(listing_id).unwrap().unwrap();
    assert!(!listing.active);

    // a sold listing is not sold again
    assert_eq!(m.buy_agent(&env, listing_id, account(7)), Err(MarketError::ListingNotActive));
}

#[test]
fn test_propose_auction_sale() {
    let admin = account(1);
    let (seller, bidder) = (account(2), account(3));
    let (approver1, approver2) = (account(4), account(5));
    let env = ctx(1_000);
    let mut m = initialized(admin);
    m.set_approval_config(admin, 1000, 2, 3, 604800).unwrap();

    let auction_id = m
        .create_auction(&env, 1, seller, AuctionType::English, 1000, 500, 86400, 1000, (None, None, None, None))
        .unwrap();

    let mut auction = get_auction(&m, auction_id).expect("auction not found");
    auction.highest_bidder = Some(bidder);
    auction.highest_bid = 2000;
    set_auction(&mut m, auction);

    let later = ctx(1_000 + 86401);
    let approval_id = m.propose_auction_sale(&later, auction_id, vec![approver1, approver2]).unwrap();

    let approval = m.get_approval(approval_id).unwrap().unwrap();
    assert_eq!(approval.approval_id, approval_id);
    assert_eq!(approval.auction_id, Some(auction_id));
    assert_eq!(approval.buyer, bidder);
    assert_eq!(approval.price, 2000);
    assert!(approval.status == ApprovalStatus::Pending);
}

#[test]
fn approver_cannot_vote_twice() {
    let admin = account(1);
    let (approver1, approver2, approver3) = (account(4), account(5), account(6));
    let env = ctx(1_000);
    let mut m = initialized(admin);
    m.set_approval_config(admin, 1000, 3, 3, 604800).unwrap();

    let listing_id = m.create_listing(&env, 1, account(2), 0, 5000).unwrap();
    let approval_id =
        m.propose_sale(&env, listing_id, account(3), vec![approver1, approver2, approver3]).unwrap();
    m.approve_sale(&env, approval_id, approver1).unwrap();
    assert_eq!(m.approve_sale(&env, approval_id, approver1), Err(MarketError::AlreadyApproved));
    assert_eq!(
        m.reject_sale(&env, approval_id, approver1, "late".to_string()),
        Err(MarketError::AlreadyApproved)
    );
    let approval = m.get_approval(approval_id).unwrap().unwrap();
    assert_eq!(approval.approvals_received.len(), 1);
}

#[test]
fn approval_config_validation_errors() {
    let admin = account(1);
    let mut m = initialized(admin);
    assert_eq!(m.set_approval_config(admin, 0, 1, 1, 10), Err(MarketError::InvalidThreshold));
    assert_eq!(m.set_approval_config(admin, 1, 0, 1, 10), Err(MarketError::InvalidApproversRequired));
    assert_eq!(m.set_approval_config(admin, 1, 2, 1, 10), Err(MarketError::InvalidTotalApprovers));
    assert_eq!(m.set_approval_config(admin, 1, 1, 1, 0), Err(MarketError::InvalidTtl));
    let uninit = Marketplace::new();
    let mut uninit = uninit;
    assert_eq!(uninit.set_approval_config(admin, 1, 1, 1, 1), Err(MarketError::NotInitialized));
}

#[test]
fn propose_sale_too_many_approvers() {
    let admin = account(1);
    let env = ctx(1_000);
    let mut m = initialized(admin);
    m.set_approval_config(admin, 1000, 1, 2, 604800).unwrap();
    let listing_id = m.create_listing(&env, 1, account(2), 0, 5000).unwrap();
    let r = m.propose_sale(&env, listing_id, account(3), vec![account(4), account(5), account(6)]);
    assert_eq!(r, Err(MarketError::TooManyApprovers));
}
