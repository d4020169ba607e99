use auction_house::address::Address;
use auction_house::error::MarketError;
use auction_house::escrow::{Deposit, Withdraw};
use auction_house::ledger::Ledger;
use auction_house::market::MarketplaceConfig;
use auction_house::order::OrderKind;
use auction_house::orders::{Buy, Sell};
use auction_house::pda::{
    find_escrow_payment_address, find_public_bid_trade_state_address, find_trade_state_address,
};
use auction_house::records::TokenAccount;
use auction_house::settlement::{ExecuteSale, Refund};
use auction_house::split::{split_price, RoyaltyShare};

fn addr(n: u8) -> Address {
    Address::new([n; 32])
}

const BUYER: u8 = 1;
const MINT: u8 = 2;
const SELLER_TOKENS: u8 = 3;
const BUYER_TOKENS: u8 = 4;
const SELLER: u8 = 5;
const CREATOR_A: u8 = 6;
const CREATOR_B: u8 = 7;
const FEES: u8 = 203;

fn config() -> MarketplaceConfig {
    MarketplaceConfig {
        program: addr(200),
        id: addr(201),
        authority: addr(202),
        fee_receiver: addr(FEES),
        payment_asset: addr(204),
        fee_basis_points: 250,
        requires_sign_off: false,
    }
}

fn shares() -> Vec<RoyaltyShare> {
    vec![
        RoyaltyShare { recipient: addr(CREATOR_A), basis_points: 500 },
        RoyaltyShare { recipient: addr(CREATOR_B), basis_points: 333 },
    ]
}

/// A ledger with a listing of one unit by the seller and a bid of the buyer,
/// both for `price`, and `escrowed` in the buyer's escrow account.
fn market(c: &MarketplaceConfig, price: u64, escrowed: u64, bid_kind: OrderKind) -> (Ledger, ExecuteSale) {
    let mut ledger = Ledger::new();
    assert!(ledger.fund_wallet(&addr(BUYER), 10_000_000_000));
    let escrow = find_escrow_payment_address(c, &addr(BUYER)).unwrap().0;
    if escrowed > 0 {
        let put = Deposit { wallet: addr(BUYER), escrow_account: escrow, amount: escrowed };
        assert_eq!(ledger.deposit(c, &put), Ok(()));
    }
    assert!(ledger.open_token_account(
        &addr(SELLER_TOKENS),
        TokenAccount { owner: addr(SELLER), asset: addr(MINT), amount: 1 }
    ));
    let (ask, _) =
        find_trade_state_address(c, &addr(SELLER), &addr(SELLER_TOKENS), &addr(MINT), price, 1)
            .unwrap();
    let listing = Sell {
        wallet: addr(SELLER),
        token_account: addr(SELLER_TOKENS),
        asset: addr(MINT),
        trade_state: ask,
        price,
        size: 1,
    };
    assert!(ledger.sell(c, &listing).is_ok());
    let (bid, _) = match bid_kind {
        OrderKind::Bound { token_account } => {
            find_trade_state_address(c, &addr(BUYER), &token_account, &addr(MINT), price, 1)
                .unwrap()
        }
        OrderKind::Unbound => {
            find_public_bid_trade_state_address(c, &addr(BUYER), &addr(MINT), price, 1).unwrap()
        }
    };
    let offer = Buy {
        wallet: addr(BUYER),
        asset: addr(MINT),
        kind: bid_kind,
        trade_state: bid,
        price,
        size: 1,
    };
    assert!(ledger.buy(c, &offer).is_ok());
    let request = ExecuteSale {
        buyer: addr(BUYER),
        seller: addr(SELLER),
        asset: addr(MINT),
        token_account: addr(SELLER_TOKENS),
        receipt_account: addr(BUYER_TOKENS),
        bid_kind,
        buyer_trade_state: bid,
        seller_trade_state: ask,
        escrow_account: escrow,
        price,
        size: 1,
        authority_signed: false,
    };
    (ledger, request)
}

fn bound() -> OrderKind {
    OrderKind::Bound { token_account: addr(SELLER_TOKENS) }
}

/// Everything that can be looked at from outside, for comparing a ledger
/// before and after a rejected request.
fn snapshot(ledger: &Ledger, request: &ExecuteSale) -> Vec<u64> {
    let mut seen = vec![ledger.funds_issued(), ledger.units_minted()];
    for who in [BUYER, SELLER, CREATOR_A, CREATOR_B, FEES] {
        seen.push(ledger.wallet_balance(&addr(who)));
    }
    seen.push(ledger.escrow_balance(&request.escrow_account));
    seen.push(ledger.trade_state(&request.seller_trade_state).is_some() as u64);
    seen.push(ledger.trade_state(&request.buyer_trade_state).is_some() as u64);
    seen.push(ledger.token_account(&request.token_account).map_or(u64::MAX, |a| a.amount));
    seen.push(ledger.token_account(&request.receipt_account).map_or(u64::MAX, |a| a.amount));
    seen
}

fn rejected(ledger: &mut Ledger, c: &MarketplaceConfig, request: &ExecuteSale, shares: &Vec<RoyaltyShare>, reason: MarketError) {
    let before = snapshot(ledger, request);
    match ledger.execute_sale(c, request, shares) {
        Err(found) => assert_eq!(found, reason),
        Ok(_) => panic!("the sale was accepted"),
    }
    assert_eq!(snapshot(ledger, request), before);
}

#[test]
fn split_price_rounds_down_and_gives_the_rest_to_the_seller() {
    let parts = split_price(1_000_000_000, 250, &shares()).unwrap();
    assert_eq!(parts.fee, 25_000_000);
    assert_eq!(parts.royalties, vec![50_000_000, 33_300_000]);
    assert_eq!(parts.proceeds, 891_700_000);
    let odd = split_price(999, 250, &shares()).unwrap();
    assert_eq!(odd.fee, 24);
    assert_eq!(odd.royalties, vec![49, 33]);
    assert_eq!(odd.proceeds, 893);
    assert_eq!(odd.fee + odd.royalties[0] + odd.royalties[1] + odd.proceeds, 999);
}

#[test]
fn split_price_edges() {
    let none: Vec<RoyaltyShare> = Vec::new();
    let free = split_price(0, 10000, &none).unwrap();
    assert_eq!((free.fee, free.royalties.len(), free.proceeds), (0, 0, 0));
    let all_fee = split_price(u64::MAX, 10000, &none).unwrap();
    assert_eq!((all_fee.fee, all_fee.proceeds), (u64::MAX, 0));
    let no_fee = split_price(u64::MAX, 0, &none).unwrap();
    assert_eq!((no_fee.fee, no_fee.proceeds), (0, u64::MAX));
    let tiny = split_price(3, 9999, &none).unwrap();
    assert_eq!((tiny.fee, tiny.proceeds), (2, 1));
    let full = vec![
        RoyaltyShare { recipient: addr(CREATOR_A), basis_points: 5000 },
        RoyaltyShare { recipient: addr(CREATOR_B), basis_points: 5000 },
    ];
    let shared = split_price(101, 0, &full).unwrap();
    assert_eq!(shared.royalties, vec![50, 50]);
    assert_eq!(shared.proceeds, 1);
}

#[test]
fn split_price_refuses_costs_beyond_the_price() {
    let none: Vec<RoyaltyShare> = Vec::new();
    assert!(split_price(100, 10001, &none).is_some());
    assert!(split_price(100, 10100, &none).is_none());
    assert!(split_price(10000, 10001, &none).is_none());
    assert!(split_price(u64::MAX, 65535, &none).is_none());
    let full = vec![RoyaltyShare { recipient: addr(CREATOR_A), basis_points: 10000 }];
    assert!(split_price(100, 1, &full).is_some());
    assert!(split_price(100, 100, &full).is_none());
    let over = vec![
        RoyaltyShare { recipient: addr(CREATOR_A), basis_points: 6000 },
        RoyaltyShare { recipient: addr(CREATOR_B), basis_points: 6000 },
    ];
    assert!(split_price(100, 0, &over).is_none());
    assert!(split_price(1, 0, &over).is_some());
}

#[test]
fn execute_sale_pays_everyone_and_closes_both_orders() {
    let c = config();
    let price = 1_000_000_000;
    let (mut ledger, request) = market(&c, price, price + 5, bound());
    let receipt = ledger.execute_sale(&c, &request, &shares()).unwrap();
    assert_eq!(receipt.parts.fee, 25_000_000);
    assert_eq!(receipt.parts.royalties, vec![50_000_000, 33_300_000]);
    assert_eq!(receipt.parts.proceeds, 891_700_000);
    assert_eq!(
        receipt.parts.fee + receipt.parts.royalties.iter().sum::<u64>() + receipt.parts.proceeds,
        price
    );
    assert_eq!(
        receipt.ask_refund,
        Refund { record: request.seller_trade_state, recipient: addr(SELLER) }
    );
    assert_eq!(
        receipt.bid_refund,
        Refund { record: request.buyer_trade_state, recipient: addr(BUYER) }
    );
    assert_eq!(ledger.escrow_balance(&request.escrow_account), 5);
    assert_eq!(ledger.wallet_balance(&addr(FEES)), 25_000_000);
    assert_eq!(ledger.wallet_balance(&addr(CREATOR_A)), 50_000_000);
    assert_eq!(ledger.wallet_balance(&addr(CREATOR_B)), 33_300_000);
    assert_eq!(ledger.wallet_balance(&addr(SELLER)), 891_700_000);
    assert_eq!(ledger.wallet_balance(&addr(BUYER)), 10_000_000_000 - price - 5);
    assert_eq!(ledger.funds_issued(), 10_000_000_000);
    assert_eq!(
        ledger.token_account(&addr(SELLER_TOKENS)),
        Some(TokenAccount { owner: addr(SELLER), asset: addr(MINT), amount: 0 })
    );
    assert_eq!(
        ledger.token_account(&addr(BUYER_TOKENS)),
        Some(TokenAccount { owner: addr(BUYER), asset: addr(MINT), amount: 1 })
    );
    assert_eq!(ledger.units_minted(), 1);
    assert_eq!(ledger.trade_state(&request.seller_trade_state), None);
    assert_eq!(ledger.trade_state(&request.buyer_trade_state), None);
}

#[test]
fn execute_sale_settles_a_public_bid() {
    let c = config();
    let (mut ledger, request) = market(&c, 999, 999, OrderKind::Unbound);
    let receipt = ledger.execute_sale(&c, &request, &shares()).unwrap();
    assert_eq!(receipt.parts.proceeds, 893);
    assert_eq!(ledger.escrow_balance(&request.escrow_account), 0);
    assert_eq!(ledger.wallet_balance(&addr(SELLER)), 893);
    assert_eq!(ledger.trade_state(&request.buyer_trade_state), None);
}

#[test]
fn execute_sale_adds_to_a_holding_account_the_buyer_has() {
    let c = config();
    let (mut ledger, request) = market(&c, 100, 100, bound());
    assert!(ledger.open_token_account(
        &addr(BUYER_TOKENS),
        TokenAccount { owner: addr(BUYER), asset: addr(MINT), amount: 4 }
    ));
    assert!(ledger.execute_sale(&c, &request, &shares()).is_ok());
    assert_eq!(ledger.token_account(&addr(BUYER_TOKENS)).unwrap().amount, 5);
    assert_eq!(ledger.units_minted(), 5);
}

#[test]
fn execute_sale_pays_a_recipient_named_twice_twice() {
    let c = MarketplaceConfig { fee_receiver: addr(SELLER), ..config() };
    let (mut ledger, request) = market(&c, 1000, 1000, bound());
    let twice = vec![
        RoyaltyShare { recipient: addr(SELLER), basis_points: 1000 },
        RoyaltyShare { recipient: addr(CREATOR_A), basis_points: 100 },
        RoyaltyShare { recipient: addr(SELLER), basis_points: 1000 },
    ];
    assert!(ledger.execute_sale(&c, &request, &twice).is_ok());
    assert_eq!(ledger.wallet_balance(&addr(CREATOR_A)), 10);
    assert_eq!(ledger.wallet_balance(&addr(SELLER)), 990);
}

#[test]
fn withdraw_then_settle_is_underfunded() {
    let c = config();
    let price = 1_000_000_000;
    let (mut ledger, request) = market(&c, price, price, bound());
    let take = Withdraw { wallet: addr(BUYER), escrow_account: request.escrow_account, amount: price };
    assert_eq!(ledger.withdraw(&c, &take), Ok(()));
    assert_eq!(ledger.escrow_balance(&request.escrow_account), 0);
    rejected(&mut ledger, &c, &request, &shares(), MarketError::InsufficientEscrowBalance);
}

#[test]
fn execute_sale_one_unit_short_is_rejected() {
    let c = config();
    let (mut ledger, request) = market(&c, 500, 499, bound());
    rejected(&mut ledger, &c, &request, &shares(), MarketError::InsufficientEscrowBalance);
}

#[test]
fn execute_sale_without_sign_off_is_rejected() {
    let c = MarketplaceConfig { requires_sign_off: true, ..config() };
    let (mut ledger, request) = market(&c, 500, 500, bound());
    rejected(&mut ledger, &c, &request, &shares(), MarketError::SignOffRequired);
    let signed = ExecuteSale { authority_signed: true, ..request };
    assert!(ledger.execute_sale(&c, &signed, &shares()).is_ok());
}

#[test]
fn execute_sale_with_a_wrong_listing_address_is_rejected() {
    let c = config();
    let (mut ledger, request) = market(&c, 500, 500, bound());
    let wrong = ExecuteSale { seller_trade_state: request.buyer_trade_state, ..request };
    rejected(&mut ledger, &c, &wrong, &shares(), MarketError::DerivationMismatch);
    let other_price = ExecuteSale { price: 499, ..request };
    rejected(&mut ledger, &c, &other_price, &shares(), MarketError::DerivationMismatch);
}

#[test]
fn execute_sale_with_a_wrong_bid_address_is_rejected() {
    let c = config();
    let (mut ledger, request) = market(&c, 500, 500, bound());
    let as_public = ExecuteSale { bid_kind: OrderKind::Unbound, ..request };
    rejected(&mut ledger, &c, &as_public, &shares(), MarketError::TradeStateAddressMismatch);
    let elsewhere = ExecuteSale {
        bid_kind: OrderKind::Bound { token_account: addr(90) },
        ..request
    };
    rejected(&mut ledger, &c, &elsewhere, &shares(), MarketError::TradeStateAddressMismatch);
}

#[test]
fn execute_sale_with_a_wrong_escrow_address_is_rejected() {
    let c = config();
    let (mut ledger, request) = market(&c, 500, 500, bound());
    let wrong = ExecuteSale {
        escrow_account: find_escrow_payment_address(&c, &addr(SELLER)).unwrap().0,
        ..request
    };
    rejected(&mut ledger, &c, &wrong, &shares(), MarketError::DerivationMismatch);
}

#[test]
fn execute_sale_twice_finds_no_orders() {
    let c = config();
    let (mut ledger, request) = market(&c, 500, 1000, bound());
    assert!(ledger.execute_sale(&c, &request, &shares()).is_ok());
    rejected(&mut ledger, &c, &request, &shares(), MarketError::TradeStateNotFound);
}

#[test]
fn execute_sale_with_costs_beyond_the_price_is_rejected() {
    let c = config();
    let (mut ledger, request) = market(&c, 500, 500, bound());
    let greedy = vec![RoyaltyShare { recipient: addr(CREATOR_A), basis_points: 9900 }];
    rejected(&mut ledger, &c, &request, &greedy, MarketError::CostsExceedPrice);
}

#[test]
fn execute_sale_without_the_asset_is_rejected() {
    let c = config();
    let (mut ledger, request) = market(&c, 500, 500, bound());
    let two = ExecuteSale { receipt_account: addr(SELLER_TOKENS), ..request };
    rejected(&mut ledger, &c, &two, &shares(), MarketError::InsufficientAssetBalance);
    assert!(ledger.open_token_account(
        &addr(BUYER_TOKENS),
        TokenAccount { owner: addr(BUYER), asset: addr(99), amount: 0 }
    ));
    rejected(&mut ledger, &c, &request, &shares(), MarketError::InsufficientAssetBalance);
}

#[test]
fn apply_sale_checks_in_order() {
    let c = MarketplaceConfig { requires_sign_off: true, ..config() };
    let mut ledger = Ledger::new();
    let request = ExecuteSale {
        buyer: addr(BUYER),
        seller: addr(SELLER),
        asset: addr(MINT),
        token_account: addr(SELLER_TOKENS),
        receipt_account: addr(BUYER_TOKENS),
        bid_kind: OrderKind::Unbound,
        buyer_trade_state: addr(31),
        seller_trade_state: addr(30),
        escrow_account: addr(32),
        price: 10,
        size: 1,
        authority_signed: false,
    };
    let none: Vec<RoyaltyShare> = Vec::new();
    let ask = Some((addr(30), 255));
    let bid = Some((addr(31), 254));
    let escrow = Some((addr(32), 253));
    let reason = |ledger: &mut Ledger, ask, bid, escrow| {
        ledger.apply_sale(&c, &request, &none, ask, bid, escrow).err()
    };
    assert_eq!(reason(&mut ledger, None, None, None), Some(MarketError::DerivationMismatch));
    assert_eq!(
        reason(&mut ledger, ask, None, None),
        Some(MarketError::TradeStateAddressMismatch)
    );
    assert_eq!(reason(&mut ledger, ask, bid, None), Some(MarketError::DerivationMismatch));
    assert_eq!(reason(&mut ledger, ask, bid, escrow), Some(MarketError::TradeStateNotFound));
    let listing = Sell {
        wallet: addr(SELLER),
        token_account: addr(SELLER_TOKENS),
        asset: addr(MINT),
        trade_state: addr(30),
        price: 10,
        size: 1,
    };
    assert!(ledger.open_token_account(
        &addr(SELLER_TOKENS),
        TokenAccount { owner: addr(SELLER), asset: addr(MINT), amount: 1 }
    ));
    assert!(ledger.apply_sell(&listing, ask).is_ok());
    assert_eq!(reason(&mut ledger, ask, bid, escrow), Some(MarketError::TradeStateNotFound));
    let offer = Buy {
        wallet: addr(BUYER),
        asset: addr(MINT),
        kind: OrderKind::Unbound,
        trade_state: addr(31),
        price: 10,
        size: 1,
    };
    assert!(ledger.apply_buy(&offer, bid).is_ok());
    assert_eq!(reason(&mut ledger, ask, bid, escrow), Some(MarketError::SignOffRequired));
    let signed = ExecuteSale { authority_signed: true, ..request };
    assert_eq!(
        ledger.apply_sale(&c, &signed, &none, ask, bid, escrow).err(),
        Some(MarketError::InsufficientEscrowBalance)
    );
    assert!(ledger.fund_wallet(&addr(BUYER), 10));
    let put = Deposit { wallet: addr(BUYER), escrow_account: addr(32), amount: 10 };
    assert_eq!(ledger.apply_deposit(&put, escrow), Ok(()));
    let receipt = ledger.apply_sale(&c, &signed, &none, ask, bid, escrow).unwrap();
    assert_eq!((receipt.parts.fee, receipt.parts.proceeds), (0, 10));
    assert_eq!(ledger.wallet_balance(&addr(SELLER)), 10);
}

#[test]
fn a_free_sale_needs_no_escrow_account() {
    let c = config();
    let (mut ledger, request) = market(&c, 0, 0, bound());
    assert!(ledger.execute_sale(&c, &request, &shares()).is_ok());
    assert_eq!(ledger.escrow_account(&request.escrow_account), None);
    assert_eq!(ledger.token_account(&addr(BUYER_TOKENS)).unwrap().amount, 1);
}
