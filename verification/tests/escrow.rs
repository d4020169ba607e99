use auction_house::address::Address;
use auction_house::error::MarketError;
use auction_house::escrow::{Deposit, Withdraw};
use auction_house::ledger::Ledger;
use auction_house::market::MarketplaceConfig;
use auction_house::pda::find_escrow_payment_address;
use auction_house::records::{EscrowAccount, TokenAccount};

fn addr(n: u8) -> Address {
    Address::new([n; 32])
}

fn config() -> MarketplaceConfig {
    MarketplaceConfig {
        program: addr(200),
        id: addr(201),
        authority: addr(202),
        fee_receiver: addr(203),
        payment_asset: addr(204),
        fee_basis_points: 250,
        requires_sign_off: false,
    }
}

fn escrow_of(wallet: &Address) -> Address {
    find_escrow_payment_address(&config(), wallet).unwrap().0
}

#[test]
fn new_ledger_is_empty() {
    let ledger = Ledger::new();
    assert_eq!(ledger.wallet_balance(&addr(1)), 0);
    assert_eq!(ledger.escrow_balance(&addr(1)), 0);
    assert_eq!(ledger.escrow_account(&addr(1)), None);
    assert_eq!(ledger.trade_state(&addr(1)), None);
    assert_eq!(ledger.token_account(&addr(1)), None);
    assert_eq!(ledger.funds_issued(), 0);
    assert_eq!(ledger.units_minted(), 0);
}

#[test]
fn fund_wallet_adds_up_and_stops_at_the_limit() {
    let mut ledger = Ledger::new();
    assert!(ledger.fund_wallet(&addr(1), 10));
    assert!(ledger.fund_wallet(&addr(1), 5));
    assert!(ledger.fund_wallet(&addr(2), u64::MAX - 15));
    assert_eq!(ledger.wallet_balance(&addr(1)), 15);
    assert_eq!(ledger.funds_issued(), u64::MAX);
    assert!(!ledger.fund_wallet(&addr(3), 1));
    assert_eq!(ledger.wallet_balance(&addr(3)), 0);
    assert_eq!(ledger.funds_issued(), u64::MAX);
    assert!(ledger.fund_wallet(&addr(3), 0));
}

#[test]
fn open_token_account_refuses_a_taken_address_and_too_many_units() {
    let mut ledger = Ledger::new();
    let account = TokenAccount { owner: addr(1), asset: addr(2), amount: 3 };
    assert!(ledger.open_token_account(&addr(10), account));
    assert_eq!(ledger.token_account(&addr(10)), Some(account));
    assert!(!ledger.open_token_account(&addr(10), account));
    let huge = TokenAccount { owner: addr(1), asset: addr(2), amount: u64::MAX - 2 };
    assert!(!ledger.open_token_account(&addr(11), huge));
    assert_eq!(ledger.token_account(&addr(11)), None);
    assert_eq!(ledger.units_minted(), 3);
}

#[test]
fn deposit_moves_funds_into_escrow_and_creates_the_account() {
    let mut ledger = Ledger::new();
    let wallet = addr(1);
    let escrow = escrow_of(&wallet);
    assert!(ledger.fund_wallet(&wallet, 10_000_000_000));
    assert_eq!(ledger.escrow_account(&escrow), None);
    let request = Deposit { wallet, escrow_account: escrow, amount: 1_000_000_000 };
    assert_eq!(ledger.deposit(&config(), &request), Ok(()));
    assert_eq!(ledger.escrow_account(&escrow), Some(EscrowAccount { balance: 1_000_000_000 }));
    assert_eq!(ledger.wallet_balance(&wallet), 9_000_000_000);
    assert_eq!(ledger.funds_issued(), 10_000_000_000);
}

#[test]
fn deposit_beyond_the_wallet_is_rejected() {
    let mut ledger = Ledger::new();
    let wallet = addr(1);
    let escrow = escrow_of(&wallet);
    assert!(ledger.fund_wallet(&wallet, 99));
    let request = Deposit { wallet, escrow_account: escrow, amount: 100 };
    assert_eq!(ledger.deposit(&config(), &request), Err(MarketError::InsufficientFunds));
    assert_eq!(ledger.wallet_balance(&wallet), 99);
    assert_eq!(ledger.escrow_account(&escrow), None);
    let exact = Deposit { wallet, escrow_account: escrow, amount: 99 };
    assert_eq!(ledger.deposit(&config(), &exact), Ok(()));
    assert_eq!(ledger.wallet_balance(&wallet), 0);
    assert_eq!(ledger.escrow_balance(&escrow), 99);
}

#[test]
fn deposit_into_another_wallets_escrow_is_rejected() {
    let mut ledger = Ledger::new();
    let wallet = addr(1);
    assert!(ledger.fund_wallet(&wallet, 100));
    let request = Deposit { wallet, escrow_account: escrow_of(&addr(2)), amount: 10 };
    assert_eq!(ledger.deposit(&config(), &request), Err(MarketError::DerivationMismatch));
    assert_eq!(ledger.wallet_balance(&wallet), 100);
    assert_eq!(ledger.escrow_balance(&escrow_of(&addr(2))), 0);
}

#[test]
fn withdraw_returns_funds_and_keeps_the_empty_account() {
    let mut ledger = Ledger::new();
    let wallet = addr(1);
    let escrow = escrow_of(&wallet);
    assert!(ledger.fund_wallet(&wallet, 100));
    let put = Deposit { wallet, escrow_account: escrow, amount: 60 };
    assert_eq!(ledger.deposit(&config(), &put), Ok(()));
    let take = Withdraw { wallet, escrow_account: escrow, amount: 60 };
    assert_eq!(ledger.withdraw(&config(), &take), Ok(()));
    assert_eq!(ledger.wallet_balance(&wallet), 100);
    assert_eq!(ledger.escrow_account(&escrow), Some(EscrowAccount { balance: 0 }));
}

#[test]
fn withdraw_of_nothing_or_too_much_is_rejected() {
    let mut ledger = Ledger::new();
    let wallet = addr(1);
    let escrow = escrow_of(&wallet);
    assert!(ledger.fund_wallet(&wallet, 100));
    let put = Deposit { wallet, escrow_account: escrow, amount: 60 };
    assert_eq!(ledger.deposit(&config(), &put), Ok(()));
    let none = Withdraw { wallet, escrow_account: escrow, amount: 0 };
    assert_eq!(ledger.withdraw(&config(), &none), Err(MarketError::InsufficientEscrowBalance));
    let much = Withdraw { wallet, escrow_account: escrow, amount: 61 };
    assert_eq!(ledger.withdraw(&config(), &much), Err(MarketError::InsufficientEscrowBalance));
    assert_eq!(ledger.escrow_balance(&escrow), 60);
    assert_eq!(ledger.wallet_balance(&wallet), 40);
    let missing = Withdraw { wallet: addr(2), escrow_account: escrow_of(&addr(2)), amount: 1 };
    assert_eq!(ledger.withdraw(&config(), &missing), Err(MarketError::InsufficientEscrowBalance));
    assert_eq!(ledger.escrow_account(&escrow_of(&addr(2))), None);
}

#[test]
fn withdraw_from_another_wallets_escrow_is_rejected() {
    let mut ledger = Ledger::new();
    let owner = addr(1);
    let thief = addr(2);
    let escrow = escrow_of(&owner);
    assert!(ledger.fund_wallet(&owner, 100));
    let put = Deposit { wallet: owner, escrow_account: escrow, amount: 60 };
    assert_eq!(ledger.deposit(&config(), &put), Ok(()));
    let take = Withdraw { wallet: thief, escrow_account: escrow, amount: 60 };
    assert_eq!(ledger.withdraw(&config(), &take), Err(MarketError::DerivationMismatch));
    assert_eq!(ledger.escrow_balance(&escrow), 60);
    assert_eq!(ledger.wallet_balance(&thief), 0);
}

#[test]
fn escrow_balance_is_deposits_less_withdrawals() {
    let mut ledger = Ledger::new();
    let wallet = addr(1);
    let escrow = escrow_of(&wallet);
    assert!(ledger.fund_wallet(&wallet, 1_000));
    let deposits: [u64; 4] = [100, 250, 1, 49];
    let withdrawals: [u64; 3] = [50, 300, 1];
    let mut i = 0;
    while i < 4 {
        let put = Deposit { wallet, escrow_account: escrow, amount: deposits[i] };
        assert_eq!(ledger.deposit(&config(), &put), Ok(()));
        if i < 3 {
            let take = Withdraw { wallet, escrow_account: escrow, amount: withdrawals[i] };
            assert_eq!(ledger.withdraw(&config(), &take), Ok(()));
        }
        i += 1;
    }
    assert_eq!(ledger.escrow_balance(&escrow), 400 - 351);
    assert_eq!(ledger.wallet_balance(&wallet), 1_000 - 49);
    assert_eq!(ledger.funds_issued(), 1_000);
}

#[test]
fn apply_deposit_takes_the_derived_address_as_given() {
    let mut ledger = Ledger::new();
    let wallet = addr(1);
    assert!(ledger.fund_wallet(&wallet, 100));
    let request = Deposit { wallet, escrow_account: addr(7), amount: 30 };
    assert_eq!(
        ledger.apply_deposit(&request, Some((addr(8), 255))),
        Err(MarketError::DerivationMismatch)
    );
    assert_eq!(ledger.apply_deposit(&request, None), Err(MarketError::DerivationMismatch));
    assert_eq!(ledger.apply_deposit(&request, Some((addr(7), 255))), Ok(()));
    assert_eq!(ledger.escrow_balance(&addr(7)), 30);
    let take = Withdraw { wallet, escrow_account: addr(7), amount: 30 };
    assert_eq!(ledger.apply_withdraw(&take, None), Err(MarketError::DerivationMismatch));
    assert_eq!(ledger.apply_withdraw(&take, Some((addr(7), 1))), Ok(()));
    assert_eq!(ledger.wallet_balance(&wallet), 100);
}
