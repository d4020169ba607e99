use auction_house::address::Address;
use auction_house::records::{EscrowAccount, TradeState};
use auction_house::table::Table;

fn addr(n: u8) -> Address {
    Address::new([n; 32])
}

#[test]
fn trade_state_is_stored_as_its_bump() {
    assert_eq!(TradeState { bump: 254 }.to_bytes(), vec![254]);
    assert_eq!(TradeState::from_bytes(&[7]), Some(TradeState { bump: 7 }));
    assert_eq!(TradeState::from_bytes(&[]), None);
    assert_eq!(TradeState::from_bytes(&[1, 2]), None);
}

#[test]
fn escrow_account_is_stored_as_eight_bytes_least_significant_first() {
    let account = EscrowAccount { balance: 1_000_000_000 };
    assert_eq!(account.to_bytes(), vec![0x00, 0xca, 0x9a, 0x3b, 0, 0, 0, 0]);
    assert_eq!(EscrowAccount::from_bytes(&account.to_bytes()), Some(account));
    assert_eq!(
        EscrowAccount::from_bytes(&[1, 2, 0, 0, 0, 0, 0, 0x80]),
        Some(EscrowAccount { balance: 0x8000_0000_0000_0201 })
    );
    assert_eq!(EscrowAccount::from_bytes(&[0; 7]), None);
    assert_eq!(EscrowAccount::from_bytes(&[0; 9]), None);
    assert_eq!(EscrowAccount { balance: u64::MAX }.to_bytes(), vec![255; 8]);
}

#[test]
fn table_keeps_one_record_for_each_address() {
    let mut table: Table<u64> = Table::new();
    assert_eq!(table.get(&addr(1)), None);
    table.insert(addr(1), 10);
    table.insert(addr(2), 20);
    table.insert(addr(1), 11);
    assert_eq!(table.get(&addr(1)), Some(11));
    assert_eq!(table.get(&addr(2)), Some(20));
    assert_eq!(table.remove(&addr(1)), Some(11));
    assert_eq!(table.remove(&addr(1)), None);
    assert_eq!(table.get(&addr(1)), None);
    assert_eq!(table.get(&addr(2)), Some(20));
    table.insert(addr(3), 30);
    assert_eq!(table.remove(&addr(2)), Some(20));
    assert_eq!(table.get(&addr(3)), Some(30));
}
