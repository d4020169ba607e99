//! The ledger: spendable funds, escrow accounts, trade states and holding
//! accounts, each kept by address, and the moves between them.

use vstd::prelude::*;
use crate::address::Address;
use crate::records::{EscrowAccount, Holding, TokenAccount, TradeState};
use crate::table::Table;

verus! {

/// The ledger as a value: what is stored at which address.
pub struct LedgerView {
    /// Spendable payment funds of each wallet.
    pub funds: Map<Address, nat>,
    /// Balance of each escrow account, by derived address.
    pub escrows: Map<Address, nat>,
    /// Bump seed of each open order, by derived address.
    pub trades: Map<Address, u8>,
    /// Holding accounts of assets.
    pub tokens: Map<Address, Holding>,
}

impl LedgerView {
    /// What `wallet` can spend: nothing where it has no record.
    pub open spec fn spendable(self, wallet: Address) -> nat {
        if self.funds.contains_key(wallet) {
            self.funds[wallet]
        } else {
            0
        }
    }

    /// Balance of the escrow account at `escrow`: nothing where there is none.
    pub open spec fn escrowed(self, escrow: Address) -> nat {
        if self.escrows.contains_key(escrow) {
            self.escrows[escrow]
        } else {
            0
        }
    }

    /// Whether `account` is a holding account of `owner` for `asset` with at
    /// least `size` units in it.
    pub open spec fn holds(self, account: Address, owner: Address, asset: Address, size: nat) -> bool {
        &&& self.tokens.contains_key(account)
        &&& self.tokens[account].owner == owner
        &&& self.tokens[account].asset == asset
        &&& self.tokens[account].amount >= size
    }

    /// Whether units of `asset` can be received into `account` for `owner`:
    /// it is free, or it is a holding account of `owner` for `asset`.
    pub open spec fn receives(self, account: Address, owner: Address, asset: Address) -> bool {
        self.tokens.contains_key(account) ==> self.holds(account, owner, asset, 0)
    }

    /// The ledger after `amount` more was made spendable for `wallet`.
    pub open spec fn credited(self, wallet: Address, amount: nat) -> LedgerView {
        LedgerView { funds: self.funds.insert(wallet, self.spendable(wallet) + amount), ..self }
    }

    /// The ledger after `amount` went from what `wallet` can spend into the
    /// escrow account at `escrow`, which is created where it was missing.
    pub open spec fn moved_into_escrow(self, wallet: Address, escrow: Address, amount: nat) -> LedgerView {
        LedgerView {
            funds: self.funds.insert(wallet, (self.spendable(wallet) - amount) as nat),
            escrows: self.escrows.insert(escrow, self.escrowed(escrow) + amount),
            ..self
        }
    }

    /// The ledger after `amount` was taken out of an escrow account. An
    /// escrow account that does not exist stays so.
    pub open spec fn debited(self, escrow: Address, amount: nat) -> LedgerView {
        if self.escrows.contains_key(escrow) {
            LedgerView {
                escrows: self.escrows.insert(escrow, (self.escrowed(escrow) - amount) as nat),
                ..self
            }
        } else {
            self
        }
    }

    /// The ledger after `amount` went from the escrow account at `escrow` to
    /// what `recipient` can spend.
    pub open spec fn paid_from_escrow(self, escrow: Address, recipient: Address, amount: nat) -> LedgerView {
        self.debited(escrow, amount).credited(recipient, amount)
    }

    /// The ledger after an order was opened at `address`.
    pub open spec fn with_trade_state(self, address: Address, bump: u8) -> LedgerView {
        LedgerView { trades: self.trades.insert(address, bump), ..self }
    }

    /// The ledger after the order at `address` was closed.
    pub open spec fn without_trade_state(self, address: Address) -> LedgerView {
        LedgerView { trades: self.trades.remove(address), ..self }
    }

    /// The ledger after `size` units went from the holding account `from`
    /// into `to`, which is opened for `owner` where it was free.
    pub open spec fn with_asset_moved(self, from: Address, to: Address, owner: Address, size: nat) -> LedgerView {
        let source = self.tokens[from];
        let taken = self.tokens.insert(
            from,
            Holding { amount: (source.amount - size) as nat, ..source },
        );
        let target = if taken.contains_key(to) {
            Holding { amount: taken[to].amount + size, ..taken[to] }
        } else {
            Holding { owner, asset: source.asset, amount: size }
        };
        LedgerView { tokens: taken.insert(to, target), ..self }
    }
}

/// The ledger of one marketplace. Funds on it are counted in one payment
/// asset, so marketplaces that share a ledger share that asset. It keeps
/// count of the payment funds and of the asset units that exist on it; no
/// instruction changes either count.
pub struct Ledger {
    funds: Table<u64>,
    escrows: Table<EscrowAccount>,
    trades: Table<TradeState>,
    tokens: Table<TokenAccount>,
    issued: u64,
    minted: u64,
}

impl View for Ledger {
    type V = LedgerView;

    closed spec fn view(&self) -> LedgerView {
        LedgerView {
            funds: self.funds@.map_values(|balance: u64| balance as nat),
            escrows: self.escrows@.map_values(|account: EscrowAccount| account.balance as nat),
            trades: self.trades@.map_values(|state: TradeState| state.bump),
            tokens: self.tokens@.map_values(|account: TokenAccount| account@),
        }
    }
}

impl Ledger {
    /// Internal consistency: every store is consistent, and the two counts
    /// are the sums of what the records hold.
    pub closed spec fn wf(&self) -> bool {
        &&& self.funds.wf()
        &&& self.escrows.wf()
        &&& self.trades.wf()
        &&& self.tokens.wf()
        &&& self.issued == self.funds.total() + self.escrows.total()
        &&& self.minted == self.tokens.total()
    }

    /// All payment funds on the ledger, spendable and in escrow.
    pub closed spec fn issued(&self) -> nat {
        self.issued as nat
    }

    /// All asset units on the ledger.
    pub closed spec fn minted(&self) -> nat {
        self.minted as nat
    }

    /// A ledger with nothing on it.
    pub fn new() -> (ledger: Ledger)
        ensures
            ledger.wf(),
            ledger@.funds == Map::<Address, nat>::empty(),
            ledger@.escrows == Map::<Address, nat>::empty(),
            ledger@.trades == Map::<Address, u8>::empty(),
            ledger@.tokens == Map::<Address, Holding>::empty(),
            ledger.issued() == 0,
            ledger.minted() == 0,
    {
        let ledger = Ledger {
            funds: Table::new(),
            escrows: Table::new(),
            trades: Table::new(),
            tokens: Table::new(),
            issued: 0,
            minted: 0,
        };
        assert(ledger@.funds =~= Map::<Address, nat>::empty());
        assert(ledger@.escrows =~= Map::<Address, nat>::empty());
        assert(ledger@.trades =~= Map::<Address, u8>::empty());
        assert(ledger@.tokens =~= Map::<Address, Holding>::empty());
        ledger
    }

    /// What `wallet` can spend.
    pub fn wallet_balance(&self, wallet: &Address) -> (balance: u64)
        requires
            self.wf(),
        ensures
            balance == self@.spendable(*wallet),
    {
        self.funds_of(wallet)
    }

    fn funds_of(&self, wallet: &Address) -> (balance: u64)
        requires
            self.funds.wf(),
        ensures
            balance == self@.spendable(*wallet),
            balance == self.funds.weight_at(*wallet),
    {
        match self.funds.get(wallet) {
            Some(balance) => balance,
            None => 0,
        }
    }

    /// The escrow account at `escrow`, if it exists.
    pub fn escrow_account(&self, escrow: &Address) -> (found: Option<EscrowAccount>)
        requires
            self.wf(),
        ensures
            found.is_some() == self@.escrows.contains_key(*escrow),
            found matches Some(account) ==> account.balance == self@.escrows[*escrow],
    {
        self.escrows.get(escrow)
    }

    /// Balance of the escrow account at `escrow`: nothing where there is none.
    pub fn escrow_balance(&self, escrow: &Address) -> (balance: u64)
        requires
            self.wf(),
        ensures
            balance == self@.escrowed(*escrow),
    {
        match self.escrows.get(escrow) {
            Some(account) => account.balance,
            None => 0,
        }
    }

    /// The order open at `address`, if there is one.
    pub fn trade_state(&self, address: &Address) -> (found: Option<TradeState>)
        requires
            self.wf(),
        ensures
            found.is_some() == self@.trades.contains_key(*address),
            found matches Some(state) ==> state.bump == self@.trades[*address],
    {
        self.trades.get(address)
    }

    /// The holding account at `address`, if there is one.
    pub fn token_account(&self, address: &Address) -> (found: Option<TokenAccount>)
        requires
            self.wf(),
        ensures
            found.is_some() == self@.tokens.contains_key(*address),
            found matches Some(account) ==> account@ == self@.tokens[*address],
    {
        self.tokens.get(address)
    }

    /// All payment funds on the ledger.
    pub fn funds_issued(&self) -> (total: u64)
        ensures
            total == self.issued(),
    {
        self.issued
    }

    /// All asset units on the ledger.
    pub fn units_minted(&self) -> (total: u64)
        ensures
            total == self.minted(),
    {
        self.minted
    }

    /// No wallet and no escrow account holds more than was issued, and no
    /// holding account more than was minted.
    pub proof fn lemma_balances_within_counts(&self, wallet: Address, escrow: Address, account: Address)
        requires
            self.wf(),
        ensures
            self@.spendable(wallet) + self@.escrowed(escrow) <= self.issued(),
            self.issued() <= u64::MAX,
            self@.tokens.contains_key(account) ==> self@.tokens[account].amount <= self.minted(),
            self.minted() <= u64::MAX,
    {
        self.funds.lemma_weight_within_total(wallet);
        self.escrows.lemma_weight_within_total(escrow);
        self.tokens.lemma_weight_within_total(account);
    }

    /// Brings `amount` of new payment funds onto the ledger, spendable by
    /// `wallet`. Refused, with nothing changed, where the ledger's count of
    /// funds would pass what sixty-four bits hold.
    pub fn fund_wallet(&mut self, wallet: &Address, amount: u64) -> (done: bool)
        requires
            old(self).wf(),
        ensures
            final(self).wf(),
            done == (old(self).issued() + amount <= u64::MAX),
            done ==> final(self)@ == old(self)@.credited(*wallet, amount as nat),
            done ==> final(self).issued() == old(self).issued() + amount,
            !done ==> *final(self) == *old(self),
            final(self).minted() == old(self).minted(),
    {
        if amount > u64::MAX - self.issued {
            return false;
        }
        proof {
            self.funds.lemma_weight_within_total(*wallet);
        }
        let had = self.funds_of(wallet);
        self.funds.insert(*wallet, had + amount);
        self.issued = self.issued + amount;
        assert(self@.funds =~= old(self)@.credited(*wallet, amount as nat).funds);
        true
    }

    /// Opens a holding account at `address`, with the units in it newly
    /// minted. Refused, with nothing changed, where the address already has a
    /// holding account or the ledger's count of units would pass what
    /// sixty-four bits hold.
    pub fn open_token_account(&mut self, address: &Address, account: TokenAccount) -> (done: bool)
        requires
            old(self).wf(),
        ensures
            final(self).wf(),
            done == (!old(self)@.tokens.contains_key(*address) && old(self).minted()
                + account.amount <= u64::MAX),
            done ==> final(self)@ == (LedgerView {
                tokens: old(self)@.tokens.insert(*address, account@),
                ..old(self)@
            }),
            done ==> final(self).minted() == old(self).minted() + account.amount,
            !done ==> *final(self) == *old(self),
            final(self).issued() == old(self).issued(),
    {
        if account.amount > u64::MAX - self.minted {
            return false;
        }
        if self.tokens.get(address).is_some() {
            return false;
        }
        self.tokens.insert(*address, account);
        self.minted = self.minted + account.amount;
        assert(self@.tokens =~= old(self)@.tokens.insert(*address, account@));
        true
    }

    /// Moves `amount` from what `wallet` can spend into an escrow account.
    pub(crate) fn move_into_escrow(&mut self, wallet: &Address, escrow: &Address, amount: u64)
        requires
            old(self).wf(),
            amount <= old(self)@.spendable(*wallet),
        ensures
            final(self).wf(),
            final(self)@ == old(self)@.moved_into_escrow(*wallet, *escrow, amount as nat),
            final(self).issued() == old(self).issued(),
            final(self).minted() == old(self).minted(),
    {
        proof {
            self.funds.lemma_weight_within_total(*wallet);
            self.escrows.lemma_weight_within_total(*escrow);
        }
        let had = self.funds_of(wallet);
        let held = self.escrow_balance(escrow);
        self.funds.insert(*wallet, had - amount);
        self.escrows.insert(*escrow, EscrowAccount { balance: held + amount });
        let ghost expected = old(self)@.moved_into_escrow(*wallet, *escrow, amount as nat);
        assert(self@.funds =~= expected.funds);
        assert(self@.escrows =~= expected.escrows);
    }

    /// Moves `amount` out of an escrow account to what `recipient` can spend.
    pub(crate) fn pay_from_escrow(&mut self, escrow: &Address, recipient: &Address, amount: u64)
        requires
            old(self).wf(),
            amount <= old(self)@.escrowed(*escrow),
        ensures
            final(self).wf(),
            final(self)@ == old(self)@.paid_from_escrow(*escrow, *recipient, amount as nat),
            final(self).issued() == old(self).issued(),
            final(self).minted() == old(self).minted(),
    {
        proof {
            self.funds.lemma_weight_within_total(*recipient);
            self.escrows.lemma_weight_within_total(*escrow);
        }
        let had = self.funds_of(recipient);
        match self.escrows.get(escrow) {
            Some(account) => {
                self.escrows.insert(*escrow, EscrowAccount { balance: account.balance - amount });
            },
            None => {},
        }
        self.funds.insert(*recipient, had + amount);
        let ghost expected = old(self)@.paid_from_escrow(*escrow, *recipient, amount as nat);
        assert(self@.funds =~= expected.funds);
        assert(self@.escrows =~= expected.escrows);
    }

    /// Opens an order at `address`.
    pub(crate) fn open_trade_state(&mut self, address: &Address, bump: u8)
        requires
            old(self).wf(),
        ensures
            final(self).wf(),
            final(self)@ == old(self)@.with_trade_state(*address, bump),
            final(self).issued() == old(self).issued(),
            final(self).minted() == old(self).minted(),
    {
        self.trades.insert(*address, TradeState { bump });
        assert(self@.trades =~= old(self)@.with_trade_state(*address, bump).trades);
    }

    /// Closes the order at `address`.
    pub(crate) fn close_trade_state(&mut self, address: &Address)
        requires
            old(self).wf(),
        ensures
            final(self).wf(),
            final(self)@ == old(self)@.without_trade_state(*address),
            final(self).issued() == old(self).issued(),
            final(self).minted() == old(self).minted(),
    {
        self.trades.remove(address);
        assert(self@.trades =~= old(self)@.without_trade_state(*address).trades);
    }

    /// Moves `size` units from one holding account into another, which is
    /// opened for `owner` where it was free.
    pub(crate) fn move_asset(&mut self, from: &Address, to: &Address, owner: &Address, size: u64)
        requires
            old(self).wf(),
            old(self)@.tokens.contains_key(*from),
            old(self)@.tokens[*from].amount >= size,
        ensures
            final(self).wf(),
            final(self)@ == old(self)@.with_asset_moved(*from, *to, *owner, size as nat),
            final(self).issued() == old(self).issued(),
            final(self).minted() == old(self).minted(),
    {
        proof {
            self.tokens.lemma_weight_within_total(*from);
        }
        let source = self.tokens.get(from).unwrap();
        self.tokens.insert(*from, TokenAccount { amount: source.amount - size, ..source });
        proof {
            self.tokens.lemma_weight_within_total(*to);
        }
        let target = match self.tokens.get(to) {
            Some(had) => TokenAccount { amount: had.amount + size, ..had },
            None => TokenAccount { owner: *owner, asset: source.asset, amount: size },
        };
        self.tokens.insert(*to, target);
        assert(self@.tokens =~= old(self)@.with_asset_moved(*from, *to, *owner, size as nat).tokens);
    }
}

} // verus!
