//! Deposits into and withdrawals from a wallet's escrow account.

use vstd::prelude::*;
use crate::address::Address;
use crate::error::MarketError;
use crate::ledger::{Ledger, LedgerView};
use crate::market::MarketplaceConfig;
use crate::pda::{
    confirm_address,
    derived_view,
    derives_to,
    escrow_derivation,
    find_escrow_payment_address,
};

verus! {

/// A request to move `amount` from what `wallet` can spend into its escrow
/// account.
#[derive(Clone, Copy, Debug)]
pub struct Deposit {
    pub wallet: Address,
    /// Address of the escrow account, as the caller gives it.
    pub escrow_account: Address,
    pub amount: u64,
}

/// A request to move `amount` out of the escrow account of `wallet`, back to
/// what it can spend.
#[derive(Clone, Copy, Debug)]
pub struct Withdraw {
    pub wallet: Address,
    /// Address of the escrow account, as the caller gives it.
    pub escrow_account: Address,
    pub amount: u64,
}

/// Why a deposit is rejected, if it is. `escrow` is the address derived for
/// the wallet's escrow account.
pub open spec fn deposit_rejection(
    ledger: LedgerView,
    request: Deposit,
    escrow: Option<(Seq<u8>, u8)>,
) -> Option<MarketError> {
    if !derives_to(escrow, request.escrow_account) {
        Some(MarketError::DerivationMismatch)
    } else if ledger.spendable(request.wallet) < request.amount {
        Some(MarketError::InsufficientFunds)
    } else {
        None
    }
}

/// What a deposit does: it is rejected and changes nothing, or the amount
/// moves from the wallet into the escrow account.
pub open spec fn deposit_outcome(
    before: LedgerView,
    after: LedgerView,
    result: Result<(), MarketError>,
    request: Deposit,
    escrow: Option<(Seq<u8>, u8)>,
) -> bool {
    match deposit_rejection(before, request, escrow) {
        Some(reason) => result == Err::<(), MarketError>(reason) && after == before,
        None => result.is_ok() && after == before.moved_into_escrow(
            request.wallet,
            request.escrow_account,
            request.amount as nat,
        ),
    }
}

/// Why a withdrawal is rejected, if it is. Nothing but the balance of the
/// escrow account decides: open bids reserve no funds.
pub open spec fn withdraw_rejection(
    ledger: LedgerView,
    request: Withdraw,
    escrow: Option<(Seq<u8>, u8)>,
) -> Option<MarketError> {
    if !derives_to(escrow, request.escrow_account) {
        Some(MarketError::DerivationMismatch)
    } else if request.amount == 0 || ledger.escrowed(request.escrow_account) < request.amount {
        Some(MarketError::InsufficientEscrowBalance)
    } else {
        None
    }
}

/// What a withdrawal does: it is rejected and changes nothing, or the amount
/// moves from the escrow account back to the wallet.
pub open spec fn withdraw_outcome(
    before: LedgerView,
    after: LedgerView,
    result: Result<(), MarketError>,
    request: Withdraw,
    escrow: Option<(Seq<u8>, u8)>,
) -> bool {
    match withdraw_rejection(before, request, escrow) {
        Some(reason) => result == Err::<(), MarketError>(reason) && after == before,
        None => result.is_ok() && after == before.paid_from_escrow(
            request.escrow_account,
            request.wallet,
            request.amount as nat,
        ),
    }
}

impl Ledger {
    /// Carries out a deposit, given the address derived for the wallet's
    /// escrow account.
    pub fn apply_deposit(&mut self, request: &Deposit, escrow: Option<(Address, u8)>) -> (result:
        Result<(), MarketError>)
        requires
            old(self).wf(),
            request.amount > 0,
        ensures
            final(self).wf(),
            final(self).issued() == old(self).issued(),
            final(self).minted() == old(self).minted(),
            deposit_outcome(old(self)@, final(self)@, result, *request, derived_view(escrow)),
    {
        if confirm_address(escrow, &request.escrow_account).is_none() {
            return Err(MarketError::DerivationMismatch);
        }
        if self.wallet_balance(&request.wallet) < request.amount {
            return Err(MarketError::InsufficientFunds);
        }
        self.move_into_escrow(&request.wallet, &request.escrow_account, request.amount);
        Ok(())
    }

    /// Moves funds of a wallet into its escrow account, which is created with
    /// the first deposit. The address of the account is derived anew and held
    /// against the one that the caller gave.
    pub fn deposit(&mut self, config: &MarketplaceConfig, request: &Deposit) -> (result: Result<
        (),
        MarketError,
    >)
        requires
            old(self).wf(),
            request.amount > 0,
        ensures
            final(self).wf(),
            final(self).issued() == old(self).issued(),
            final(self).minted() == old(self).minted(),
            deposit_outcome(
                old(self)@,
                final(self)@,
                result,
                *request,
                escrow_derivation(*config, request.wallet),
            ),
    {
        let escrow = find_escrow_payment_address(config, &request.wallet);
        self.apply_deposit(request, escrow)
    }

    /// Carries out a withdrawal, given the address derived for the wallet's
    /// escrow account.
    pub fn apply_withdraw(&mut self, request: &Withdraw, escrow: Option<(Address, u8)>) -> (result:
        Result<(), MarketError>)
        requires
            old(self).wf(),
        ensures
            final(self).wf(),
            final(self).issued() == old(self).issued(),
            final(self).minted() == old(self).minted(),
            withdraw_outcome(old(self)@, final(self)@, result, *request, derived_view(escrow)),
    {
        if confirm_address(escrow, &request.escrow_account).is_none() {
            return Err(MarketError::DerivationMismatch);
        }
        if request.amount == 0 || self.escrow_balance(&request.escrow_account) < request.amount {
            return Err(MarketError::InsufficientEscrowBalance);
        }
        self.pay_from_escrow(&request.escrow_account, &request.wallet, request.amount);
        Ok(())
    }

    /// Moves funds out of a wallet's escrow account, back to the wallet. The
    /// address of the account is derived anew and held against the one that
    /// the caller gave. Funds behind an open bid can be withdrawn like any
    /// other: whether a bid is covered is decided when it is settled.
    pub fn withdraw(&mut self, config: &MarketplaceConfig, request: &Withdraw) -> (result: Result<
        (),
        MarketError,
    >)
        requires
            old(self).wf(),
        ensures
            final(self).wf(),
            final(self).issued() == old(self).issued(),
            final(self).minted() == old(self).minted(),
            withdraw_outcome(
                old(self)@,
                final(self)@,
                result,
                *request,
                escrow_derivation(*config, request.wallet),
            ),
    {
        let escrow = find_escrow_payment_address(config, &request.wallet);
        self.apply_withdraw(request, escrow)
    }
}

/// One move on an escrow account.
pub enum EscrowStep {
    Deposit { amount: u64 },
    Withdraw { amount: u64 },
}

/// The ledger after one accepted deposit or withdrawal of `wallet` on its
/// escrow account at `escrow`, or `None` where the step is rejected.
pub open spec fn step_taken(
    ledger: LedgerView,
    wallet: Address,
    escrow: Address,
    step: EscrowStep,
) -> Option<LedgerView> {
    let derived = Some((escrow@, 255u8));
    match step {
        EscrowStep::Deposit { amount } => {
            let request = Deposit { wallet, escrow_account: escrow, amount };
            if amount > 0 && deposit_rejection(ledger, request, derived).is_none() {
                Some(ledger.moved_into_escrow(wallet, escrow, amount as nat))
            } else {
                None
            }
        },
        EscrowStep::Withdraw { amount } => {
            let request = Withdraw { wallet, escrow_account: escrow, amount };
            if withdraw_rejection(ledger, request, derived).is_none() {
                Some(ledger.paid_from_escrow(escrow, wallet, amount as nat))
            } else {
                None
            }
        },
    }
}

/// The ledger after a run of deposits and withdrawals that were all
/// accepted, or `None` where one of them is rejected.
pub open spec fn steps_taken(
    ledger: LedgerView,
    wallet: Address,
    escrow: Address,
    steps: Seq<EscrowStep>,
) -> Option<LedgerView>
    decreases steps.len(),
{
    if steps.len() == 0 {
        Some(ledger)
    } else {
        match steps_taken(ledger, wallet, escrow, steps.drop_last()) {
            Some(earlier) => step_taken(earlier, wallet, escrow, steps.last()),
            None => None,
        }
    }
}

/// Everything that a run of steps deposits.
pub open spec fn deposited(steps: Seq<EscrowStep>) -> nat
    decreases steps.len(),
{
    if steps.len() == 0 {
        0
    } else {
        deposited(steps.drop_last()) + (match steps.last() {
            EscrowStep::Deposit { amount } => amount as nat,
            EscrowStep::Withdraw { .. } => 0,
        })
    }
}

/// Everything that a run of steps withdraws.
pub open spec fn withdrawn(steps: Seq<EscrowStep>) -> nat
    decreases steps.len(),
{
    if steps.len() == 0 {
        0
    } else {
        withdrawn(steps.drop_last()) + (match steps.last() {
            EscrowStep::Deposit { .. } => 0,
            EscrowStep::Withdraw { amount } => amount as nat,
        })
    }
}

/// After any run of accepted deposits and withdrawals, the escrow account
/// holds what it held before, plus the deposits, minus the withdrawals; the
/// withdrawals never come to more than that. What the wallet can spend has
/// changed by the opposite amount.
pub proof fn lemma_escrow_balance_is_deposits_less_withdrawals(
    ledger: LedgerView,
    wallet: Address,
    escrow: Address,
    steps: Seq<EscrowStep>,
)
    requires
        steps_taken(ledger, wallet, escrow, steps).is_some(),
    ensures
        withdrawn(steps) <= ledger.escrowed(escrow) + deposited(steps),
        steps_taken(ledger, wallet, escrow, steps).unwrap().escrowed(escrow) == ledger.escrowed(
            escrow,
        ) + deposited(steps) - withdrawn(steps),
        deposited(steps) <= ledger.spendable(wallet) + withdrawn(steps),
        steps_taken(ledger, wallet, escrow, steps).unwrap().spendable(wallet) == ledger.spendable(
            wallet,
        ) + withdrawn(steps) - deposited(steps),
    decreases steps.len(),
{
    if steps.len() > 0 {
        lemma_escrow_balance_is_deposits_less_withdrawals(
            ledger,
            wallet,
            escrow,
            steps.drop_last(),
        );
    }
}

/// Open orders reserve nothing: whether a withdrawal is accepted does not
/// depend on which orders are open.
pub proof fn lemma_orders_reserve_no_funds(
    ledger: LedgerView,
    request: Withdraw,
    escrow: Option<(Seq<u8>, u8)>,
    order: Address,
    bump: u8,
)
    ensures
        withdraw_rejection(ledger.with_trade_state(order, bump), request, escrow)
            == withdraw_rejection(ledger, request, escrow),
{
}

} // verus!
