//! Placing and cancelling orders: listings, bids, and their trade states.

use vstd::prelude::*;
use crate::address::Address;
use crate::error::MarketError;
use crate::ledger::{Ledger, LedgerView};
use crate::market::MarketplaceConfig;
use crate::order::{OrderKind, OrderTerms};
use crate::pda::{
    confirm_address,
    derived_view,
    derives_to,
    find_order_address,
    trade_state_derivation,
};
use crate::records::TradeState;
use crate::settlement::Refund;

verus! {

/// A request to list `size` units of `asset`, held in `token_account`, for
/// `price`.
#[derive(Clone, Copy, Debug)]
pub struct Sell {
    pub wallet: Address,
    pub token_account: Address,
    pub asset: Address,
    /// Address of the listing, as the caller gives it.
    pub trade_state: Address,
    pub price: u64,
    pub size: u64,
}

/// A request to bid `price` for `size` units of `asset`. The kind says which
/// accounts came with the request: a holding account for a bound bid, none
/// for a public one.
#[derive(Clone, Copy, Debug)]
pub struct Buy {
    pub wallet: Address,
    pub asset: Address,
    pub kind: OrderKind,
    /// Address of the bid, as the caller gives it.
    pub trade_state: Address,
    pub price: u64,
    pub size: u64,
}

/// A request to close an open order of `wallet`.
#[derive(Clone, Copy, Debug)]
pub struct Cancel {
    pub wallet: Address,
    pub asset: Address,
    pub kind: OrderKind,
    /// Address of the order, as the caller gives it.
    pub trade_state: Address,
    pub price: u64,
    pub size: u64,
}

impl Sell {
    /// The terms of the listing: always bound to the holding account.
    pub open spec fn spec_terms(&self) -> OrderTerms {
        OrderTerms {
            wallet: self.wallet,
            asset: self.asset,
            kind: OrderKind::Bound { token_account: self.token_account },
            price: self.price,
            size: self.size,
        }
    }

    /// The terms of the listing: always bound to the holding account.
    #[verifier::when_used_as_spec(spec_terms)]
    pub fn terms(&self) -> (terms: OrderTerms)
        ensures
            terms == self.spec_terms(),
    {
        OrderTerms {
            wallet: self.wallet,
            asset: self.asset,
            kind: OrderKind::Bound { token_account: self.token_account },
            price: self.price,
            size: self.size,
        }
    }
}

impl Buy {
    /// The terms of the bid.
    pub open spec fn spec_terms(&self) -> OrderTerms {
        OrderTerms {
            wallet: self.wallet,
            asset: self.asset,
            kind: self.kind,
            price: self.price,
            size: self.size,
        }
    }

    /// The terms of the bid.
    #[verifier::when_used_as_spec(spec_terms)]
    pub fn terms(&self) -> (terms: OrderTerms)
        ensures
            terms == self.spec_terms(),
    {
        OrderTerms {
            wallet: self.wallet,
            asset: self.asset,
            kind: self.kind,
            price: self.price,
            size: self.size,
        }
    }
}

impl Cancel {
    /// The terms of the order to close.
    pub open spec fn spec_terms(&self) -> OrderTerms {
        OrderTerms {
            wallet: self.wallet,
            asset: self.asset,
            kind: self.kind,
            price: self.price,
            size: self.size,
        }
    }

    /// The terms of the order to close.
    #[verifier::when_used_as_spec(spec_terms)]
    pub fn terms(&self) -> (terms: OrderTerms)
        ensures
            terms == self.spec_terms(),
    {
        OrderTerms {
            wallet: self.wallet,
            asset: self.asset,
            kind: self.kind,
            price: self.price,
            size: self.size,
        }
    }
}

/// The bump seed of a derivation, where there is one.
pub open spec fn bump_of(derived: Option<(Seq<u8>, u8)>) -> u8 {
    match derived {
        Some((_, bump)) => bump,
        None => 0,
    }
}

/// Why a listing is rejected, if it is. `derived` is the address derived for
/// its trade state.
pub open spec fn sell_rejection(
    ledger: LedgerView,
    request: Sell,
    derived: Option<(Seq<u8>, u8)>,
) -> Option<MarketError> {
    if !derives_to(derived, request.trade_state) {
        Some(MarketError::DerivationMismatch)
    } else if !ledger.holds(
        request.token_account,
        request.wallet,
        request.asset,
        request.size as nat,
    ) {
        Some(MarketError::InsufficientAssetBalance)
    } else if ledger.trades.contains_key(request.trade_state) {
        Some(MarketError::TradeStateAlreadyExists)
    } else {
        None
    }
}

/// Why a bid is rejected, if it is. `derived` is the address derived for the
/// kind of order that the accounts of the request stand for.
pub open spec fn buy_rejection(
    ledger: LedgerView,
    request: Buy,
    derived: Option<(Seq<u8>, u8)>,
) -> Option<MarketError> {
    if !derives_to(derived, request.trade_state) {
        Some(MarketError::TradeStateAddressMismatch)
    } else if ledger.trades.contains_key(request.trade_state) {
        Some(MarketError::TradeStateAlreadyExists)
    } else {
        None
    }
}

/// Why a cancellation is rejected, if it is.
pub open spec fn cancel_rejection(
    ledger: LedgerView,
    request: Cancel,
    derived: Option<(Seq<u8>, u8)>,
) -> Option<MarketError> {
    if !derives_to(derived, request.trade_state) {
        Some(MarketError::TradeStateAddressMismatch)
    } else if !ledger.trades.contains_key(request.trade_state) {
        Some(MarketError::TradeStateNotFound)
    } else {
        None
    }
}

/// What placing an order does: it is rejected for `rejection` and changes
/// nothing, or a trade state with the derived bump seed is opened at the
/// address, and nothing else changes.
pub open spec fn placement_outcome(
    before: LedgerView,
    after: LedgerView,
    result: Result<TradeState, MarketError>,
    rejection: Option<MarketError>,
    trade_state: Address,
    derived: Option<(Seq<u8>, u8)>,
) -> bool {
    match rejection {
        Some(reason) => result == Err::<TradeState, MarketError>(reason) && after == before,
        None => {
            &&& result == Ok::<TradeState, MarketError>(TradeState { bump: bump_of(derived) })
            &&& after == before.with_trade_state(trade_state, bump_of(derived))
        },
    }
}

/// What a cancellation does: it is rejected and changes nothing, or the
/// trade state is closed and its storage goes back to the wallet, and nothing
/// else changes.
pub open spec fn cancel_outcome(
    before: LedgerView,
    after: LedgerView,
    result: Result<Refund, MarketError>,
    request: Cancel,
    derived: Option<(Seq<u8>, u8)>,
) -> bool {
    match cancel_rejection(before, request, derived) {
        Some(reason) => result == Err::<Refund, MarketError>(reason) && after == before,
        None => {
            &&& result == Ok::<Refund, MarketError>(
                Refund { record: request.trade_state, recipient: request.wallet },
            )
            &&& after == before.without_trade_state(request.trade_state)
        },
    }
}

impl Ledger {
    /// Places a listing, given the address derived for its trade state.
    pub fn apply_sell(&mut self, request: &Sell, derived: Option<(Address, u8)>) -> (result: Result<
        TradeState,
        MarketError,
    >)
        requires
            old(self).wf(),
        ensures
            final(self).wf(),
            final(self).issued() == old(self).issued(),
            final(self).minted() == old(self).minted(),
            placement_outcome(
                old(self)@,
                final(self)@,
                result,
                sell_rejection(old(self)@, *request, derived_view(derived)),
                request.trade_state,
                derived_view(derived),
            ),
    {
        let bump = match confirm_address(derived, &request.trade_state) {
            Some(bump) => bump,
            None => {
                return Err(MarketError::DerivationMismatch);
            },
        };
        let holds = match self.token_account(&request.token_account) {
            Some(account) => account.owner.eq(&request.wallet) && account.asset.eq(&request.asset)
                && account.amount >= request.size,
            None => false,
        };
        if !holds {
            return Err(MarketError::InsufficientAssetBalance);
        }
        if self.trade_state(&request.trade_state).is_some() {
            return Err(MarketError::TradeStateAlreadyExists);
        }
        self.open_trade_state(&request.trade_state, bump);
        Ok(TradeState { bump })
    }

    /// Lists units of an asset for sale. The wallet has to hold them in the
    /// holding account that it names; the address of the listing is derived
    /// anew, bound to that account, and held against the one that the caller
    /// gave.
    pub fn sell(&mut self, config: &MarketplaceConfig, request: &Sell) -> (result: Result<
        TradeState,
        MarketError,
    >)
        requires
            old(self).wf(),
        ensures
            final(self).wf(),
            final(self).issued() == old(self).issued(),
            final(self).minted() == old(self).minted(),
            placement_outcome(
                old(self)@,
                final(self)@,
                result,
                sell_rejection(
                    old(self)@,
                    *request,
                    trade_state_derivation(*config, request.terms()),
                ),
                request.trade_state,
                trade_state_derivation(*config, request.terms()),
            ),
    {
        let derived = find_order_address(config, &request.terms());
        self.apply_sell(request, derived)
    }

    /// Places a bid, given the address derived for the kind of order that
    /// the accounts of the request stand for.
    pub fn apply_buy(&mut self, request: &Buy, derived: Option<(Address, u8)>) -> (result: Result<
        TradeState,
        MarketError,
    >)
        requires
            old(self).wf(),
        ensures
            final(self).wf(),
            final(self).issued() == old(self).issued(),
            final(self).minted() == old(self).minted(),
            placement_outcome(
                old(self)@,
                final(self)@,
                result,
                buy_rejection(old(self)@, *request, derived_view(derived)),
                request.trade_state,
                derived_view(derived),
            ),
    {
        let bump = match confirm_address(derived, &request.trade_state) {
            Some(bump) => bump,
            None => {
                return Err(MarketError::TradeStateAddressMismatch);
            },
        };
        if self.trade_state(&request.trade_state).is_some() {
            return Err(MarketError::TradeStateAlreadyExists);
        }
        self.open_trade_state(&request.trade_state, bump);
        Ok(TradeState { bump })
    }

    /// Places a bid. The address of the bid is derived anew for the kind of
    /// order that the accounts of the request stand for, and held against the
    /// one that the caller gave: the address of a public bid with the
    /// accounts of a bound one, or the other way round, is rejected. No funds
    /// move: a bid is paid from escrow when it is settled.
    pub fn buy(&mut self, config: &MarketplaceConfig, request: &Buy) -> (result: Result<
        TradeState,
        MarketError,
    >)
        requires
            old(self).wf(),
        ensures
            final(self).wf(),
            final(self).issued() == old(self).issued(),
            final(self).minted() == old(self).minted(),
            placement_outcome(
                old(self)@,
                final(self)@,
                result,
                buy_rejection(
                    old(self)@,
                    *request,
                    trade_state_derivation(*config, request.terms()),
                ),
                request.trade_state,
                trade_state_derivation(*config, request.terms()),
            ),
    {
        let derived = find_order_address(config, &request.terms());
        self.apply_buy(request, derived)
    }

    /// Closes an order, given the address derived from its terms.
    pub fn apply_cancel(&mut self, request: &Cancel, derived: Option<(Address, u8)>) -> (result:
        Result<Refund, MarketError>)
        requires
            old(self).wf(),
        ensures
            final(self).wf(),
            final(self).issued() == old(self).issued(),
            final(self).minted() == old(self).minted(),
            cancel_outcome(old(self)@, final(self)@, result, *request, derived_view(derived)),
    {
        if confirm_address(derived, &request.trade_state).is_none() {
            return Err(MarketError::TradeStateAddressMismatch);
        }
        if self.trade_state(&request.trade_state).is_none() {
            return Err(MarketError::TradeStateNotFound);
        }
        self.close_trade_state(&request.trade_state);
        Ok(Refund { record: request.trade_state, recipient: request.wallet })
    }

    /// Closes an open order of the calling wallet and hands its storage back
    /// to the wallet. The order has to be at the address derived from the
    /// wallet and the terms, and it has to exist. No funds move.
    pub fn cancel(&mut self, config: &MarketplaceConfig, request: &Cancel) -> (result: Result<
        Refund,
        MarketError,
    >)
        requires
            old(self).wf(),
        ensures
            final(self).wf(),
            final(self).issued() == old(self).issued(),
            final(self).minted() == old(self).minted(),
            cancel_outcome(
                old(self)@,
                final(self)@,
                result,
                *request,
                trade_state_derivation(*config, request.terms()),
            ),
    {
        let derived = find_order_address(config, &request.terms());
        self.apply_cancel(request, derived)
    }
}

/// No order is open twice. Two bids with the same terms derive the same
/// address, and once the first is placed, the second is rejected: as a
/// duplicate where it names that address, as a mismatch where it names
/// another.
pub proof fn lemma_second_bid_is_rejected(
    ledger: LedgerView,
    config: MarketplaceConfig,
    first: Buy,
    second: Buy,
)
    requires
        first.terms() == second.terms(),
        buy_rejection(ledger, first, trade_state_derivation(config, first.terms())).is_none(),
    ensures
        trade_state_derivation(config, second.terms()) == trade_state_derivation(
            config,
            first.terms(),
        ),
        derives_to(trade_state_derivation(config, second.terms()), first.trade_state),
        buy_rejection(
            ledger.with_trade_state(
                first.trade_state,
                bump_of(trade_state_derivation(config, first.terms())),
            ),
            second,
            trade_state_derivation(config, second.terms()),
        ) == Some(
            if second.trade_state == first.trade_state {
                MarketError::TradeStateAlreadyExists
            } else {
                MarketError::TradeStateAddressMismatch
            },
        ),
{
    Address::lemma_same_bytes(first.trade_state, second.trade_state);
}

/// No listing is open twice. Two listings with the same terms derive the
/// same address, and once the first is placed, the second is rejected: as a
/// duplicate where it names that address, as a mismatch where it names
/// another.
pub proof fn lemma_second_listing_is_rejected(
    ledger: LedgerView,
    config: MarketplaceConfig,
    first: Sell,
    second: Sell,
)
    requires
        first.terms() == second.terms(),
        sell_rejection(ledger, first, trade_state_derivation(config, first.terms())).is_none(),
    ensures
        trade_state_derivation(config, second.terms()) == trade_state_derivation(
            config,
            first.terms(),
        ),
        derives_to(trade_state_derivation(config, second.terms()), first.trade_state),
        sell_rejection(
            ledger.with_trade_state(
                first.trade_state,
                bump_of(trade_state_derivation(config, first.terms())),
            ),
            second,
            trade_state_derivation(config, second.terms()),
        ) == Some(
            if second.trade_state == first.trade_state {
                MarketError::TradeStateAlreadyExists
            } else {
                MarketError::DerivationMismatch
            },
        ),
{
    Address::lemma_same_bytes(first.trade_state, second.trade_state);
}

/// An accepted cancellation closes the order and moves no funds: every
/// escrow account, every wallet and every holding account is as before.
pub proof fn lemma_cancel_moves_no_funds(
    before: LedgerView,
    after: LedgerView,
    result: Result<Refund, MarketError>,
    request: Cancel,
    derived: Option<(Seq<u8>, u8)>,
)
    requires
        cancel_outcome(before, after, result, request, derived),
        result.is_ok(),
    ensures
        before.trades.contains_key(request.trade_state),
        !after.trades.contains_key(request.trade_state),
        after.escrows == before.escrows,
        after.funds == before.funds,
        after.tokens == before.tokens,
{
}

/// A rejected bid leaves no trace: no trade state is opened and no balance
/// changes. That is so, in particular, for a bid that names the address of a
/// public bid together with the accounts of a bound one.
pub proof fn lemma_rejected_bid_changes_nothing(
    before: LedgerView,
    after: LedgerView,
    result: Result<TradeState, MarketError>,
    request: Buy,
    derived: Option<(Seq<u8>, u8)>,
)
    requires
        placement_outcome(
            before,
            after,
            result,
            buy_rejection(before, request, derived),
            request.trade_state,
            derived,
        ),
        !derives_to(derived, request.trade_state),
    ensures
        result == Err::<TradeState, MarketError>(MarketError::TradeStateAddressMismatch),
        after == before,
{
}

} // verus!
