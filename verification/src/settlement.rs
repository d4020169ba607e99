//! Settlement: one listing and one bid are matched, the asset changes hands,
//! the price is paid out of the buyer's escrow, and both orders are closed.

use vstd::prelude::*;
use crate::address::Address;
use crate::error::MarketError;
use crate::ledger::{Ledger, LedgerView};
use crate::market::MarketplaceConfig;
use crate::order::{OrderKind, OrderTerms};
use crate::pda::{
    confirm_address,
    derived_view,
    derives_to,
    escrow_derivation,
    find_escrow_payment_address,
    find_order_address,
    trade_state_derivation,
};
use crate::split::{
    amount_of,
    costs_of,
    lemma_amount_of_concat,
    lemma_amount_of_prefix,
    royalty_payments,
    share_of,
    split_price,
    Disbursement,
    Payment,
    RoyaltyShare,
};

verus! {

/// A request to settle a listing of `seller` against a bid of `buyer`.
#[derive(Clone, Copy, Debug)]
pub struct ExecuteSale {
    pub buyer: Address,
    pub seller: Address,
    pub asset: Address,
    /// The seller's holding account, which the listing is bound to.
    pub token_account: Address,
    /// The holding account in which the buyer receives the asset.
    pub receipt_account: Address,
    /// The kind of the bid.
    pub bid_kind: OrderKind,
    /// Address of the bid, as the caller gives it.
    pub buyer_trade_state: Address,
    /// Address of the listing, as the caller gives it.
    pub seller_trade_state: Address,
    /// Address of the buyer's escrow account, as the caller gives it.
    pub escrow_account: Address,
    pub price: u64,
    pub size: u64,
    /// Whether the marketplace authority signed the request.
    pub authority_signed: bool,
}

/// Storage of a closed record, to be handed back to a wallet.
#[derive(Clone, Copy, Debug, PartialEq, Eq)]
pub struct Refund {
    pub record: Address,
    pub recipient: Address,
}

/// What a settlement paid and which storage it freed.
#[derive(Debug)]
pub struct SaleReceipt {
    pub parts: Disbursement,
    pub ask_refund: Refund,
    pub bid_refund: Refund,
}

impl ExecuteSale {
    /// The terms of the listing that the request names.
    pub open spec fn ask_terms(self) -> OrderTerms {
        OrderTerms {
            wallet: self.seller,
            asset: self.asset,
            kind: OrderKind::Bound { token_account: self.token_account },
            price: self.price,
            size: self.size,
        }
    }

    /// The terms of the bid that the request names.
    pub open spec fn bid_terms(self) -> OrderTerms {
        OrderTerms {
            wallet: self.buyer,
            asset: self.asset,
            kind: self.bid_kind,
            price: self.price,
            size: self.size,
        }
    }

    /// Whether the bid can meet the listing: a bound bid has to be bound to
    /// the holding account that is sold from.
    pub open spec fn bid_meets_ask(self) -> bool {
        match self.bid_kind {
            OrderKind::Bound { token_account } => token_account == self.token_account,
            OrderKind::Unbound => true,
        }
    }

    /// The terms of the listing that the request names.
    pub fn ask(&self) -> (terms: OrderTerms)
        ensures
            terms == self.ask_terms(),
    {
        OrderTerms {
            wallet: self.seller,
            asset: self.asset,
            kind: OrderKind::Bound { token_account: self.token_account },
            price: self.price,
            size: self.size,
        }
    }

    /// The terms of the bid that the request names.
    pub fn bid(&self) -> (terms: OrderTerms)
        ensures
            terms == self.bid_terms(),
    {
        OrderTerms {
            wallet: self.buyer,
            asset: self.asset,
            kind: self.bid_kind,
            price: self.price,
            size: self.size,
        }
    }
}

/// Everything that a settlement pays, in the order in which it is paid: the
/// fee to the marketplace, the royalties, and the rest to the seller.
pub open spec fn sale_payments(
    config: MarketplaceConfig,
    request: ExecuteSale,
    shares: Seq<RoyaltyShare>,
) -> Seq<Payment> {
    let price = request.price as nat;
    let costs = costs_of(price, config.fee_basis_points as nat, shares);
    seq![(config.fee_receiver, share_of(price, config.fee_basis_points as nat))]
        + royalty_payments(price, shares) + seq![(request.seller, (price - costs) as nat)]
}

/// The ledger after a list of payments out of one escrow account.
pub open spec fn paid_out(ledger: LedgerView, escrow: Address, payments: Seq<Payment>) -> LedgerView
    decreases payments.len(),
{
    if payments.len() == 0 {
        ledger
    } else {
        paid_out(ledger, escrow, payments.drop_last()).paid_from_escrow(
            escrow,
            payments.last().0,
            payments.last().1,
        )
    }
}

/// Why a settlement is rejected, if it is. `ask`, `bid` and `escrow` are the
/// addresses derived for the listing, the bid and the buyer's escrow account.
pub open spec fn sale_rejection(
    ledger: LedgerView,
    config: MarketplaceConfig,
    request: ExecuteSale,
    shares: Seq<RoyaltyShare>,
    ask: Option<(Seq<u8>, u8)>,
    bid: Option<(Seq<u8>, u8)>,
    escrow: Option<(Seq<u8>, u8)>,
) -> Option<MarketError> {
    if !derives_to(ask, request.seller_trade_state) {
        Some(MarketError::DerivationMismatch)
    } else if !request.bid_meets_ask() || !derives_to(bid, request.buyer_trade_state) {
        Some(MarketError::TradeStateAddressMismatch)
    } else if !derives_to(escrow, request.escrow_account) {
        Some(MarketError::DerivationMismatch)
    } else if !ledger.trades.contains_key(request.seller_trade_state)
        || !ledger.trades.contains_key(request.buyer_trade_state) {
        Some(MarketError::TradeStateNotFound)
    } else if config.requires_sign_off && !request.authority_signed {
        Some(MarketError::SignOffRequired)
    } else if ledger.escrowed(request.escrow_account) < request.price {
        Some(MarketError::InsufficientEscrowBalance)
    } else if costs_of(request.price as nat, config.fee_basis_points as nat, shares)
        > request.price {
        Some(MarketError::CostsExceedPrice)
    } else if !ledger.holds(
        request.token_account,
        request.seller,
        request.asset,
        request.size as nat,
    ) || !ledger.receives(request.receipt_account, request.buyer, request.asset) {
        Some(MarketError::InsufficientAssetBalance)
    } else {
        None
    }
}

/// The ledger after a settlement: the price paid out of the buyer's escrow,
/// the asset moved to the buyer, and both orders closed.
pub open spec fn after_sale(
    ledger: LedgerView,
    config: MarketplaceConfig,
    request: ExecuteSale,
    shares: Seq<RoyaltyShare>,
) -> LedgerView {
    paid_out(
        ledger,
        request.escrow_account,
        sale_payments(config, request, shares),
    ).with_asset_moved(
        request.token_account,
        request.receipt_account,
        request.buyer,
        request.size as nat,
    ).without_trade_state(request.seller_trade_state).without_trade_state(
        request.buyer_trade_state,
    )
}

/// What a settlement does, given the three derived addresses: it is rejected
/// for the first reason that holds and changes nothing, or it takes effect as
/// a whole and reports what it paid.
pub open spec fn sale_outcome(
    before: LedgerView,
    after: LedgerView,
    result: Result<SaleReceipt, MarketError>,
    config: MarketplaceConfig,
    request: ExecuteSale,
    shares: Seq<RoyaltyShare>,
    ask: Option<(Seq<u8>, u8)>,
    bid: Option<(Seq<u8>, u8)>,
    escrow: Option<(Seq<u8>, u8)>,
) -> bool {
    match sale_rejection(before, config, request, shares, ask, bid, escrow) {
        Some(reason) => result == Err::<SaleReceipt, MarketError>(reason) && after == before,
        None => {
            &&& result matches Ok(receipt)
            &&& receipt.parts.divides(
                request.price as nat,
                config.fee_basis_points as nat,
                shares,
            )
            &&& receipt.parts.total() == request.price
            &&& receipt.ask_refund == (Refund {
                record: request.seller_trade_state,
                recipient: request.seller,
            })
            &&& receipt.bid_refund == (Refund {
                record: request.buyer_trade_state,
                recipient: request.buyer,
            })
            &&& after == after_sale(before, config, request, shares)
        },
    }
}

/// Fee, royalties and proceeds of a settlement make up the price exactly,
/// wherever fee and royalties do not pass it.
pub proof fn lemma_sale_pays_the_price(
    config: MarketplaceConfig,
    request: ExecuteSale,
    shares: Seq<RoyaltyShare>,
)
    requires
        costs_of(request.price as nat, config.fee_basis_points as nat, shares) <= request.price,
    ensures
        amount_of(sale_payments(config, request, shares)) == request.price,
        sale_payments(config, request, shares).len() == shares.len() + 2,
{
    let price = request.price as nat;
    let costs = costs_of(price, config.fee_basis_points as nat, shares);
    let first = seq![(config.fee_receiver, share_of(price, config.fee_basis_points as nat))];
    let middle = royalty_payments(price, shares);
    let last = seq![(request.seller, (price - costs) as nat)];
    lemma_amount_of_concat(first, middle);
    lemma_amount_of_concat(first + middle, last);
    assert(amount_of(Seq::<Payment>::empty()) == 0);
    assert(first.drop_last() =~= Seq::<Payment>::empty());
    assert(last.drop_last() =~= Seq::<Payment>::empty());
    assert(amount_of(first) == first[0].1);
    assert(amount_of(last) == last[0].1);
}

/// What a list of payments pays to one recipient, who may be named more
/// than once.
pub open spec fn paid_to(payments: Seq<Payment>, recipient: Address) -> nat
    decreases payments.len(),
{
    if payments.len() == 0 {
        0
    } else {
        paid_to(payments.drop_last(), recipient) + (if payments.last().0 == recipient {
            payments.last().1
        } else {
            0
        })
    }
}

/// Payments out of an escrow account take exactly their sum out of it, give
/// every recipient exactly what the list pays to it, and touch no other
/// escrow account, no order and no holding account.
pub proof fn lemma_paid_out_debits_the_sum(
    ledger: LedgerView,
    escrow: Address,
    payments: Seq<Payment>,
)
    requires
        amount_of(payments) <= ledger.escrowed(escrow),
    ensures
        paid_out(ledger, escrow, payments).escrowed(escrow) == ledger.escrowed(escrow) - amount_of(
            payments,
        ),
        forall|other: Address|
            other != escrow ==> #[trigger] paid_out(ledger, escrow, payments).escrowed(other)
                == ledger.escrowed(other),
        forall|recipient: Address| #[trigger]
            paid_out(ledger, escrow, payments).spendable(recipient) == ledger.spendable(recipient)
                + paid_to(payments, recipient),
        paid_out(ledger, escrow, payments).escrows.dom() == ledger.escrows.dom(),
        paid_out(ledger, escrow, payments).trades == ledger.trades,
        paid_out(ledger, escrow, payments).tokens == ledger.tokens,
    decreases payments.len(),
{
    if payments.len() > 0 {
        lemma_paid_out_debits_the_sum(ledger, escrow, payments.drop_last());
        let earlier = paid_out(ledger, escrow, payments.drop_last());
        let now = paid_out(ledger, escrow, payments);
        assert(now.escrows.dom() =~= earlier.escrows.dom());
        assert forall|other: Address| other != escrow implies #[trigger] now.escrowed(other)
            == ledger.escrowed(other) by {
            assert(earlier.escrowed(other) == ledger.escrowed(other));
        }
        assert forall|recipient: Address| #[trigger]
            now.spendable(recipient) == ledger.spendable(recipient) + paid_to(
                payments,
                recipient,
            ) by {
            assert(earlier.spendable(recipient) == ledger.spendable(recipient) + paid_to(
                payments.drop_last(),
                recipient,
            ));
        }
    }
}

/// What an accepted settlement comes to: the buyer's escrow account is down
/// by the price and no other escrow account changes; every recipient has
/// what the payments give it; the units are out of the seller's holding
/// account and in the buyer's; and both orders are closed, all others left
/// open.
pub proof fn lemma_sale_effects(
    ledger: LedgerView,
    config: MarketplaceConfig,
    request: ExecuteSale,
    shares: Seq<RoyaltyShare>,
    ask: Option<(Seq<u8>, u8)>,
    bid: Option<(Seq<u8>, u8)>,
    escrow: Option<(Seq<u8>, u8)>,
)
    requires
        sale_rejection(ledger, config, request, shares, ask, bid, escrow).is_none(),
    ensures
        ({
            let after = after_sale(ledger, config, request, shares);
            let payments = sale_payments(config, request, shares);
            &&& after.escrowed(request.escrow_account) == ledger.escrowed(request.escrow_account)
                - request.price
            &&& forall|other: Address|
                other != request.escrow_account ==> #[trigger] after.escrowed(other)
                    == ledger.escrowed(other)
            &&& forall|recipient: Address| #[trigger]
                after.spendable(recipient) == ledger.spendable(recipient) + paid_to(
                    payments,
                    recipient,
                )
            &&& amount_of(payments) == request.price
            &&& !after.trades.contains_key(request.seller_trade_state)
            &&& !after.trades.contains_key(request.buyer_trade_state)
            &&& forall|order: Address|
                order != request.seller_trade_state && order != request.buyer_trade_state ==> (
                #[trigger] after.trades.contains_key(order) == ledger.trades.contains_key(order))
            &&& after.holds(
                request.receipt_account,
                request.buyer,
                request.asset,
                request.size as nat,
            )
            &&& request.token_account != request.receipt_account ==> {
                &&& after.tokens[request.token_account].amount
                    == ledger.tokens[request.token_account].amount - request.size
                &&& after.tokens[request.receipt_account].amount == (if ledger.tokens.contains_key(
                    request.receipt_account,
                ) {
                    ledger.tokens[request.receipt_account].amount
                } else {
                    0
                }) + request.size
            }
            &&& forall|account: Address|
                account != request.token_account && account != request.receipt_account ==> (
                #[trigger] after.tokens.contains_key(account) == ledger.tokens.contains_key(account)
                    && (ledger.tokens.contains_key(account) ==> after.tokens[account]
                    == ledger.tokens[account]))
        }),
{
    let payments = sale_payments(config, request, shares);
    let paid = paid_out(ledger, request.escrow_account, payments);
    let after = after_sale(ledger, config, request, shares);
    lemma_sale_pays_the_price(config, request, shares);
    lemma_paid_out_debits_the_sum(ledger, request.escrow_account, payments);
    assert(after.escrows == paid.escrows);
    assert(after.funds == paid.funds);
    assert forall|other: Address| other != request.escrow_account implies #[trigger]
        after.escrowed(other) == ledger.escrowed(other) by {
        assert(paid.escrowed(other) == ledger.escrowed(other));
    }
    assert forall|recipient: Address| #[trigger]
        after.spendable(recipient) == ledger.spendable(recipient) + paid_to(
            payments,
            recipient,
        ) by {
        assert(paid.spendable(recipient) == ledger.spendable(recipient) + paid_to(
            payments,
            recipient,
        ));
    }
}

/// Whether a bid is covered is decided when it is settled, against what the
/// escrow account holds then: a settlement that passes every earlier check
/// is rejected for want of funds exactly when the account holds less than
/// the price, whatever it held when the bid was placed.
pub proof fn lemma_sale_needs_the_price_in_escrow(
    ledger: LedgerView,
    config: MarketplaceConfig,
    request: ExecuteSale,
    shares: Seq<RoyaltyShare>,
    ask: Option<(Seq<u8>, u8)>,
    bid: Option<(Seq<u8>, u8)>,
    escrow: Option<(Seq<u8>, u8)>,
)
    requires
        derives_to(ask, request.seller_trade_state),
        request.bid_meets_ask(),
        derives_to(bid, request.buyer_trade_state),
        derives_to(escrow, request.escrow_account),
        ledger.trades.contains_key(request.seller_trade_state),
        ledger.trades.contains_key(request.buyer_trade_state),
        config.requires_sign_off ==> request.authority_signed,
    ensures
        (sale_rejection(ledger, config, request, shares, ask, bid, escrow) == Some(
            MarketError::InsufficientEscrowBalance,
        )) <==> ledger.escrowed(request.escrow_account) < request.price,
{
}

impl Ledger {
    /// Settles a listing against a bid, given the addresses derived for the
    /// listing, the bid and the buyer's escrow account.
    ///
    /// Every check comes before any change. The escrow balance is checked
    /// here, against what the account holds now: no bid reserves funds.
    pub fn apply_sale(
        &mut self,
        config: &MarketplaceConfig,
        request: &ExecuteSale,
        shares: &Vec<RoyaltyShare>,
        ask: Option<(Address, u8)>,
        bid: Option<(Address, u8)>,
        escrow: Option<(Address, u8)>,
    ) -> (result: Result<SaleReceipt, MarketError>)
        requires
            old(self).wf(),
        ensures
            final(self).wf(),
            final(self).issued() == old(self).issued(),
            final(self).minted() == old(self).minted(),
            sale_outcome(
                old(self)@,
                final(self)@,
                result,
                *config,
                *request,
                shares@,
                derived_view(ask),
                derived_view(bid),
                derived_view(escrow),
            ),
    {
        if confirm_address(ask, &request.seller_trade_state).is_none() {
            return Err(MarketError::DerivationMismatch);
        }
        let bid_meets_ask = match request.bid_kind {
            OrderKind::Bound { token_account } => token_account.eq(&request.token_account),
            OrderKind::Unbound => true,
        };
        if !bid_meets_ask || confirm_address(bid, &request.buyer_trade_state).is_none() {
            return Err(MarketError::TradeStateAddressMismatch);
        }
        if confirm_address(escrow, &request.escrow_account).is_none() {
            return Err(MarketError::DerivationMismatch);
        }
        if self.trade_state(&request.seller_trade_state).is_none() || self.trade_state(
            &request.buyer_trade_state,
        ).is_none() {
            return Err(MarketError::TradeStateNotFound);
        }
        if config.requires_sign_off && !request.authority_signed {
            return Err(MarketError::SignOffRequired);
        }
        if self.escrow_balance(&request.escrow_account) < request.price {
            return Err(MarketError::InsufficientEscrowBalance);
        }
        let parts = match split_price(request.price, config.fee_basis_points, shares) {
            Some(parts) => parts,
            None => {
                return Err(MarketError::CostsExceedPrice);
            },
        };
        let source_holds = match self.token_account(&request.token_account) {
            Some(account) => account.owner.eq(&request.seller) && account.asset.eq(&request.asset)
                && account.amount >= request.size,
            None => false,
        };
        let target_receives = match self.token_account(&request.receipt_account) {
            Some(account) => account.owner.eq(&request.buyer) && account.asset.eq(&request.asset),
            None => true,
        };
        if !source_holds || !target_receives {
            return Err(MarketError::InsufficientAssetBalance);
        }
        let ghost start = self@;
        let ghost plan = sale_payments(*config, *request, shares@);
        proof {
            lemma_sale_pays_the_price(*config, *request, shares@);
            lemma_amount_of_prefix(plan, 0);
            lemma_amount_of_prefix(plan, 1);
            assert(plan.take(0) =~= Seq::<Payment>::empty());
            assert(plan.take(1).drop_last() =~= plan.take(0));
            assert(paid_out(start, request.escrow_account, plan.take(0)) == start);
            assert(plan.take(1).last() == (config.fee_receiver, parts.fee as nat));
        }
        self.pay_from_escrow(&request.escrow_account, &config.fee_receiver, parts.fee);
        let mut i: usize = 0;
        while i < shares.len()
            invariant
                self.wf(),
                self.issued() == old(self).issued(),
                self.minted() == old(self).minted(),
                i <= shares@.len(),
                plan == sale_payments(*config, *request, shares@),
                plan.len() == shares@.len() + 2,
                amount_of(plan) == request.price,
                request.price <= start.escrowed(request.escrow_account),
                parts.divides(request.price as nat, config.fee_basis_points as nat, shares@),
                self@ == paid_out(start, request.escrow_account, plan.take(i + 1)),
                self@.escrowed(request.escrow_account) + amount_of(plan.take(i + 1))
                    == start.escrowed(request.escrow_account),
            decreases shares@.len() - i,
        {
            proof {
                lemma_amount_of_prefix(plan, i + 1);
                lemma_amount_of_prefix(plan, i + 2);
                assert(plan.take(i + 2).drop_last() =~= plan.take(i + 1));
                assert(plan[i + 1] == (shares@[i as int].recipient, parts.royalties@[i as int] as nat));
            }
            self.pay_from_escrow(&request.escrow_account, &shares[i].recipient, parts.royalties[i]);
            i = i + 1;
        }
        proof {
            let n = shares@.len() as int;
            lemma_amount_of_prefix(plan, n + 1);
            assert(plan.take(n + 2) =~= plan);
            assert(plan.drop_last() =~= plan.take(n + 1));
            assert(plan[n + 1] == (request.seller, parts.proceeds as nat));
        }
        self.pay_from_escrow(&request.escrow_account, &request.seller, parts.proceeds);
        assert(self@ == paid_out(start, request.escrow_account, plan));
        proof {
            lemma_paid_out_debits_the_sum(start, request.escrow_account, plan);
        }
        self.move_asset(
            &request.token_account,
            &request.receipt_account,
            &request.buyer,
            request.size,
        );
        self.close_trade_state(&request.seller_trade_state);
        self.close_trade_state(&request.buyer_trade_state);
        Ok(
            SaleReceipt {
                parts,
                ask_refund: Refund {
                    record: request.seller_trade_state,
                    recipient: request.seller,
                },
                bid_refund: Refund { record: request.buyer_trade_state, recipient: request.buyer },
            },
        )
    }

    /// Settles a listing against a bid. The addresses of the listing, of the
    /// bid and of the buyer's escrow account are derived anew from the request
    /// and held against the ones that the caller gave.
    pub fn execute_sale(
        &mut self,
        config: &MarketplaceConfig,
        request: &ExecuteSale,
        shares: &Vec<RoyaltyShare>,
    ) -> (result: Result<SaleReceipt, MarketError>)
        requires
            old(self).wf(),
        ensures
            final(self).wf(),
            final(self).issued() == old(self).issued(),
            final(self).minted() == old(self).minted(),
            sale_outcome(
                old(self)@,
                final(self)@,
                result,
                *config,
                *request,
                shares@,
                trade_state_derivation(*config, request.ask_terms()),
                trade_state_derivation(*config, request.bid_terms()),
                escrow_derivation(*config, request.buyer),
            ),
    {
        let ask = find_order_address(config, &request.ask());
        let bid = find_order_address(config, &request.bid());
        let escrow = find_escrow_payment_address(config, &request.buyer);
        self.apply_sale(config, request, shares, ask, bid, escrow)
    }
}

} // verus!
