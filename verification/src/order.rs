//! What identifies an open order.

use vstd::prelude::*;
use crate::address::Address;

verus! {

/// Whether an order is tied to one holding account.
#[derive(Clone, Copy, Debug)]
pub enum OrderKind {
    /// Tied to the holding account that is sold from or bought into: every
    /// listing, and a bid aimed at one seller.
    Bound { token_account: Address },
    /// A public bid, not yet matched to any holding account.
    Unbound,
}

/// The parameters of an order. Together with the marketplace they fix the
/// address of its trade state.
#[derive(Clone, Copy, Debug)]
pub struct OrderTerms {
    pub wallet: Address,
    pub asset: Address,
    pub kind: OrderKind,
    pub price: u64,
    pub size: u64,
}

} // verus!
