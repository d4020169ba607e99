//! Why an instruction is rejected.

use vstd::prelude::*;

verus! {

/// The reason for which an instruction was rejected. A rejected instruction
/// changes nothing.
#[derive(Clone, Copy, Debug, PartialEq, Eq, Structural)]
pub enum MarketError {
    /// The wallet cannot cover a deposit.
    InsufficientFunds,
    /// A withdrawal or a settlement asks for more than the escrow account holds.
    InsufficientEscrowBalance,
    /// The holding account is not the wallet's, holds another asset, or holds
    /// fewer units than the order needs.
    InsufficientAssetBalance,
    /// The order address that the caller supplied is not the one derived from
    /// the accounts and the order kind that came with it.
    TradeStateAddressMismatch,
    /// No order is open at the address.
    TradeStateNotFound,
    /// A supplied account is not at the address derived for it.
    DerivationMismatch,
    /// The marketplace requires the authority's signature, and it is missing.
    SignOffRequired,
    /// An order with the same terms is open already.
    TradeStateAlreadyExists,
    /// Fee and royalties together come to more than the price.
    CostsExceedPrice,
}

} // verus!
