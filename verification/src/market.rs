//! The venue under which orders are placed and settled.

use vstd::prelude::*;
use crate::address::Address;

verus! {

/// Configuration of a marketplace. It is read, never changed, by the engine,
/// and its identifying fields enter every derived address.
#[derive(Clone, Copy, Debug)]
pub struct MarketplaceConfig {
    /// The program that owns every record derived for this marketplace.
    pub program: Address,
    /// The marketplace itself.
    pub id: Address,
    /// Who may sign trades off.
    pub authority: Address,
    /// Who receives the marketplace fee.
    pub fee_receiver: Address,
    /// The asset in which prices, escrow balances and fees are counted.
    pub payment_asset: Address,
    /// Marketplace fee, in hundredths of a percent of the price.
    pub fee_basis_points: u16,
    /// Whether a settlement needs the authority's signature.
    pub requires_sign_off: bool,
}

} // verus!
