//! Escrow-based marketplace engine: deterministic record addresses, pooled
//! escrow balances, open-order markers and atomic settlement.

pub mod address;
pub mod error;
pub mod escrow;
pub mod ledger;
pub mod market;
pub mod order;
pub mod orders;
pub mod pda;
pub mod records;
pub mod settlement;
pub mod split;
pub mod table;
pub mod token_escrow;
