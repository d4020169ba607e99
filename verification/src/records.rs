//! The records that the ledger keeps, and how they are laid out in storage.

use vstd::prelude::*;
use vstd::bytes::{
    lemma_auto_spec_u64_to_from_le_bytes,
    spec_u64_from_le_bytes,
    spec_u64_to_le_bytes,
    u64_from_le_bytes,
    u64_to_le_bytes,
};
use crate::address::Address;
use crate::table::Weighted;

verus! {

/// Pooled funds of one wallet in one marketplace.
#[derive(Clone, Copy, Debug, PartialEq, Eq, Structural)]
pub struct EscrowAccount {
    pub balance: u64,
}

/// Marker of an open order. Its address says everything about the order;
/// the record keeps only the bump seed of that address.
#[derive(Clone, Copy, Debug, PartialEq, Eq, Structural)]
pub struct TradeState {
    pub bump: u8,
}

/// An account that holds units of one asset for one wallet.
#[derive(Clone, Copy, Debug, PartialEq, Eq)]
pub struct TokenAccount {
    pub owner: Address,
    pub asset: Address,
    pub amount: u64,
}

/// A holding account as a value, with its amount as a number.
pub struct Holding {
    pub owner: Address,
    pub asset: Address,
    pub amount: nat,
}

impl View for TokenAccount {
    type V = Holding;

    open spec fn view(&self) -> Holding {
        Holding { owner: self.owner, asset: self.asset, amount: self.amount as nat }
    }
}

impl Weighted for EscrowAccount {
    open spec fn weight(&self) -> nat {
        self.balance as nat
    }
}

impl Weighted for TradeState {
    open spec fn weight(&self) -> nat {
        0
    }
}

impl Weighted for TokenAccount {
    open spec fn weight(&self) -> nat {
        self.amount as nat
    }
}

impl TradeState {
    /// Stored form: the bump seed, one byte.
    pub open spec fn layout(self) -> Seq<u8> {
        seq![self.bump]
    }

    /// Writes the record as it is stored.
    pub fn to_bytes(&self) -> (out: Vec<u8>)
        ensures
            out@ == self.layout(),
    {
        let mut out: Vec<u8> = Vec::new();
        out.push(self.bump);
        assert(out@ =~= self.layout());
        out
    }

    /// Reads a stored record. Anything but one byte is no trade state.
    pub fn from_bytes(data: &[u8]) -> (read: Option<TradeState>)
        ensures
            read.is_some() == (data@.len() == 1),
            read matches Some(state) ==> state.layout() == data@,
    {
        if data.len() == 1 {
            let state = TradeState { bump: data[0] };
            assert(state.layout() =~= data@);
            Some(state)
        } else {
            None
        }
    }
}

impl EscrowAccount {
    /// Stored form: the balance, eight bytes, least significant first.
    pub open spec fn layout(self) -> Seq<u8> {
        spec_u64_to_le_bytes(self.balance)
    }

    /// Writes the record as it is stored.
    pub fn to_bytes(&self) -> (out: Vec<u8>)
        ensures
            out@ == self.layout(),
            out@.len() == 8,
    {
        u64_to_le_bytes(self.balance)
    }

    /// Reads a stored record. Anything but eight bytes is no escrow account.
    pub fn from_bytes(data: &[u8]) -> (read: Option<EscrowAccount>)
        ensures
            read.is_some() == (data@.len() == 8),
            read matches Some(account) ==> account.layout() == data@,
    {
        if data.len() == 8 {
            proof {
                lemma_auto_spec_u64_to_from_le_bytes();
                assert(spec_u64_to_le_bytes(spec_u64_from_le_bytes(data@)) == data@);
            }
            Some(EscrowAccount { balance: u64_from_le_bytes(data) })
        } else {
            None
        }
    }

    /// Two escrow accounts with the same stored form hold the same balance.
    pub proof fn lemma_layout_is_faithful(a: EscrowAccount, b: EscrowAccount)
        requires
            a.layout() == b.layout(),
        ensures
            a == b,
    {
        lemma_auto_spec_u64_to_from_le_bytes();
    }
}

} // verus!
