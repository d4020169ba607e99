//! How a sale price divides into marketplace fee, royalties and proceeds.

use vstd::prelude::*;
use crate::address::Address;

verus! {

/// One hundred percent, in basis points.
pub const BASIS_POINTS: u64 = 10000;

/// A recipient of royalties and its share of every sale price.
#[derive(Clone, Copy, Debug)]
pub struct RoyaltyShare {
    pub recipient: Address,
    /// The share, in hundredths of a percent of the price.
    pub basis_points: u16,
}

/// The part of `price` that `basis_points` stand for, rounded down.
pub open spec fn share_of(price: nat, basis_points: nat) -> nat {
    price * basis_points / (BASIS_POINTS as nat)
}

/// Who is paid how much: a recipient and an amount.
pub type Payment = (Address, nat);

/// The sum of the amounts of a list of payments.
pub open spec fn amount_of(payments: Seq<Payment>) -> nat
    decreases payments.len(),
{
    if payments.len() == 0 {
        0
    } else {
        amount_of(payments.drop_last()) + payments.last().1
    }
}

/// The sum of a list of amounts.
pub open spec fn sum_of(amounts: Seq<u64>) -> nat
    decreases amounts.len(),
{
    if amounts.len() == 0 {
        0
    } else {
        sum_of(amounts.drop_last()) + amounts.last() as nat
    }
}

/// The royalty that each share earns on `price`, in the order of the shares.
pub open spec fn royalty_payments(price: nat, shares: Seq<RoyaltyShare>) -> Seq<Payment> {
    Seq::new(
        shares.len(),
        |i: int| (shares[i].recipient, share_of(price, shares[i].basis_points as nat)),
    )
}

/// All royalties on `price` together.
pub open spec fn royalties_total(price: nat, shares: Seq<RoyaltyShare>) -> nat {
    amount_of(royalty_payments(price, shares))
}

/// Fee and royalties on `price` together.
pub open spec fn costs_of(price: nat, fee_basis_points: nat, shares: Seq<RoyaltyShare>) -> nat {
    share_of(price, fee_basis_points) + royalties_total(price, shares)
}

/// A price divided: the marketplace fee, one royalty for each share, and what
/// is left for the seller.
#[derive(Debug)]
pub struct Disbursement {
    pub fee: u64,
    pub royalties: Vec<u64>,
    pub proceeds: u64,
}

impl Disbursement {
    /// Everything that the disbursement pays out.
    pub open spec fn total(&self) -> nat {
        self.fee as nat + sum_of(self.royalties@) + self.proceeds as nat
    }

    /// Whether this is the division of `price` under the given fee and shares:
    /// fee and royalties each rounded down, the remainder to the seller.
    pub open spec fn divides(&self, price: nat, fee_basis_points: nat, shares: Seq<RoyaltyShare>) -> bool {
        &&& self.fee == share_of(price, fee_basis_points)
        &&& self.royalties@.len() == shares.len()
        &&& forall|i: int|
            0 <= i < shares.len() ==> (#[trigger] self.royalties@[i]) as nat == share_of(
                price,
                shares[i].basis_points as nat,
            )
        &&& self.proceeds == price - costs_of(price, fee_basis_points, shares)
    }
}

/// A prefix of a list of payments pays no more than the whole list, and one
/// more payment adds its amount.
pub proof fn lemma_amount_of_prefix(payments: Seq<Payment>, k: int)
    requires
        0 <= k <= payments.len(),
    ensures
        amount_of(payments.take(k)) <= amount_of(payments),
        k < payments.len() ==> amount_of(payments.take(k + 1)) == amount_of(payments.take(k))
            + payments[k].1,
    decreases payments.len(),
{
    if k < payments.len() {
        assert(payments.take(k + 1).drop_last() =~= payments.take(k));
        lemma_amount_of_prefix(payments.drop_last(), k);
        assert(payments.drop_last().take(k) =~= payments.take(k));
    } else {
        assert(payments.take(k) =~= payments);
    }
}

/// Two lists of payments, one after the other, pay the sum of the two.
pub proof fn lemma_amount_of_concat(first: Seq<Payment>, second: Seq<Payment>)
    ensures
        amount_of(first + second) == amount_of(first) + amount_of(second),
    decreases second.len(),
{
    if second.len() == 0 {
        assert(first + second =~= first);
    } else {
        lemma_amount_of_concat(first, second.drop_last());
        assert((first + second).drop_last() =~= first + second.drop_last());
    }
}

/// The part of `price` that `basis_points` stand for, rounded down.
fn share(price: u64, basis_points: u16) -> (part: u128)
    ensures
        part == share_of(price as nat, basis_points as nat),
{
    assert((price as u128) * (basis_points as u128) <= 0xffff_ffff_ffff_ffff * 0xffff)
        by (nonlinear_arith)
        requires
            price <= 0xffff_ffff_ffff_ffff,
            basis_points <= 0xffff,
    ;
    let product: u128 = (price as u128) * (basis_points as u128);
    product / (BASIS_POINTS as u128)
}

/// Divides `price` into the marketplace fee, one royalty for each share and
/// the seller's proceeds. Fee and royalties are rounded down, and every
/// remainder goes to the seller, so that the parts make up the price exactly.
/// There is no division where fee and royalties come to more than the price.
pub fn split_price(price: u64, fee_basis_points: u16, shares: &Vec<RoyaltyShare>) -> (split: Option<
    Disbursement,
>)
    ensures
        split.is_some() == (costs_of(price as nat, fee_basis_points as nat, shares@) <= price),
        split matches Some(parts) ==> parts.divides(
            price as nat,
            fee_basis_points as nat,
            shares@,
        ),
        split matches Some(parts) ==> sum_of(parts.royalties@) == royalties_total(
            price as nat,
            shares@,
        ),
        split matches Some(parts) ==> parts.total() == price,
{
    let ghost due = royalty_payments(price as nat, shares@);
    let fee = share(price, fee_basis_points);
    if fee > price as u128 {
        return None;
    }
    let mut left: u64 = price - fee as u64;
    let mut royalties: Vec<u64> = Vec::new();
    let mut i: usize = 0;
    assert(due.take(0) =~= Seq::<Payment>::empty());
    while i < shares.len()
        invariant
            i <= shares@.len(),
            due == royalty_payments(price as nat, shares@),
            fee == share_of(price as nat, fee_basis_points as nat),
            royalties@.len() == i,
            forall|j: int|
                0 <= j < i ==> (#[trigger] royalties@[j]) as nat == share_of(
                    price as nat,
                    shares@[j].basis_points as nat,
                ),
            sum_of(royalties@) == amount_of(due.take(i as int)),
            fee + amount_of(due.take(i as int)) + left == price,
        decreases shares@.len() - i,
    {
        let part = share(price, shares[i].basis_points);
        proof {
            lemma_amount_of_prefix(due, i as int);
            lemma_amount_of_prefix(due, i + 1);
        }
        if part > left as u128 {
            return None;
        }
        let ghost paid = royalties@;
        royalties.push(part as u64);
        assert(royalties@.drop_last() =~= paid);
        left = left - part as u64;
        i = i + 1;
    }
    assert(due.take(i as int) =~= due);
    Some(Disbursement { fee: fee as u64, royalties, proceeds: left })
}

} // verus!
