//! Deterministic addresses of escrow accounts and trade states.

use vstd::prelude::*;
use vstd::bytes::{spec_u64_to_le_bytes, u64_to_le_bytes, lemma_auto_spec_u64_to_from_le_bytes};
use solana_program::pubkey::Pubkey;
use crate::address::Address;
use crate::market::MarketplaceConfig;
use crate::order::{OrderKind, OrderTerms};

verus! {

/// The address and bump seed that the ledger's key derivation gives for a
/// list of seeds under a program, or `None` where it gives none. Equal seeds
/// under an equal program always give an equal answer.
pub uninterp spec fn program_address(seeds: Seq<Seq<u8>>, program: Seq<u8>) -> Option<
    (Seq<u8>, u8),
>;

/// A derived address and bump seed, by their bytes.
pub open spec fn derived_view(derived: Option<(Address, u8)>) -> Option<(Seq<u8>, u8)> {
    match derived {
        Some((address, bump)) => Some((address@, bump)),
        None => None,
    }
}

/// The byte strings of a list of seeds.
pub open spec fn seed_views(seeds: Seq<Vec<u8>>) -> Seq<Seq<u8>> {
    seeds.map_values(|seed: Vec<u8>| seed@)
}

/// Calls `solana_program::pubkey::Pubkey::try_find_program_address`. Trusted:
/// the answer is the one that `program_address` names for these seeds and this
/// program. The call searches the bump seeds from 255 downwards for the first
/// hash of the seeds, the bump, the program and a fixed marker that is no
/// curve point, and gives `None` when there is none or a seed list is out of
/// its limits; it reads nothing but its arguments.
#[verifier::external_body]
pub(crate) fn try_find_program_address(seeds: &Vec<Vec<u8>>, program: &Address) -> (found: Option<
    (Address, u8),
>)
    ensures
        derived_view(found) == program_address(seed_views(seeds@), program@),
{
    let parts: Vec<&[u8]> = seeds.iter().map(|seed| seed.as_slice()).collect();
    match Pubkey::try_find_program_address(&parts, &Pubkey::new_from_array(program.bytes)) {
        Some((key, bump)) => Some((Address { bytes: key.to_bytes() }, bump)),
        None => None,
    }
}

/// The label that opens every seed list of the marketplace: the ASCII bytes
/// of `auction_house`.
pub open spec fn prefix_seed() -> Seq<u8> {
    seq![97u8, 117u8, 99u8, 116u8, 105u8, 111u8, 110u8, 95u8, 104u8, 111u8, 117u8, 115u8, 101u8]
}

fn prefix_bytes() -> (out: Vec<u8>)
    ensures
        out@ == prefix_seed(),
{
    let mut out: Vec<u8> = Vec::new();
    out.push(97u8);
    out.push(117u8);
    out.push(99u8);
    out.push(116u8);
    out.push(105u8);
    out.push(111u8);
    out.push(110u8);
    out.push(95u8);
    out.push(104u8);
    out.push(111u8);
    out.push(117u8);
    out.push(115u8);
    out.push(101u8);
    assert(out@ =~= prefix_seed());
    out
}

/// Seeds of the escrow account of `wallet` in `marketplace`.
pub open spec fn escrow_seeds(marketplace: Address, wallet: Address) -> Seq<Seq<u8>> {
    seq![prefix_seed(), marketplace@, wallet@]
}

/// Seeds of the trade state of an order. A bound order names its holding
/// account after the marketplace; an unbound order names none.
pub open spec fn trade_state_seeds(config: MarketplaceConfig, terms: OrderTerms) -> Seq<Seq<u8>> {
    match terms.kind {
        OrderKind::Bound { token_account } => seq![
            prefix_seed(),
            terms.wallet@,
            config.id@,
            token_account@,
            config.payment_asset@,
            terms.asset@,
            spec_u64_to_le_bytes(terms.price),
            spec_u64_to_le_bytes(terms.size),
        ],
        OrderKind::Unbound => seq![
            prefix_seed(),
            terms.wallet@,
            config.id@,
            config.payment_asset@,
            terms.asset@,
            spec_u64_to_le_bytes(terms.price),
            spec_u64_to_le_bytes(terms.size),
        ],
    }
}

/// The derived address and bump of the escrow account of `wallet`.
pub open spec fn escrow_derivation(config: MarketplaceConfig, wallet: Address) -> Option<
    (Seq<u8>, u8),
> {
    program_address(escrow_seeds(config.id, wallet), config.program@)
}

/// The derived address and bump of the trade state of an order.
pub open spec fn trade_state_derivation(config: MarketplaceConfig, terms: OrderTerms) -> Option<
    (Seq<u8>, u8),
> {
    program_address(trade_state_seeds(config, terms), config.program@)
}

/// Whether `supplied` is the address that a derivation gave.
pub open spec fn derives_to(derived: Option<(Seq<u8>, u8)>, supplied: Address) -> bool {
    derived matches Some((bytes, _)) && bytes == supplied@
}

/// Derives the escrow account of `wallet` in the marketplace.
pub fn find_escrow_payment_address(config: &MarketplaceConfig, wallet: &Address) -> (found: Option<
    (Address, u8),
>)
    ensures
        derived_view(found) == escrow_derivation(*config, *wallet),
{
    let mut seeds: Vec<Vec<u8>> = Vec::new();
    seeds.push(prefix_bytes());
    seeds.push(config.id.to_vec());
    seeds.push(wallet.to_vec());
    assert(seed_views(seeds@) =~= escrow_seeds(config.id, *wallet));
    try_find_program_address(&seeds, &config.program)
}

/// Derives the trade state of an order from its terms: with the holding
/// account for a bound order, without one for an unbound order.
pub fn find_order_address(config: &MarketplaceConfig, terms: &OrderTerms) -> (found: Option<
    (Address, u8),
>)
    ensures
        derived_view(found) == trade_state_derivation(*config, *terms),
{
    let mut seeds: Vec<Vec<u8>> = Vec::new();
    seeds.push(prefix_bytes());
    seeds.push(terms.wallet.to_vec());
    seeds.push(config.id.to_vec());
    match terms.kind {
        OrderKind::Bound { token_account } => {
            seeds.push(token_account.to_vec());
        },
        OrderKind::Unbound => {},
    }
    seeds.push(config.payment_asset.to_vec());
    seeds.push(terms.asset.to_vec());
    seeds.push(u64_to_le_bytes(terms.price));
    seeds.push(u64_to_le_bytes(terms.size));
    assert(seed_views(seeds@) =~= trade_state_seeds(*config, *terms));
    try_find_program_address(&seeds, &config.program)
}

/// Derives the trade state of an order bound to `token_account`.
pub fn find_trade_state_address(
    config: &MarketplaceConfig,
    wallet: &Address,
    token_account: &Address,
    asset: &Address,
    price: u64,
    size: u64,
) -> (found: Option<(Address, u8)>)
    ensures
        derived_view(found) == trade_state_derivation(
            *config,
            (OrderTerms {
                wallet: *wallet,
                asset: *asset,
                kind: OrderKind::Bound { token_account: *token_account },
                price,
                size,
            }),
        ),
{
    let terms = OrderTerms {
        wallet: *wallet,
        asset: *asset,
        kind: OrderKind::Bound { token_account: *token_account },
        price,
        size,
    };
    find_order_address(config, &terms)
}

/// Derives the trade state of a public bid, bound to no holding account.
pub fn find_public_bid_trade_state_address(
    config: &MarketplaceConfig,
    wallet: &Address,
    asset: &Address,
    price: u64,
    size: u64,
) -> (found: Option<(Address, u8)>)
    ensures
        derived_view(found) == trade_state_derivation(
            *config,
            (OrderTerms { wallet: *wallet, asset: *asset, kind: OrderKind::Unbound, price, size }),
        ),
{
    let terms = OrderTerms { wallet: *wallet, asset: *asset, kind: OrderKind::Unbound, price, size };
    find_order_address(config, &terms)
}

/// Tells whether `supplied` is the address that a derivation gave, and hands
/// back the bump seed if it is.
pub fn confirm_address(derived: Option<(Address, u8)>, supplied: &Address) -> (bump: Option<u8>)
    ensures
        bump.is_some() == derives_to(derived_view(derived), *supplied),
        bump matches Some(b) ==> derived matches Some((_, d)) && d == b,
{
    match derived {
        Some((address, bump)) => {
            proof {
                Address::lemma_same_bytes(address, *supplied);
            }
            if address.eq(supplied) {
                Some(bump)
            } else {
                None
            }
        },
        None => None,
    }
}

/// Deriving twice from the same marketplace and the same terms gives the same
/// address and the same bump seed, for trade states and for escrow accounts.
pub proof fn lemma_derivation_is_repeatable(
    first_config: MarketplaceConfig,
    first: OrderTerms,
    second_config: MarketplaceConfig,
    second: OrderTerms,
)
    requires
        first_config == second_config,
        first == second,
    ensures
        trade_state_derivation(first_config, first) == trade_state_derivation(
            second_config,
            second,
        ),
        escrow_derivation(first_config, first.wallet) == escrow_derivation(
            second_config,
            second.wallet,
        ),
{
}

/// The seeds of a trade state are a faithful encoding of its identity: two
/// orders whose seed lists agree have the same wallet, marketplace, payment
/// asset, asset, kind, price and size.
pub proof fn lemma_trade_state_seeds_are_canonical(
    first_config: MarketplaceConfig,
    first: OrderTerms,
    second_config: MarketplaceConfig,
    second: OrderTerms,
)
    requires
        trade_state_seeds(first_config, first) == trade_state_seeds(second_config, second),
    ensures
        first == second,
        first_config.id == second_config.id,
        first_config.payment_asset == second_config.payment_asset,
{
    let a = trade_state_seeds(first_config, first);
    let b = trade_state_seeds(second_config, second);
    lemma_auto_spec_u64_to_from_le_bytes();
    Address::lemma_same_bytes(first.wallet, second.wallet);
    Address::lemma_same_bytes(first.asset, second.asset);
    Address::lemma_same_bytes(first_config.id, second_config.id);
    Address::lemma_same_bytes(first_config.payment_asset, second_config.payment_asset);
    assert(a.len() == b.len());
    assert(a[1] == b[1]);
    assert(a[2] == b[2]);
    match (first.kind, second.kind) {
        (OrderKind::Bound { token_account: s }, OrderKind::Bound { token_account: t }) => {
            Address::lemma_same_bytes(s, t);
            assert(a[3] == b[3]);
            assert(a[4] == b[4]);
            assert(a[5] == b[5]);
            assert(a[6] == b[6]);
            assert(a[7] == b[7]);
        },
        (OrderKind::Unbound, OrderKind::Unbound) => {
            assert(a[3] == b[3]);
            assert(a[4] == b[4]);
            assert(a[5] == b[5]);
            assert(a[6] == b[6]);
        },
        _ => {},
    }
}

/// The seeds of an escrow account are a faithful encoding of its identity:
/// two escrow accounts whose seed lists agree belong to the same wallet in
/// the same marketplace.
pub proof fn lemma_escrow_seeds_are_canonical(
    first_marketplace: Address,
    first_wallet: Address,
    second_marketplace: Address,
    second_wallet: Address,
)
    requires
        escrow_seeds(first_marketplace, first_wallet) == escrow_seeds(
            second_marketplace,
            second_wallet,
        ),
    ensures
        first_marketplace == second_marketplace,
        first_wallet == second_wallet,
{
    let a = escrow_seeds(first_marketplace, first_wallet);
    let b = escrow_seeds(second_marketplace, second_wallet);
    Address::lemma_same_bytes(first_marketplace, second_marketplace);
    Address::lemma_same_bytes(first_wallet, second_wallet);
    assert(a[1] == b[1]);
    assert(a[2] == b[2]);
}

/// What a derivation hashes of a list of seeds: the seeds one after the
/// other, with nothing between them.
pub open spec fn hashed_bytes(seeds: Seq<Seq<u8>>) -> Seq<u8> {
    seeds.flatten()
}

/// The number of bytes in the first `count` seeds of a list.
pub open spec fn bytes_in(seeds: Seq<Seq<u8>>, count: nat) -> nat
    decreases count,
{
    if count == 0 {
        0
    } else {
        bytes_in(seeds, (count - 1) as nat) + seeds[count - 1].len()
    }
}

proof fn lemma_bytes_in_prefix(a: Seq<Seq<u8>>, b: Seq<Seq<u8>>, count: nat)
    requires
        count <= a.len(),
        count <= b.len(),
        forall|i: int| 0 <= i < count ==> a[i] == b[i],
    ensures
        bytes_in(a, count) == bytes_in(b, count),
    decreases count,
{
    if count > 0 {
        lemma_bytes_in_prefix(a, b, (count - 1) as nat);
    }
}

proof fn lemma_hashed_length(seeds: Seq<Seq<u8>>)
    ensures
        hashed_bytes(seeds).len() == bytes_in(seeds, seeds.len()),
    decreases seeds.len(),
{
    seeds.lemma_flatten_and_flatten_alt_are_equivalent();
    if seeds.len() > 0 {
        let front = seeds.drop_last();
        lemma_hashed_length(front);
        front.lemma_flatten_and_flatten_alt_are_equivalent();
        lemma_bytes_in_prefix(front, seeds, front.len());
    }
}

proof fn lemma_concat_parts(a: Seq<u8>, b: Seq<u8>, c: Seq<u8>, d: Seq<u8>)
    requires
        a + b == c + d,
        a.len() == c.len(),
    ensures
        a == c,
        b == d,
{
    assert(a =~= (a + b).subrange(0, a.len() as int));
    assert(c =~= (c + d).subrange(0, c.len() as int));
    assert(b =~= (a + b).subrange(a.len() as int, (a + b).len() as int));
    assert(d =~= (c + d).subrange(c.len() as int, (c + d).len() as int));
}

/// Two seed lists of the same shape, seed for seed of the same length, that
/// hash the same bytes are the same list.
pub proof fn lemma_hashed_bytes_fix_the_seeds(a: Seq<Seq<u8>>, b: Seq<Seq<u8>>)
    requires
        a.len() == b.len(),
        forall|i: int| 0 <= i < a.len() ==> a[i].len() == b[i].len(),
        hashed_bytes(a) == hashed_bytes(b),
    ensures
        a == b,
    decreases a.len(),
{
    if a.len() > 0 {
        let rest_a = a.drop_first();
        let rest_b = b.drop_first();
        lemma_concat_parts(a.first(), rest_a.flatten(), b.first(), rest_b.flatten());
        assert forall|i: int| 0 <= i < rest_a.len() implies rest_a[i].len() == rest_b[i].len() by {
            assert(rest_a[i] == a[i + 1]);
            assert(rest_b[i] == b[i + 1]);
        }
        lemma_hashed_bytes_fix_the_seeds(rest_a, rest_b);
        assert(a =~= seq![a.first()] + rest_a);
        assert(b =~= seq![b.first()] + rest_b);
    } else {
        assert(a =~= b);
    }
}

/// No two orders hash alike. The bytes that the derivation hashes for a
/// trade state fix the wallet, the marketplace, the payment asset, the
/// asset, the kind, the price and the size: two orders that differ in any of
/// them can only meet at one address if the hash collides.
pub proof fn lemma_orders_hash_apart(
    first_config: MarketplaceConfig,
    first: OrderTerms,
    second_config: MarketplaceConfig,
    second: OrderTerms,
)
    requires
        hashed_bytes(trade_state_seeds(first_config, first)) == hashed_bytes(
            trade_state_seeds(second_config, second),
        ),
    ensures
        first == second,
        first_config.id == second_config.id,
        first_config.payment_asset == second_config.payment_asset,
{
    let a = trade_state_seeds(first_config, first);
    let b = trade_state_seeds(second_config, second);
    lemma_auto_spec_u64_to_from_le_bytes();
    lemma_hashed_length(a);
    lemma_hashed_length(b);
    reveal_with_fuel(bytes_in, 9);
    assert(bytes_in(a, a.len()) == (if first.kind is Bound { 189nat } else { 157nat }));
    assert(bytes_in(b, b.len()) == (if second.kind is Bound { 189nat } else { 157nat }));
    assert(a.len() == b.len());
    lemma_hashed_bytes_fix_the_seeds(a, b);
    lemma_trade_state_seeds_are_canonical(first_config, first, second_config, second);
}

/// An escrow account and a trade state never hash alike, and the bytes
/// hashed for an escrow account fix its wallet and its marketplace.
pub proof fn lemma_escrows_hash_apart(
    config: MarketplaceConfig,
    terms: OrderTerms,
    first_marketplace: Address,
    first_wallet: Address,
    second_marketplace: Address,
    second_wallet: Address,
)
    ensures
        hashed_bytes(escrow_seeds(first_marketplace, first_wallet)) != hashed_bytes(
            trade_state_seeds(config, terms),
        ),
        hashed_bytes(escrow_seeds(first_marketplace, first_wallet)) == hashed_bytes(
            escrow_seeds(second_marketplace, second_wallet),
        ) ==> first_marketplace == second_marketplace && first_wallet == second_wallet,
{
    let a = escrow_seeds(first_marketplace, first_wallet);
    let b = escrow_seeds(second_marketplace, second_wallet);
    let t = trade_state_seeds(config, terms);
    lemma_auto_spec_u64_to_from_le_bytes();
    lemma_hashed_length(a);
    lemma_hashed_length(t);
    reveal_with_fuel(bytes_in, 9);
    assert(bytes_in(a, a.len()) == 77);
    assert(bytes_in(t, t.len()) == (if terms.kind is Bound { 189nat } else { 157nat }));
    if hashed_bytes(a) == hashed_bytes(b) {
        lemma_hashed_bytes_fix_the_seeds(a, b);
        lemma_escrow_seeds_are_canonical(
            first_marketplace,
            first_wallet,
            second_marketplace,
            second_wallet,
        );
    }
}

} // verus!
