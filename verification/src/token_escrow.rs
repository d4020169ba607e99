//! The escrow record that a unique asset can own: the request that creates
//! it, and the checks and the record that creating it takes.

use vstd::prelude::*;
use borsh::BorshSerialize;
use crate::address::Address;
use crate::pda::{
    confirm_address,
    derived_view,
    derives_to,
    program_address,
    seed_views,
    try_find_program_address,
};

verus! {

/// Position of the escrow-creating instruction among the instructions of the
/// metadata program. It is the first and only byte of the instruction's data.
pub const CREATE_ESCROW_ACCOUNT: u8 = 38;

/// An account named by an instruction, and how the instruction uses it.
#[derive(Clone, Copy, Debug, PartialEq, Eq)]
pub struct AccountMeta {
    pub address: Address,
    pub is_signer: bool,
    pub is_writable: bool,
}

/// An instruction for a program: the accounts it names and its data.
#[derive(Debug)]
pub struct Instruction {
    pub program_id: Address,
    pub accounts: Vec<AccountMeta>,
    pub data: Vec<u8>,
}

/// What the checks read of an account that came with an instruction.
#[derive(Clone, Copy, Debug)]
pub struct AccountFacts {
    pub key: Address,
    pub owner: Address,
}

/// What kind of token an asset is.
#[derive(Clone, Copy, Debug, PartialEq, Eq, Structural)]
pub enum TokenStandard {
    NonFungible,
    FungibleAsset,
    Fungible,
    NonFungibleEdition,
}

/// What was read of the asset: the mint that its metadata record names, and
/// its token standard. `None` stands for a record that could not be read.
#[derive(Clone, Copy, Debug)]
pub struct AssetFacts {
    pub metadata_mint: Option<Address>,
    pub token_standard: Option<TokenStandard>,
}

/// The kinds of record that the metadata program keeps. The position of a
/// kind in this list is the first byte of every record of that kind.
#[derive(Clone, Copy, Debug, PartialEq, Eq, Structural)]
pub enum Key {
    Uninitialized,
    EditionV1,
    MasterEditionV1,
    ReservationListV1,
    MetadataV1,
    ReservationListV2,
    MasterEditionV2,
    EditionMarker,
    UseAuthorityRecord,
    CollectionAuthorityRecord,
    TokenOwnedEscrow,
}

/// The escrow record of an asset.
#[derive(Debug)]
pub struct TokenOwnedEscrow {
    pub key: Key,
    pub base_token: Address,
    pub delegates: Vec<Address>,
}

/// Why an escrow record is not created.
#[derive(Clone, Copy, Debug, PartialEq, Eq, Structural)]
pub enum EscrowError {
    /// Fewer accounts came with the instruction than it reads.
    NotEnoughAccountKeys,
    /// The metadata account does not belong to the program.
    IncorrectOwner,
    /// The metadata record could not be read.
    MetadataUnreadable,
    /// The metadata record names another mint than the one supplied.
    MintMismatch,
    /// The token standard of the asset could not be read.
    TokenStandardUnreadable,
    /// The asset is not unique, and only a unique asset can own an escrow.
    AssetNotUnique,
    /// The escrow account is not at the address derived for the mint.
    DerivationMismatch,
}

/// What it takes to create the escrow account, once every check has passed.
#[derive(Debug)]
pub struct EscrowCreation {
    /// Bump seed of the escrow account's address.
    pub bump: u8,
    /// The seeds under which the program signs for the account.
    pub signer_seeds: Vec<Vec<u8>>,
    /// The record to store in the account.
    pub record: TokenOwnedEscrow,
    /// The record as it is stored.
    pub data: Vec<u8>,
}

impl Key {
    /// Position of the kind in the list of kinds.
    pub open spec fn spec_tag(&self) -> u8 {
        match *self {
            Key::Uninitialized => 0,
            Key::EditionV1 => 1,
            Key::MasterEditionV1 => 2,
            Key::ReservationListV1 => 3,
            Key::MetadataV1 => 4,
            Key::ReservationListV2 => 5,
            Key::MasterEditionV2 => 6,
            Key::EditionMarker => 7,
            Key::UseAuthorityRecord => 8,
            Key::CollectionAuthorityRecord => 9,
            Key::TokenOwnedEscrow => 10,
        }
    }

    /// Position of the kind in the list of kinds.
    #[verifier::when_used_as_spec(spec_tag)]
    pub fn tag(&self) -> (tag: u8)
        ensures
            tag == self.spec_tag(),
    {
        match *self {
            Key::Uninitialized => 0,
            Key::EditionV1 => 1,
            Key::MasterEditionV1 => 2,
            Key::ReservationListV1 => 3,
            Key::MetadataV1 => 4,
            Key::ReservationListV2 => 5,
            Key::MasterEditionV2 => 6,
            Key::EditionMarker => 7,
            Key::UseAuthorityRecord => 8,
            Key::CollectionAuthorityRecord => 9,
            Key::TokenOwnedEscrow => 10,
        }
    }
}

impl AccountMeta {
    /// An account that the instruction may write to.
    pub fn new(address: Address, is_signer: bool) -> (meta: AccountMeta)
        ensures
            meta == (AccountMeta { address, is_signer, is_writable: true }),
    {
        AccountMeta { address, is_signer, is_writable: true }
    }

    /// An account that the instruction only reads.
    pub fn new_readonly(address: Address, is_signer: bool) -> (meta: AccountMeta)
        ensures
            meta == (AccountMeta { address, is_signer, is_writable: false }),
    {
        AccountMeta { address, is_signer, is_writable: false }
    }
}

/// The address of the system program: thirty-two zero bytes.
pub open spec fn system_program() -> Seq<u8> {
    Seq::new(32, |i: int| 0u8)
}

/// A count as the serialiser writes it: four bytes, least significant first.
pub open spec fn count_bytes(count: nat) -> Seq<u8> {
    seq![
        (count % 256) as u8,
        (count / 256 % 256) as u8,
        (count / 65536 % 256) as u8,
        (count / 16777216 % 256) as u8,
    ]
}

/// The bytes of a list of addresses, one address after the other.
pub open spec fn address_bytes(addresses: Seq<Address>) -> Seq<u8> {
    addresses.map_values(|address: Address| address@).flatten()
}

/// Stored form of an escrow record: the tag of its kind, the mint it belongs
/// to, the number of its delegates and the delegates.
pub open spec fn record_layout(key: u8, base_token: Address, delegates: Seq<Address>) -> Seq<u8> {
    seq![key] + base_token@ + count_bytes(delegates.len()) + address_bytes(delegates)
}

/// The ASCII bytes of `metadata`, the label that opens the seeds.
pub open spec fn metadata_label() -> Seq<u8> {
    seq![109u8, 101u8, 116u8, 97u8, 100u8, 97u8, 116u8, 97u8]
}

/// The ASCII bytes of `escrow`, the label that closes the seeds.
pub open spec fn escrow_label() -> Seq<u8> {
    seq![101u8, 115u8, 99u8, 114u8, 111u8, 119u8]
}

/// Seeds of the escrow account of the asset with the given mint.
pub open spec fn token_escrow_seeds(program: Address, mint: Address) -> Seq<Seq<u8>> {
    seq![metadata_label(), program@, mint@, escrow_label()]
}

/// The derived address and bump of the escrow account of an asset.
pub open spec fn token_escrow_derivation(program: Address, mint: Address) -> Option<(Seq<u8>, u8)> {
    program_address(token_escrow_seeds(program, mint), program@)
}

/// The accounts that the escrow-creating instruction names, in order: the
/// escrow account, written; metadata, mint and edition, read; the payer,
/// who signs and pays; and the system program.
pub open spec fn escrow_instruction_accounts(
    escrow_account: Address,
    metadata_account: Address,
    mint_account: Address,
    edition_account: Address,
    payer_account: Address,
    system: Address,
) -> Seq<AccountMeta> {
    seq![
        AccountMeta { address: escrow_account, is_signer: false, is_writable: true },
        AccountMeta { address: metadata_account, is_signer: false, is_writable: false },
        AccountMeta { address: mint_account, is_signer: false, is_writable: false },
        AccountMeta { address: edition_account, is_signer: false, is_writable: false },
        AccountMeta { address: payer_account, is_signer: true, is_writable: true },
        AccountMeta { address: system, is_signer: false, is_writable: false },
    ]
}

/// Calls `solana_program::system_program::id`. Trusted: the identifier of
/// the system program is the address of thirty-two zero bytes.
#[verifier::external_body]
fn system_program_id() -> (id: Address)
    ensures
        id@ == system_program(),
{
    Address { bytes: solana_program::system_program::id().to_bytes() }
}

/// Calls `borsh::BorshSerialize::try_to_vec` on a `u8`. Trusted: a byte is
/// written as itself, and writing into a vector does not fail.
#[verifier::external_body]
fn serialize_tag(tag: u8) -> (out: Option<Vec<u8>>)
    ensures
        out.is_some(),
        out.unwrap()@ == seq![tag],
{
    tag.try_to_vec().ok()
}

/// Calls `borsh::BorshSerialize::try_to_vec` on a byte, an array of
/// thirty-two bytes and a vector of such arrays. Trusted: the three are
/// written one after the other, the byte and the array as they are, the
/// vector as the count of its items in four bytes, least significant first,
/// followed by the items; and it fails only for a count that four bytes
/// cannot hold.
#[verifier::external_body]
fn serialize_record(key: u8, base_token: &Address, delegates: &Vec<Address>) -> (out: Option<
    Vec<u8>,
>)
    ensures
        delegates@.len() <= u32::MAX ==> out.is_some(),
        out.is_some() ==> out.unwrap()@ == record_layout(key, *base_token, delegates@),
{
    let list: Vec<[u8; 32]> = delegates.iter().map(|delegate| delegate.bytes).collect();
    (key, base_token.bytes, list).try_to_vec().ok()
}

fn label_metadata() -> (out: Vec<u8>)
    ensures
        out@ == metadata_label(),
{
    let mut out: Vec<u8> = Vec::new();
    out.push(109u8);
    out.push(101u8);
    out.push(116u8);
    out.push(97u8);
    out.push(100u8);
    out.push(97u8);
    out.push(116u8);
    out.push(97u8);
    assert(out@ =~= metadata_label());
    out
}

fn label_escrow() -> (out: Vec<u8>)
    ensures
        out@ == escrow_label(),
{
    let mut out: Vec<u8> = Vec::new();
    out.push(101u8);
    out.push(115u8);
    out.push(99u8);
    out.push(114u8);
    out.push(111u8);
    out.push(119u8);
    assert(out@ =~= escrow_label());
    out
}

fn escrow_seed_list(program_id: &Address, mint: &Address) -> (seeds: Vec<Vec<u8>>)
    ensures
        seed_views(seeds@) == token_escrow_seeds(*program_id, *mint),
{
    let mut seeds: Vec<Vec<u8>> = Vec::new();
    seeds.push(label_metadata());
    seeds.push(program_id.to_vec());
    seeds.push(mint.to_vec());
    seeds.push(label_escrow());
    assert(seed_views(seeds@) =~= token_escrow_seeds(*program_id, *mint));
    seeds
}

/// Derives the escrow account of the asset with the given mint.
pub fn find_escrow_account(program_id: &Address, mint: &Address) -> (found: Option<(Address, u8)>)
    ensures
        derived_view(found) == token_escrow_derivation(*program_id, *mint),
{
    let seeds = escrow_seed_list(program_id, mint);
    try_find_program_address(&seeds, program_id)
}

/// Builds the instruction that creates the escrow account of an asset.
pub fn create_escrow_account(
    program_id: Address,
    escrow_account: Address,
    metadata_account: Address,
    mint_account: Address,
    edition_account: Address,
    payer_account: Address,
) -> (instruction: Instruction)
    ensures
        instruction.program_id == program_id,
        instruction.accounts@.len() == 6,
        instruction.accounts@[5].address@ == system_program(),
        instruction.accounts@ == escrow_instruction_accounts(
            escrow_account,
            metadata_account,
            mint_account,
            edition_account,
            payer_account,
            instruction.accounts@[5].address,
        ),
        instruction.data@ == seq![CREATE_ESCROW_ACCOUNT],
{
    let system = system_program_id();
    let mut accounts: Vec<AccountMeta> = Vec::new();
    accounts.push(AccountMeta::new(escrow_account, false));
    accounts.push(AccountMeta::new_readonly(metadata_account, false));
    accounts.push(AccountMeta::new_readonly(mint_account, false));
    accounts.push(AccountMeta::new_readonly(edition_account, false));
    accounts.push(AccountMeta::new(payer_account, true));
    accounts.push(AccountMeta::new_readonly(system, false));
    assert(accounts@ =~= escrow_instruction_accounts(
        escrow_account,
        metadata_account,
        mint_account,
        edition_account,
        payer_account,
        system,
    ));
    let data = serialize_tag(CREATE_ESCROW_ACCOUNT).unwrap();
    Instruction { program_id, accounts, data }
}

/// Why the escrow account is not created, if it is not. The accounts come in
/// the order in which the instruction names them: escrow, metadata, mint,
/// edition, payer, system program. `derived` is the address derived for the
/// escrow account of the mint.
pub open spec fn escrow_rejection(
    program_id: Address,
    accounts: Seq<AccountFacts>,
    asset: AssetFacts,
    derived: Option<(Seq<u8>, u8)>,
) -> Option<EscrowError> {
    if accounts.len() < 6 {
        Some(EscrowError::NotEnoughAccountKeys)
    } else if accounts[1].owner != program_id {
        Some(EscrowError::IncorrectOwner)
    } else if asset.metadata_mint.is_none() {
        Some(EscrowError::MetadataUnreadable)
    } else if asset.metadata_mint != Some(accounts[2].key) {
        Some(EscrowError::MintMismatch)
    } else if asset.token_standard.is_none() {
        Some(EscrowError::TokenStandardUnreadable)
    } else if asset.token_standard != Some(TokenStandard::NonFungible) {
        Some(EscrowError::AssetNotUnique)
    } else if !derives_to(derived, accounts[0].key) {
        Some(EscrowError::DerivationMismatch)
    } else {
        None
    }
}

/// Whether `creation` is what creates the escrow account of `mint` under
/// `bump`: an empty escrow record of the mint, its stored form, and the
/// seeds of the address with the bump seed after them.
pub open spec fn creates_escrow(
    creation: EscrowCreation,
    program_id: Address,
    mint: Address,
    bump: u8,
) -> bool {
    &&& creation.bump == bump
    &&& seed_views(creation.signer_seeds@) == token_escrow_seeds(program_id, mint).push(seq![bump])
    &&& creation.record.key == Key::TokenOwnedEscrow
    &&& creation.record.base_token == mint
    &&& creation.record.delegates@.len() == 0
    &&& creation.data@ == seq![10u8] + mint@ + seq![0u8, 0u8, 0u8, 0u8]
}

/// What the checks on an escrow-creating instruction come to: the first
/// reason that holds, or what it takes to create the account.
pub open spec fn escrow_outcome(
    result: Result<EscrowCreation, EscrowError>,
    program_id: Address,
    accounts: Seq<AccountFacts>,
    asset: AssetFacts,
    derived: Option<(Seq<u8>, u8)>,
) -> bool {
    match escrow_rejection(program_id, accounts, asset, derived) {
        Some(reason) => result == Err::<EscrowCreation, EscrowError>(reason),
        None => {
            &&& result matches Ok(creation)
            &&& derived matches Some((_, bump))
            &&& creates_escrow(creation, program_id, accounts[2].key, bump)
        },
    }
}

/// Checks an escrow-creating instruction, given the address derived for the
/// escrow account of the mint that came with it (the third account), and
/// says what to store in the new account.
pub fn plan_escrow_account(
    program_id: &Address,
    accounts: &Vec<AccountFacts>,
    asset: &AssetFacts,
    derived: Option<(Address, u8)>,
) -> (result: Result<EscrowCreation, EscrowError>)
    ensures
        escrow_outcome(result, *program_id, accounts@, *asset, derived_view(derived)),
{
    if accounts.len() < 6 {
        return Err(EscrowError::NotEnoughAccountKeys);
    }
    let escrow_account = accounts[0];
    let metadata_account = accounts[1];
    let mint_account = accounts[2];
    if !metadata_account.owner.eq(program_id) {
        return Err(EscrowError::IncorrectOwner);
    }
    let metadata_mint = match asset.metadata_mint {
        Some(mint) => mint,
        None => {
            return Err(EscrowError::MetadataUnreadable);
        },
    };
    if !metadata_mint.eq(&mint_account.key) {
        return Err(EscrowError::MintMismatch);
    }
    match asset.token_standard {
        Some(TokenStandard::NonFungible) => {},
        Some(_) => {
            return Err(EscrowError::AssetNotUnique);
        },
        None => {
            return Err(EscrowError::TokenStandardUnreadable);
        },
    }
    let bump = match confirm_address(derived, &escrow_account.key) {
        Some(bump) => bump,
        None => {
            return Err(EscrowError::DerivationMismatch);
        },
    };
    let mut signer_seeds = escrow_seed_list(program_id, &metadata_mint);
    let mut last: Vec<u8> = Vec::new();
    last.push(bump);
    assert(last@ =~= seq![bump]);
    signer_seeds.push(last);
    assert(seed_views(signer_seeds@) =~= token_escrow_seeds(*program_id, mint_account.key).push(
        seq![bump],
    ));
    let record = TokenOwnedEscrow {
        key: Key::TokenOwnedEscrow,
        base_token: mint_account.key,
        delegates: Vec::new(),
    };
    let data = serialize_record(record.key.tag(), &record.base_token, &record.delegates).unwrap();
    proof {
        let none = Seq::<Address>::empty();
        assert(none.map_values(|address: Address| address@) =~= Seq::<Seq<u8>>::empty());
        assert(address_bytes(none) =~= Seq::<u8>::empty());
        assert(count_bytes(0) =~= seq![0u8, 0u8, 0u8, 0u8]);
        assert(record.delegates@ =~= none);
        assert(data@ =~= seq![10u8] + mint_account.key@ + seq![0u8, 0u8, 0u8, 0u8]);
    }
    Ok(EscrowCreation { bump, signer_seeds, record, data })
}

/// Checks an escrow-creating instruction and says what to store in the new
/// account. The metadata account has to belong to the program and name the
/// mint that came with the instruction, the asset has to be unique, and the
/// escrow account has to be at the address derived for the mint.
pub fn process_create_escrow_account(
    program_id: &Address,
    accounts: &Vec<AccountFacts>,
    asset: &AssetFacts,
) -> (result: Result<EscrowCreation, EscrowError>)
    ensures
        accounts@.len() < 6 ==> result == Err::<EscrowCreation, EscrowError>(
            EscrowError::NotEnoughAccountKeys,
        ),
        accounts@.len() >= 6 ==> escrow_outcome(
            result,
            *program_id,
            accounts@,
            *asset,
            token_escrow_derivation(*program_id, accounts@[2].key),
        ),
{
    if accounts.len() < 6 {
        return Err(EscrowError::NotEnoughAccountKeys);
    }
    let derived = find_escrow_account(program_id, &accounts[2].key);
    plan_escrow_account(program_id, accounts, asset, derived)
}

} // verus!
