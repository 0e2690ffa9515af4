//! The three privileged instructions the handler issues, as plain values.
//!
//! A [`ChainInstruction`] is the library's picture of a cross-program call:
//! the program to invoke, the ordered account list with its signer/writable
//! flags, and the argument bytes. The argument bytes come from the invoked
//! programs' client crates behind trusted wrappers; the account lists and
//! program identities are assembled and proved here, following the layouts
//! those crates document.

use vstd::prelude::*;
use crate::address::Address;
use crate::programs::{metadata_program_id, spec_metadata_program_id, spec_token_program_id};
use mpl_token_metadata::instructions::{
    CreateMasterEditionV3, CreateMasterEditionV3InstructionArgs, CreateMetadataAccountV3,
    CreateMetadataAccountV3InstructionArgs,
};
use mpl_token_metadata::types::{Creator, DataV2};

verus! {

/// Longest text that surely serializes under the metadata program's 32-bit
/// length prefix: a character encodes to at most four bytes.
pub const MAX_TEXT_LEN: usize = 1073741823;

/// Most creator entries whose list length fits the same 32-bit prefix.
pub const MAX_CREATOR_COUNT: usize = 4294967295;

/// One entry of an instruction's account list.
#[derive(Clone, Copy, Debug)]
pub struct AccountRef {
    pub address: Address,
    pub is_signer: bool,
    pub is_writable: bool,
}

/// A cross-program call, ready to be handed to the host runtime.
#[derive(Clone, Debug)]
pub struct ChainInstruction {
    pub program: Address,
    pub accounts: Vec<AccountRef>,
    pub data: Vec<u8>,
}

/// One royalty recipient of the metadata record.
#[derive(Clone, Copy, Debug)]
pub struct CreatorEntry {
    pub address: Address,
    pub verified: bool,
    pub share: u8,
}

/// A creator list reduced to plain values: (address bytes, verified, share).
pub open spec fn creators_view(cs: Seq<CreatorEntry>) -> Seq<(Seq<u8>, bool, u8)> {
    cs.map_values(|c: CreatorEntry| (c.address@, c.verified, c.share))
}

/// The little-endian bytes of a 64-bit integer.
pub open spec fn u64_le_bytes(x: u64) -> Seq<u8> {
    seq![
        (x & 0xff) as u8,
        ((x >> 8) & 0xff) as u8,
        ((x >> 16) & 0xff) as u8,
        ((x >> 24) & 0xff) as u8,
        ((x >> 32) & 0xff) as u8,
        ((x >> 40) & 0xff) as u8,
        ((x >> 48) & 0xff) as u8,
        ((x >> 56) & 0xff) as u8,
    ]
}

/// An optional 64-bit integer in the metadata program's argument encoding:
/// a presence byte, then the little-endian value.
pub open spec fn option_u64_bytes(x: Option<u64>) -> Seq<u8> {
    match x {
        Option::None => seq![0u8],
        Option::Some(v) => seq![1u8] + u64_le_bytes(v),
    }
}

/// The argument bytes of a metadata-creation call: the discriminator, then
/// the serialized data record (name, symbol, uri, royalty fee, creator list),
/// the mutability flag, and an absent collection-details entry. A function of
/// these arguments alone; collection and uses are fixed absent.
pub uninterp spec fn metadata_call_data(
    name: Seq<char>,
    symbol: Seq<char>,
    uri: Seq<char>,
    seller_fee_basis_points: u16,
    creators: Seq<(Seq<u8>, bool, u8)>,
    is_mutable: bool,
) -> Seq<u8>;

/// Relies on `CreateMetadataAccountV3::instruction` of the metadata program's
/// client crate: the argument bytes of the built instruction are a function
/// of the data record and the mutability flag alone, not of the account
/// addresses. Collection, uses and collection-details are fixed absent, as
/// `metadata_call_data` records. The builder serializes each text and the
/// creator list under a 32-bit length prefix and panics (through its own
/// unwrap) on longer values; the preconditions rule those out.
#[verifier::external_body]
fn metadata_call_data_bytes(
    metadata: &Address,
    mint: &Address,
    mint_authority: &Address,
    payer: &Address,
    update_authority: &Address,
    update_authority_is_signer: bool,
    system_program: &Address,
    name: &String,
    symbol: &String,
    uri: &String,
    seller_fee_basis_points: u16,
    creators: &Vec<CreatorEntry>,
    is_mutable: bool,
) -> (r: Vec<u8>)
    requires
        name@.len() <= MAX_TEXT_LEN,
        symbol@.len() <= MAX_TEXT_LEN,
        uri@.len() <= MAX_TEXT_LEN,
        creators@.len() <= MAX_CREATOR_COUNT,
    ensures
        r@ == metadata_call_data(
            name@,
            symbol@,
            uri@,
            seller_fee_basis_points,
            creators_view(creators@),
            is_mutable,
        ),
{
    let cs = creators.iter().map(
        |c: &CreatorEntry| Creator { address: c.address.bytes.into(), verified: c.verified, share: c.share },
    ).collect();
    let dv = DataV2 {
        name: name.clone(), symbol: symbol.clone(), uri: uri.clone(),
        seller_fee_basis_points, creators: Some(cs), collection: None, uses: None,
    };
    let ix = CreateMetadataAccountV3 {
        metadata: metadata.bytes.into(), mint: mint.bytes.into(),
        mint_authority: mint_authority.bytes.into(), payer: payer.bytes.into(),
        update_authority: (update_authority.bytes.into(), update_authority_is_signer),
        system_program: system_program.bytes.into(), rent: None,
    }.instruction(CreateMetadataAccountV3InstructionArgs { data: dv, is_mutable, collection_details: None });
    ix.data
}

/// Relies on `CreateMasterEditionV3::instruction` of the metadata program's
/// client crate: the argument bytes of the built instruction are the
/// master-edition discriminator byte 17 followed by the encoded optional
/// maximum supply, as that crate's source shows.
#[verifier::external_body]
fn master_edition_call_data_bytes(
    edition: &Address,
    mint: &Address,
    update_authority: &Address,
    mint_authority: &Address,
    payer: &Address,
    metadata: &Address,
    token_program: &Address,
    system_program: &Address,
    max_supply: Option<u64>,
) -> (r: Vec<u8>)
    ensures
        r@ == seq![17u8] + option_u64_bytes(max_supply),
{
    let ix = CreateMasterEditionV3 {
        edition: edition.bytes.into(), mint: mint.bytes.into(),
        update_authority: update_authority.bytes.into(), mint_authority: mint_authority.bytes.into(),
        payer: payer.bytes.into(), metadata: metadata.bytes.into(),
        token_program: token_program.bytes.into(), system_program: system_program.bytes.into(),
        rent: None,
    }.instruction(CreateMasterEditionV3InstructionArgs { max_supply });
    ix.data
}

/// Relies on `spl_token::instruction::mint_to`: for the token program's own
/// identity it returns an instruction whose argument bytes are the mint
/// discriminator byte 7 followed by the little-endian amount. For any other
/// program identity it reports an incorrect program id, which the
/// precondition rules out.
#[verifier::external_body]
fn mint_to_call_data_bytes(
    token_program: &Address,
    mint: &Address,
    destination: &Address,
    owner: &Address,
    amount: u64,
) -> (r: Vec<u8>)
    requires
        token_program@ == spec_token_program_id(),
    ensures
        r@ == seq![7u8] + u64_le_bytes(amount),
{
    let ix = spl_token::instruction::mint_to(
        &token_program.bytes.into(),
        &mint.bytes.into(),
        &destination.bytes.into(),
        &owner.bytes.into(),
        &[],
        amount,
    ).unwrap();
    ix.data
}

/// The account list and program identity of a metadata-creation call, as the
/// metadata program's interface lays them out, around the trusted argument
/// bytes. The length bounds are the serialization format's 32-bit limit, the
/// one input on which the client crate's builder cannot return.
pub fn build_create_metadata(
    metadata: &Address,
    mint: &Address,
    mint_authority: &Address,
    payer: &Address,
    update_authority: &Address,
    update_authority_is_signer: bool,
    system_program: &Address,
    name: &String,
    symbol: &String,
    uri: &String,
    seller_fee_basis_points: u16,
    creators: &Vec<CreatorEntry>,
    is_mutable: bool,
) -> (r: ChainInstruction)
    requires
        name@.len() <= MAX_TEXT_LEN,
        symbol@.len() <= MAX_TEXT_LEN,
        uri@.len() <= MAX_TEXT_LEN,
        creators@.len() <= MAX_CREATOR_COUNT,
    ensures
        r.program@ == spec_metadata_program_id(),
        r.accounts@.len() == 6,
        r.accounts@[0].address@ == metadata@ && !r.accounts@[0].is_signer && r.accounts@[0].is_writable,
        r.accounts@[1].address@ == mint@ && !r.accounts@[1].is_signer && !r.accounts@[1].is_writable,
        r.accounts@[2].address@ == mint_authority@ && r.accounts@[2].is_signer && !r.accounts@[2].is_writable,
        r.accounts@[3].address@ == payer@ && r.accounts@[3].is_signer && r.accounts@[3].is_writable,
        r.accounts@[4].address@ == update_authority@
            && r.accounts@[4].is_signer == update_authority_is_signer
            && !r.accounts@[4].is_writable,
        r.accounts@[5].address@ == system_program@ && !r.accounts@[5].is_signer && !r.accounts@[5].is_writable,
        r.data@ == metadata_call_data(
            name@,
            symbol@,
            uri@,
            seller_fee_basis_points,
            creators_view(creators@),
            is_mutable,
        ),
{
    let mut accounts: Vec<AccountRef> = Vec::new();
    accounts.push(AccountRef { address: *metadata, is_signer: false, is_writable: true });
    accounts.push(AccountRef { address: *mint, is_signer: false, is_writable: false });
    accounts.push(AccountRef { address: *mint_authority, is_signer: true, is_writable: false });
    accounts.push(AccountRef { address: *payer, is_signer: true, is_writable: true });
    accounts.push(AccountRef {
        address: *update_authority,
        is_signer: update_authority_is_signer,
        is_writable: false,
    });
    accounts.push(AccountRef { address: *system_program, is_signer: false, is_writable: false });
    let data = metadata_call_data_bytes(
        metadata, mint, mint_authority, payer, update_authority, update_authority_is_signer,
        system_program, name, symbol, uri, seller_fee_basis_points, creators, is_mutable,
    );
    ChainInstruction { program: metadata_program_id(), accounts, data }
}

/// The account list and program identity of a master-edition call, as the
/// metadata program's interface lays them out, around the trusted argument
/// bytes.
pub fn build_create_master_edition(
    edition: &Address,
    mint: &Address,
    update_authority: &Address,
    mint_authority: &Address,
    payer: &Address,
    metadata: &Address,
    token_program: &Address,
    system_program: &Address,
    max_supply: Option<u64>,
) -> (r: ChainInstruction)
    ensures
        r.program@ == spec_metadata_program_id(),
        r.accounts@.len() == 8,
        r.accounts@[0].address@ == edition@ && !r.accounts@[0].is_signer && r.accounts@[0].is_writable,
        r.accounts@[1].address@ == mint@ && !r.accounts@[1].is_signer && r.accounts@[1].is_writable,
        r.accounts@[2].address@ == update_authority@ && r.accounts@[2].is_signer && !r.accounts@[2].is_writable,
        r.accounts@[3].address@ == mint_authority@ && r.accounts@[3].is_signer && !r.accounts@[3].is_writable,
        r.accounts@[4].address@ == payer@ && r.accounts@[4].is_signer && r.accounts@[4].is_writable,
        r.accounts@[5].address@ == metadata@ && !r.accounts@[5].is_signer && r.accounts@[5].is_writable,
        r.accounts@[6].address@ == token_program@ && !r.accounts@[6].is_signer && !r.accounts@[6].is_writable,
        r.accounts@[7].address@ == system_program@ && !r.accounts@[7].is_signer && !r.accounts@[7].is_writable,
        r.data@ == seq![17u8] + option_u64_bytes(max_supply),
{
    let mut accounts: Vec<AccountRef> = Vec::new();
    accounts.push(AccountRef { address: *edition, is_signer: false, is_writable: true });
    accounts.push(AccountRef { address: *mint, is_signer: false, is_writable: true });
    accounts.push(AccountRef { address: *update_authority, is_signer: true, is_writable: false });
    accounts.push(AccountRef { address: *mint_authority, is_signer: true, is_writable: false });
    accounts.push(AccountRef { address: *payer, is_signer: true, is_writable: true });
    accounts.push(AccountRef { address: *metadata, is_signer: false, is_writable: true });
    accounts.push(AccountRef { address: *token_program, is_signer: false, is_writable: false });
    accounts.push(AccountRef { address: *system_program, is_signer: false, is_writable: false });
    let data = master_edition_call_data_bytes(
        edition, mint, update_authority, mint_authority, payer, metadata, token_program,
        system_program, max_supply,
    );
    ChainInstruction { program: metadata_program_id(), accounts, data }
}

/// The account list and program identity of a mint call, as the token
/// program's interface lays them out, around the trusted argument bytes.
pub fn build_mint_to(
    token_program: &Address,
    mint: &Address,
    destination: &Address,
    owner: &Address,
    amount: u64,
) -> (r: ChainInstruction)
    requires
        token_program@ == spec_token_program_id(),
    ensures
        r.program@ == token_program@,
        r.accounts@.len() == 3,
        r.accounts@[0].address@ == mint@ && !r.accounts@[0].is_signer && r.accounts@[0].is_writable,
        r.accounts@[1].address@ == destination@ && !r.accounts@[1].is_signer && r.accounts@[1].is_writable,
        r.accounts@[2].address@ == owner@ && r.accounts@[2].is_signer && !r.accounts@[2].is_writable,
        r.data@ == seq![7u8] + u64_le_bytes(amount),
{
    let mut accounts: Vec<AccountRef> = Vec::new();
    accounts.push(AccountRef { address: *mint, is_signer: false, is_writable: true });
    accounts.push(AccountRef { address: *destination, is_signer: false, is_writable: true });
    accounts.push(AccountRef { address: *owner, is_signer: true, is_writable: false });
    let data = mint_to_call_data_bytes(token_program, mint, destination, owner, amount);
    ChainInstruction { program: *token_program, accounts, data }
}

} // verus!
