//! The built instructions, held against the invoked programs' own client
//! crates: same program, same account list, same argument bytes.

use anchor_lang::solana_program::pubkey::Pubkey as MplPubkey;
use mpl_token_metadata::instructions::{
    CreateMasterEditionV3, CreateMasterEditionV3InstructionArgs, CreateMetadataAccountV3,
    CreateMetadataAccountV3InstructionArgs,
};
use mpl_token_metadata::types::{Creator, DataV2};
use nft_issuance::address::Address;
use nft_issuance::instructions::{
    build_create_master_edition, build_create_metadata, build_mint_to, ChainInstruction,
    CreatorEntry,
};
use nft_issuance::programs::{metadata_program_id, system_program_id, token_program_id};
use solana_program::pubkey::Pubkey as TokenPubkey;

fn mkey(a: &Address) -> MplPubkey {
    MplPubkey::new_from_array(a.to_bytes())
}

fn tkey(a: &Address) -> TokenPubkey {
    TokenPubkey::new_from_array(a.to_bytes())
}

fn assert_instruction(
    lib: &ChainInstruction,
    program: [u8; 32],
    metas: Vec<([u8; 32], bool, bool)>,
    data: &[u8],
) {
    assert_eq!(lib.program.to_bytes(), program);
    assert_eq!(lib.accounts.len(), metas.len());
    for (a, m) in lib.accounts.iter().zip(metas.iter()) {
        assert_eq!(a.address.to_bytes(), m.0);
        assert_eq!(a.is_signer, m.1);
        assert_eq!(a.is_writable, m.2);
    }
    assert_eq!(lib.data.as_slice(), data);
}

#[test]
fn metadata_instruction_matches_client_builder() {
    let creator = Address::new([1u8; 32]);
    let mint = Address::new([2u8; 32]);
    let metadata = Address::new([3u8; 32]);
    let system = system_program_id();
    let name = String::from("Artifact #1");
    let symbol = String::from("ART1");
    let uri = String::from("https://example.com/1.json");
    let creators = vec![CreatorEntry { address: creator, verified: false, share: 100 }];
    let lib = build_create_metadata(
        &metadata, &mint, &creator, &creator, &creator, false, &system, &name, &symbol, &uri, 0,
        &creators, false,
    );
    let ix = CreateMetadataAccountV3 {
        metadata: mkey(&metadata),
        mint: mkey(&mint),
        mint_authority: mkey(&creator),
        payer: mkey(&creator),
        update_authority: (mkey(&creator), false),
        system_program: mkey(&system),
        rent: None,
    }
    .instruction(CreateMetadataAccountV3InstructionArgs {
        data: DataV2 {
            name,
            symbol,
            uri,
            seller_fee_basis_points: 0,
            creators: Some(vec![Creator { address: mkey(&creator), verified: false, share: 100 }]),
            collection: None,
            uses: None,
        },
        is_mutable: false,
        collection_details: None,
    });
    assert_instruction(
        &lib,
        ix.program_id.to_bytes(),
        ix.accounts.iter().map(|m| (m.pubkey.to_bytes(), m.is_signer, m.is_writable)).collect(),
        &ix.data,
    );
}

#[test]
fn metadata_instruction_data_depends_on_fields() {
    let creator = Address::new([1u8; 32]);
    let mint = Address::new([2u8; 32]);
    let metadata = Address::new([3u8; 32]);
    let system = system_program_id();
    let creators = vec![CreatorEntry { address: creator, verified: false, share: 100 }];
    let a = build_create_metadata(
        &metadata, &mint, &creator, &creator, &creator, false, &system,
        &String::from("One"), &String::from("A"), &String::from("u"), 0, &creators, false,
    );
    let b = build_create_metadata(
        &metadata, &mint, &creator, &creator, &creator, false, &system,
        &String::from("Two"), &String::from("A"), &String::from("u"), 0, &creators, false,
    );
    assert_ne!(a.data, b.data);
}

#[test]
fn master_edition_instruction_matches_client_builder() {
    let creator = Address::new([1u8; 32]);
    let mint = Address::new([2u8; 32]);
    let metadata = Address::new([3u8; 32]);
    let edition = Address::new([4u8; 32]);
    let token = token_program_id();
    let system = system_program_id();
    let lib = build_create_master_edition(
        &edition, &mint, &creator, &creator, &creator, &metadata, &token, &system, Some(1),
    );
    let ix = CreateMasterEditionV3 {
        edition: mkey(&edition),
        mint: mkey(&mint),
        update_authority: mkey(&creator),
        mint_authority: mkey(&creator),
        payer: mkey(&creator),
        metadata: mkey(&metadata),
        token_program: mkey(&token),
        system_program: mkey(&system),
        rent: None,
    }
    .instruction(CreateMasterEditionV3InstructionArgs { max_supply: Some(1) });
    assert_instruction(
        &lib,
        ix.program_id.to_bytes(),
        ix.accounts.iter().map(|m| (m.pubkey.to_bytes(), m.is_signer, m.is_writable)).collect(),
        &ix.data,
    );
}

#[test]
fn master_edition_data_is_discriminator_then_optional_supply() {
    let creator = Address::new([1u8; 32]);
    let mint = Address::new([2u8; 32]);
    let metadata = Address::new([3u8; 32]);
    let edition = Address::new([4u8; 32]);
    let token = token_program_id();
    let system = system_program_id();
    let capped = build_create_master_edition(
        &edition, &mint, &creator, &creator, &creator, &metadata, &token, &system, Some(1),
    );
    assert_eq!(capped.data, vec![17u8, 1, 1, 0, 0, 0, 0, 0, 0, 0]);
    let uncapped = build_create_master_edition(
        &edition, &mint, &creator, &creator, &creator, &metadata, &token, &system, None,
    );
    assert_eq!(uncapped.data, vec![17u8, 0]);
}

#[test]
fn mint_instruction_matches_token_crate() {
    let owner = Address::new([1u8; 32]);
    let mint = Address::new([2u8; 32]);
    let destination = Address::new([3u8; 32]);
    let token = token_program_id();
    let lib = build_mint_to(&token, &mint, &destination, &owner, 1);
    let ix = spl_token::instruction::mint_to(
        &tkey(&token),
        &tkey(&mint),
        &tkey(&destination),
        &tkey(&owner),
        &[],
        1,
    )
    .unwrap();
    assert_instruction(
        &lib,
        ix.program_id.to_bytes(),
        ix.accounts.iter().map(|m| (m.pubkey.to_bytes(), m.is_signer, m.is_writable)).collect(),
        &ix.data,
    );
}

#[test]
fn mint_instruction_data_is_discriminator_then_amount() {
    let owner = Address::new([1u8; 32]);
    let mint = Address::new([2u8; 32]);
    let destination = Address::new([3u8; 32]);
    let token = token_program_id();
    let lib = build_mint_to(&token, &mint, &destination, &owner, 1);
    assert_eq!(lib.data, vec![7u8, 1, 0, 0, 0, 0, 0, 0, 0]);
    let many = build_mint_to(&token, &mint, &destination, &owner, 0x0102030405060708);
    assert_eq!(many.data, vec![7u8, 8, 7, 6, 5, 4, 3, 2, 1]);
}
