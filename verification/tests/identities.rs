//! The pinned program identities and address derivations, held against the
//! host runtime's own libraries.

use nft_issuance::address::Address;
use nft_issuance::pda::{
    expected_associated_token_account, expected_master_edition, expected_metadata_account,
};
use nft_issuance::programs::{
    associated_token_program_id, metadata_program_id, rent_sysvar_id, system_program_id,
    token_program_id,
};
use solana_program::pubkey::Pubkey;

#[test]
fn metadata_program_identity_matches_client_crate() {
    assert_eq!(metadata_program_id().to_bytes(), mpl_token_metadata::ID.to_bytes());
}

#[test]
fn token_program_identity_matches_client_crate() {
    assert_eq!(token_program_id().to_bytes(), spl_token::ID.to_bytes());
}

#[test]
fn associated_token_program_identity_matches_client_crate() {
    assert_eq!(
        associated_token_program_id().to_bytes(),
        anchor_spl::associated_token::ID.to_bytes()
    );
}

#[test]
fn system_program_identity_matches_runtime() {
    assert_eq!(system_program_id().to_bytes(), [0u8; 32]);
    assert_eq!(
        system_program_id().to_bytes(),
        anchor_lang::system_program::ID.to_bytes()
    );
}

#[test]
fn rent_sysvar_identity_matches_runtime() {
    #[allow(deprecated)]
    let expected = solana_program::sysvar::rent::ID;
    assert_eq!(rent_sysvar_id().to_bytes(), expected.to_bytes());
}

#[test]
fn metadata_account_derivation_matches_runtime_library() {
    let program = metadata_program_id();
    let mint = Address::new([7u8; 32]);
    let lib = expected_metadata_account(&program, &mint);
    let (key, _bump) = Pubkey::find_program_address(
        &[b"metadata", &program.to_bytes(), &mint.to_bytes()],
        &Pubkey::new_from_array(program.to_bytes()),
    );
    assert_eq!(lib.to_bytes(), key.to_bytes());
}

#[test]
fn master_edition_derivation_matches_runtime_library() {
    let program = metadata_program_id();
    let mint = Address::new([9u8; 32]);
    let lib = expected_master_edition(&program, &mint);
    let (key, _bump) = Pubkey::find_program_address(
        &[b"metadata", &program.to_bytes(), &mint.to_bytes(), b"edition"],
        &Pubkey::new_from_array(program.to_bytes()),
    );
    assert_eq!(lib.to_bytes(), key.to_bytes());
}

#[test]
fn associated_token_derivation_matches_client_crate() {
    let owner = Address::new([3u8; 32]);
    let mint = Address::new([4u8; 32]);
    let lib = expected_associated_token_account(&owner, &mint);
    let expected = anchor_spl::associated_token::get_associated_token_address(
        &anchor_lang::solana_program::pubkey::Pubkey::new_from_array(owner.to_bytes()),
        &anchor_lang::solana_program::pubkey::Pubkey::new_from_array(mint.to_bytes()),
    );
    assert_eq!(lib.to_bytes(), expected.to_bytes());
}

#[test]
fn addresses_compare_by_bytes() {
    let a = Address::new([5u8; 32]);
    let b = Address::new([5u8; 32]);
    let mut c_bytes = [5u8; 32];
    c_bytes[31] = 6;
    let c = Address::new(c_bytes);
    assert!(a == b);
    assert!(a != c);
    assert_eq!(a.to_bytes(), b.to_bytes());
}
