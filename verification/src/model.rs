//! The accounts an invocation touches, as plain values.
//!
//! The handler never owns persistent state; it reads and mutates on-chain
//! accounts. This module models the contents the handler depends on: the
//! mint, the creator's token account, and the two metadata-program records,
//! each `None` while the account is not initialized.

use vstd::prelude::*;
use crate::address::Address;
use crate::instructions::CreatorEntry;

verus! {

/// A token mint: a supply record with authorities.
#[derive(Clone, Copy, Debug)]
pub struct MintState {
    pub decimals: u8,
    pub supply: u64,
    pub mint_authority: Option<Address>,
    pub freeze_authority: Option<Address>,
}

/// A token account binding a mint to an owner.
#[derive(Clone, Copy, Debug)]
pub struct TokenAccountState {
    pub mint: Address,
    pub owner: Address,
    pub amount: u64,
}

/// A metadata record, as the metadata program keeps it.
#[derive(Clone, Debug)]
pub struct MetadataState {
    pub name: String,
    pub symbol: String,
    pub uri: String,
    pub seller_fee_basis_points: u16,
    pub creators: Vec<CreatorEntry>,
    pub is_mutable: bool,
}

/// A master-edition record: the supply cap of a unique token.
#[derive(Clone, Copy, Debug)]
pub struct EditionState {
    pub max_supply: Option<u64>,
}

/// The state of the four accounts one invocation creates or mutates.
#[derive(Clone, Debug)]
pub struct LedgerState {
    pub mint: Option<MintState>,
    pub token_account: Option<TokenAccountState>,
    pub metadata: Option<MetadataState>,
    pub master_edition: Option<EditionState>,
}

/// The fixed, ordered list of account handles the caller supplies.
#[derive(Clone, Copy, Debug)]
pub struct AccountHandles {
    pub creator: Address,
    pub creator_is_signer: bool,
    pub mint: Address,
    pub creator_token_account: Address,
    pub metadata_account: Address,
    pub master_edition: Address,
    pub token_program: Address,
    pub associated_token_program: Address,
    pub metadata_program: Address,
    pub system_program: Address,
    pub rent_sysvar: Address,
}

/// The mint is freshly initialized for this invocation: zero decimals, no
/// supply yet, and both authorities held by the creator.
pub open spec fn mint_fresh(l: LedgerState, h: AccountHandles) -> bool {
    l.mint matches Some(m) && m.decimals == 0 && m.supply == 0 && (m.mint_authority matches Some(
        a,
    ) && a@ == h.creator@) && (m.freeze_authority matches Some(f) && f@ == h.creator@)
}

/// The creator's token account is freshly initialized for this invocation:
/// it binds the supplied mint to the creator and holds nothing yet.
pub open spec fn token_account_fresh(l: LedgerState, h: AccountHandles) -> bool {
    l.token_account matches Some(t) && t.mint@ == h.mint@ && t.owner@ == h.creator@ && t.amount
        == 0
}

} // verus!
