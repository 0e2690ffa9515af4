//! Validation and the all-or-nothing issuance model.
//!
//! One invocation validates the supplied account handles, then issues three
//! ordered privileged calls: create the metadata record, mint one unit into
//! the creator's token account, create the master edition capping supply at
//! one. [`prepare_issuance`] performs the validation and builds the three
//! calls; [`process_issuance`] is the model of the whole invocation,
//! including the downstream failures and the resulting account state. The
//! host transaction discards every mutation when any step fails, so a
//! failing invocation returns an error and no state.

use vstd::prelude::*;
use crate::address::Address;
use crate::instructions::{
    build_create_master_edition, build_create_metadata, build_mint_to, creators_view,
    u64_le_bytes, option_u64_bytes, metadata_call_data, ChainInstruction, CreatorEntry,
};
use crate::model::{
    mint_fresh, token_account_fresh, AccountHandles, EditionState, LedgerState, MetadataState,
    MintState, TokenAccountState,
};
use crate::pda::{
    associated_token_address, expected_associated_token_account, expected_master_edition,
    expected_metadata_account, master_edition_address, metadata_account_address,
};
use crate::programs::{
    spec_associated_token_program_id, spec_metadata_program_id, spec_rent_sysvar_id,
    spec_system_program_id, spec_token_program_id, associated_token_program_id,
    metadata_program_id, rent_sysvar_id, system_program_id, token_program_id,
};

verus! {

/// Why an invocation is rejected or fails.
#[derive(Clone, Copy, Debug, PartialEq, Eq, Structural)]
pub enum NftError {
    /// The creator did not sign the transaction.
    CreatorNotSigner,
    /// The token-program handle is not the token program.
    WrongTokenProgram,
    /// The associated-token-program handle is not the associated-token program.
    WrongAssociatedTokenProgram,
    /// The metadata-program handle differs from the expected constant.
    WrongMetadataProgram,
    /// The system-program handle is not the system program.
    WrongSystemProgram,
    /// The rent handle is not the rent sysvar.
    WrongRentSysvar,
    /// The mint is missing or not freshly initialized for this creator.
    MintNotFresh,
    /// The token-account handle is not the canonical associated account.
    TokenAccountNotAssociated,
    /// The token account is missing or not freshly initialized.
    TokenAccountNotFresh,
    /// The metadata-account handle does not match its required derivation.
    MetadataDerivationMismatch,
    /// The master-edition handle does not match its required derivation.
    EditionDerivationMismatch,
    /// The metadata account already holds a record (downstream failure).
    MetadataAccountInUse,
    /// The master-edition account already holds a record (downstream failure).
    EditionAccountInUse,
}

/// The error is detected before any cross-program call is issued.
pub open spec fn is_precondition_violation(e: NftError) -> bool {
    e != NftError::MetadataAccountInUse && e != NftError::EditionAccountInUse
}

/// The first precondition violation among the supplied handles and the
/// account contents, in the order the checks are made; `None` when every
/// precondition holds.
pub open spec fn handles_check(h: AccountHandles, l: LedgerState) -> Option<NftError> {
    if !h.creator_is_signer {
        Some(NftError::CreatorNotSigner)
    } else if h.token_program@ != spec_token_program_id() {
        Some(NftError::WrongTokenProgram)
    } else if h.associated_token_program@ != spec_associated_token_program_id() {
        Some(NftError::WrongAssociatedTokenProgram)
    } else if h.metadata_program@ != spec_metadata_program_id() {
        Some(NftError::WrongMetadataProgram)
    } else if h.system_program@ != spec_system_program_id() {
        Some(NftError::WrongSystemProgram)
    } else if h.rent_sysvar@ != spec_rent_sysvar_id() {
        Some(NftError::WrongRentSysvar)
    } else if !mint_fresh(l, h) {
        Some(NftError::MintNotFresh)
    } else if h.creator_token_account@ != associated_token_address(h.creator@, h.mint@) {
        Some(NftError::TokenAccountNotAssociated)
    } else if !token_account_fresh(l, h) {
        Some(NftError::TokenAccountNotFresh)
    } else if h.metadata_account@ != metadata_account_address(h.metadata_program@, h.mint@) {
        Some(NftError::MetadataDerivationMismatch)
    } else if h.master_edition@ != master_edition_address(h.metadata_program@, h.mint@) {
        Some(NftError::EditionDerivationMismatch)
    } else {
        None
    }
}

/// The outcome of the whole invocation: the first precondition violation,
/// else the first downstream failure (a derived account already in use),
/// else success.
pub open spec fn issue_outcome(h: AccountHandles, l: LedgerState) -> Option<NftError> {
    if handles_check(h, l) is Some {
        handles_check(h, l)
    } else if l.metadata is Some {
        Some(NftError::MetadataAccountInUse)
    } else if l.master_edition is Some {
        Some(NftError::EditionAccountInUse)
    } else {
        None
    }
}

/// The account state a successful invocation leaves behind: supply one, one
/// unit in the creator's account, the supplied metadata fields with a single
/// unverified creator entry holding the whole share, and a master edition
/// capping supply at one.
pub open spec fn issued_state(
    l2: LedgerState,
    l: LedgerState,
    h: AccountHandles,
    name: Seq<char>,
    symbol: Seq<char>,
    uri: Seq<char>,
) -> bool {
    &&& (l.mint matches Some(m) && l2.mint matches Some(m2) && m2.decimals == m.decimals
        && m2.supply == 1 && m2.mint_authority == m.mint_authority && m2.freeze_authority
        == m.freeze_authority)
    &&& (l.token_account matches Some(t) && l2.token_account matches Some(t2) && t2.mint@
        == t.mint@ && t2.owner@ == t.owner@ && t2.amount == 1)
    &&& (l2.metadata matches Some(md) && md.name@ == name && md.symbol@ == symbol && md.uri@
        == uri && md.seller_fee_basis_points == 0 && !md.is_mutable && creators_view(md.creators@)
        == seq![(h.creator@, false, 100u8)])
    &&& l2.master_edition == Some(EditionState { max_supply: Some(1u64) })
}

/// Check every precondition over the supplied handles and account contents,
/// reporting the first violation in the documented order.
pub fn validate_accounts(h: &AccountHandles, l: &LedgerState) -> (r: Result<(), NftError>)
    ensures
        r is Ok <==> handles_check(*h, *l) is None,
        r matches Err(e) ==> handles_check(*h, *l) == Some(e),
{
    if !h.creator_is_signer {
        return Err(NftError::CreatorNotSigner);
    }
    let token_program = token_program_id();
    if !h.token_program.same_as(&token_program) {
        return Err(NftError::WrongTokenProgram);
    }
    let ata_program = associated_token_program_id();
    if !h.associated_token_program.same_as(&ata_program) {
        return Err(NftError::WrongAssociatedTokenProgram);
    }
    let metadata_program = metadata_program_id();
    if !h.metadata_program.same_as(&metadata_program) {
        return Err(NftError::WrongMetadataProgram);
    }
    let system_program = system_program_id();
    if !h.system_program.same_as(&system_program) {
        return Err(NftError::WrongSystemProgram);
    }
    let rent_sysvar = rent_sysvar_id();
    if !h.rent_sysvar.same_as(&rent_sysvar) {
        return Err(NftError::WrongRentSysvar);
    }
    let fresh_mint = match &l.mint {
        Some(m) => m.decimals == 0 && m.supply == 0 && (match &m.mint_authority {
            Some(a) => a.same_as(&h.creator),
            None => false,
        }) && (match &m.freeze_authority {
            Some(f) => f.same_as(&h.creator),
            None => false,
        }),
        None => false,
    };
    if !fresh_mint {
        return Err(NftError::MintNotFresh);
    }
    let ata = expected_associated_token_account(&h.creator, &h.mint);
    if !h.creator_token_account.same_as(&ata) {
        return Err(NftError::TokenAccountNotAssociated);
    }
    let fresh_token_account = match &l.token_account {
        Some(t) => t.mint.same_as(&h.mint) && t.owner.same_as(&h.creator) && t.amount == 0,
        None => false,
    };
    if !fresh_token_account {
        return Err(NftError::TokenAccountNotFresh);
    }
    let metadata_account = expected_metadata_account(&h.metadata_program, &h.mint);
    if !h.metadata_account.same_as(&metadata_account) {
        return Err(NftError::MetadataDerivationMismatch);
    }
    let master_edition = expected_master_edition(&h.metadata_program, &h.mint);
    if !h.master_edition.same_as(&master_edition) {
        return Err(NftError::EditionDerivationMismatch);
    }
    Ok(())
}

/// The model of one whole invocation: validate, then apply the three ordered
/// calls. Success returns the resulting account state; any failure returns
/// the error alone, the caller's state untouched, matching the host
/// transaction's atomic rollback.
pub fn process_issuance(
    h: &AccountHandles,
    l: &LedgerState,
    name: &String,
    symbol: &String,
    uri: &String,
) -> (r: Result<LedgerState, NftError>)
    ensures
        r is Ok <==> issue_outcome(*h, *l) is None,
        r matches Err(e) ==> issue_outcome(*h, *l) == Some(e),
        r matches Ok(l2) ==> issued_state(l2, *l, *h, name@, symbol@, uri@),
{
    match validate_accounts(h, l) {
        Ok(()) => (),
        Err(e) => {
            return Err(e);
        },
    }
    if l.metadata.is_some() {
        return Err(NftError::MetadataAccountInUse);
    }
    if l.master_edition.is_some() {
        return Err(NftError::EditionAccountInUse);
    }
    let m = l.mint.unwrap();
    let t = l.token_account.unwrap();
    let creators = vec![CreatorEntry { address: h.creator, verified: false, share: 100 }];
    proof {
        assert(creators_view(creators@) =~= seq![(h.creator@, false, 100u8)]);
    }
    Ok(
        LedgerState {
            mint: Some(
                MintState {
                    decimals: m.decimals,
                    supply: 1,
                    mint_authority: m.mint_authority,
                    freeze_authority: m.freeze_authority,
                },
            ),
            token_account: Some(TokenAccountState { mint: t.mint, owner: t.owner, amount: 1 }),
            metadata: Some(
                MetadataState {
                    name: name.clone(),
                    symbol: symbol.clone(),
                    uri: uri.clone(),
                    seller_fee_basis_points: 0,
                    creators,
                    is_mutable: false,
                },
            ),
            master_edition: Some(EditionState { max_supply: Some(1) }),
        },
    )
}

/// The three calls of one invocation, in the order they must be issued.
#[derive(Clone, Debug)]
pub struct IssuancePlan {
    pub create_metadata: ChainInstruction,
    pub mint_one: ChainInstruction,
    pub create_master_edition: ChainInstruction,
}

/// The metadata-creation call as the handler issues it: addressed to the
/// metadata program, the creator as mint authority, payer and (non-signing)
/// update authority, no royalty fee, a single unverified creator entry with
/// the whole share, and an immutable record.
pub open spec fn is_metadata_step(
    ins: ChainInstruction,
    h: AccountHandles,
    name: Seq<char>,
    symbol: Seq<char>,
    uri: Seq<char>,
) -> bool {
    &&& ins.program@ == spec_metadata_program_id()
    &&& ins.accounts@.len() == 6
    &&& ins.accounts@[0].address@ == h.metadata_account@ && !ins.accounts@[0].is_signer
        && ins.accounts@[0].is_writable
    &&& ins.accounts@[1].address@ == h.mint@ && !ins.accounts@[1].is_signer
        && !ins.accounts@[1].is_writable
    &&& ins.accounts@[2].address@ == h.creator@ && ins.accounts@[2].is_signer
        && !ins.accounts@[2].is_writable
    &&& ins.accounts@[3].address@ == h.creator@ && ins.accounts@[3].is_signer
        && ins.accounts@[3].is_writable
    &&& ins.accounts@[4].address@ == h.creator@ && !ins.accounts@[4].is_signer
        && !ins.accounts@[4].is_writable
    &&& ins.accounts@[5].address@ == h.system_program@ && !ins.accounts@[5].is_signer
        && !ins.accounts@[5].is_writable
    &&& ins.data@ == metadata_call_data(
        name,
        symbol,
        uri,
        0,
        seq![(h.creator@, false, 100u8)],
        false,
    )
}

/// The mint call as the handler issues it: addressed to the token program,
/// one unit from the mint into the creator's token account, the creator
/// signing as mint authority.
pub open spec fn is_mint_step(ins: ChainInstruction, h: AccountHandles) -> bool {
    &&& ins.program@ == h.token_program@
    &&& ins.accounts@.len() == 3
    &&& ins.accounts@[0].address@ == h.mint@ && !ins.accounts@[0].is_signer
        && ins.accounts@[0].is_writable
    &&& ins.accounts@[1].address@ == h.creator_token_account@ && !ins.accounts@[1].is_signer
        && ins.accounts@[1].is_writable
    &&& ins.accounts@[2].address@ == h.creator@ && ins.accounts@[2].is_signer
        && !ins.accounts@[2].is_writable
    &&& ins.data@ == seq![7u8] + u64_le_bytes(1)
}

/// The master-edition call as the handler issues it: addressed to the
/// metadata program, the creator signing as update and mint authority and
/// paying, referencing the metadata account, with maximum supply one.
pub open spec fn is_master_edition_step(ins: ChainInstruction, h: AccountHandles) -> bool {
    &&& ins.program@ == spec_metadata_program_id()
    &&& ins.accounts@.len() == 8
    &&& ins.accounts@[0].address@ == h.master_edition@ && !ins.accounts@[0].is_signer
        && ins.accounts@[0].is_writable
    &&& ins.accounts@[1].address@ == h.mint@ && !ins.accounts@[1].is_signer
        && ins.accounts@[1].is_writable
    &&& ins.accounts@[2].address@ == h.creator@ && ins.accounts@[2].is_signer
        && !ins.accounts@[2].is_writable
    &&& ins.accounts@[3].address@ == h.creator@ && ins.accounts@[3].is_signer
        && !ins.accounts@[3].is_writable
    &&& ins.accounts@[4].address@ == h.creator@ && ins.accounts@[4].is_signer
        && ins.accounts@[4].is_writable
    &&& ins.accounts@[5].address@ == h.metadata_account@ && !ins.accounts@[5].is_signer
        && ins.accounts@[5].is_writable
    &&& ins.accounts@[6].address@ == h.token_program@ && !ins.accounts@[6].is_signer
        && !ins.accounts@[6].is_writable
    &&& ins.accounts@[7].address@ == h.system_program@ && !ins.accounts@[7].is_signer
        && !ins.accounts@[7].is_writable
    &&& ins.data@ == seq![17u8] + option_u64_bytes(Some(1u64))
}

/// The whole plan matches the handler's fixed call sequence.
pub open spec fn plan_matches(
    p: IssuancePlan,
    h: AccountHandles,
    name: Seq<char>,
    symbol: Seq<char>,
    uri: Seq<char>,
) -> bool {
    &&& is_metadata_step(p.create_metadata, h, name, symbol, uri)
    &&& is_mint_step(p.mint_one, h)
    &&& is_master_edition_step(p.create_master_edition, h)
}

/// Validate the supplied accounts and build the three calls of the
/// invocation, in order. Rejected inputs get the first violation and no
/// plan, so no call can be issued for them. The length bounds are the
/// metadata serialization format's 32-bit limit, the one input on which the
/// metadata builder cannot return; the handler otherwise passes the texts
/// through unexamined.
pub fn prepare_issuance(
    h: &AccountHandles,
    l: &LedgerState,
    name: &String,
    symbol: &String,
    uri: &String,
) -> (r: Result<IssuancePlan, NftError>)
    requires
        name@.len() <= crate::instructions::MAX_TEXT_LEN,
        symbol@.len() <= crate::instructions::MAX_TEXT_LEN,
        uri@.len() <= crate::instructions::MAX_TEXT_LEN,
    ensures
        r is Ok <==> handles_check(*h, *l) is None,
        r matches Err(e) ==> handles_check(*h, *l) == Some(e),
        r matches Ok(p) ==> plan_matches(p, *h, name@, symbol@, uri@),
{
    match validate_accounts(h, l) {
        Ok(()) => (),
        Err(e) => {
            return Err(e);
        },
    }
    let creators = vec![CreatorEntry { address: h.creator, verified: false, share: 100 }];
    proof {
        assert(creators_view(creators@) =~= seq![(h.creator@, false, 100u8)]);
    }
    let create_metadata = build_create_metadata(
        &h.metadata_account,
        &h.mint,
        &h.creator,
        &h.creator,
        &h.creator,
        false,
        &h.system_program,
        name,
        symbol,
        uri,
        0,
        &creators,
        false,
    );
    let mint_one = build_mint_to(&h.token_program, &h.mint, &h.creator_token_account, &h.creator, 1);
    let create_master_edition = build_create_master_edition(
        &h.master_edition,
        &h.mint,
        &h.creator,
        &h.creator,
        &h.creator,
        &h.metadata_account,
        &h.token_program,
        &h.system_program,
        Some(1),
    );
    Ok(IssuancePlan { create_metadata, mint_one, create_master_edition })
}

/// Law: issuing against the same mint a second time is rejected. After a
/// successful invocation the mint's supply is one, so the freshness
/// precondition fails and the second invocation makes no call and mutates
/// nothing.
pub proof fn lemma_reissue_same_mint_rejected(
    h: AccountHandles,
    l: LedgerState,
    l2: LedgerState,
    name: Seq<char>,
    symbol: Seq<char>,
    uri: Seq<char>,
)
    requires
        issue_outcome(h, l) is None,
        issued_state(l2, l, h, name, symbol, uri),
    ensures
        issue_outcome(h, l2) == Some(NftError::MintNotFresh),
{
}

/// Law: a metadata-program handle that differs from the expected constant is
/// rejected as a precondition violation, before any cross-program call is
/// issued.
pub proof fn lemma_wrong_metadata_program_rejected(h: AccountHandles, l: LedgerState)
    requires
        h.metadata_program@ != spec_metadata_program_id(),
    ensures
        issue_outcome(h, l) matches Some(e) && is_precondition_violation(e),
{
}

/// Law: a metadata-account or master-edition handle that does not match its
/// required derivation is rejected as a precondition violation, before any
/// cross-program call is issued.
pub proof fn lemma_wrong_derivation_rejected(h: AccountHandles, l: LedgerState)
    requires
        h.metadata_account@ != metadata_account_address(h.metadata_program@, h.mint@)
            || h.master_edition@ != master_edition_address(h.metadata_program@, h.mint@),
    ensures
        issue_outcome(h, l) matches Some(e) && is_precondition_violation(e),
{
}

} // verus!
