//! The mutation dispatcher: each operation on an already-created account
//! checks that the account is live, that the targeted extension block
//! exists, that the presented signer holds the one authority role the
//! operation names, and any domain rule on the new value — in that order —
//! then changes exactly the targeted block and returns the instruction that
//! performs the same change on the ledger.

use vstd::prelude::*;

use crate::errors::TokenExtensionError;
use crate::fees::lemma_fee_le_amount;
use crate::fees::spec_multiplier_bits_valid;
use crate::fees::spec_transfer_fee;
use crate::keys::spec_opt_key_encodable;
use crate::keys::Key;
use crate::kinds::spec_required_space;
use crate::kinds::ExtensionKind;
use crate::kinds::RecordKind;
use crate::mint_model::lemma_push_contains;
use crate::mint_model::lemma_push_no_duplicates;
use crate::mint_model::GroupExt;
use crate::mint_model::InterestExt;
use crate::mint_model::MemberExt;
use crate::mint_model::MetadataField;
use crate::mint_model::MintModel;
use crate::mint_model::PausableExt;
use crate::mint_model::ScaledUiExt;
use crate::mint_model::TransferHookExt;
use crate::token_model::CpiGuardExt;
use crate::token_model::MemoExt;
use crate::token_model::TokenModel;
use crate::trusted;

use solana_instruction::Instruction;

verus! {

/// A mint takes mutations only while its base record is initialized and the
/// account has not been closed.
pub open spec fn spec_mint_live(m: MintModel) -> bool {
    m.base_initialized && !m.closed
}

/// A token account takes mutations under the same condition.
pub open spec fn spec_token_live(t: TokenModel) -> bool {
    t.base_initialized && !t.closed
}

/// Rules for a default-state update: the new tag must be in domain, the
/// mint live with the block present, and the signer must be the mint's
/// freeze authority.
pub open spec fn spec_update_default_state_check(m: MintModel, signer: Key, state: u8) -> Option<
    TokenExtensionError,
> {
    if state > 2 {
        Some(TokenExtensionError::InvalidDefaultAccountState)
    } else if !spec_mint_live(m) {
        Some(TokenExtensionError::InvalidExtensionType)
    } else if m.default_state is None {
        Some(TokenExtensionError::InvalidExtensionType)
    } else if m.freeze_authority != Some(signer) {
        Some(TokenExtensionError::InvalidAuthority)
    } else {
        None
    }
}

/// Updates the default state new token accounts of this mint start in.
pub fn update_default_account_state(
    m: &mut MintModel,
    mint_key: Key,
    signer: Key,
    default_state: u8,
) -> (r: Result<Instruction, TokenExtensionError>)
    requires
        old(m).wf(),
    ensures
        final(m).wf(),
        r is Err <==> spec_update_default_state_check(*old(m), signer, default_state) is Some,
        r matches Err(e) ==> *final(m) == *old(m) && spec_update_default_state_check(
            *old(m),
            signer,
            default_state,
        ) == Some(e),
        r matches Ok(instr) ==> *final(m) == (MintModel {
            default_state: Some(default_state),
            ..*old(m)
        }) && instr == trusted::update_default_state_instr(mint_key, signer, default_state),
{
    if default_state > 2 {
        return Err(TokenExtensionError::InvalidDefaultAccountState);
    }
    if !m.base_initialized || m.closed {
        return Err(TokenExtensionError::InvalidExtensionType);
    }
    if m.default_state.is_none() {
        return Err(TokenExtensionError::InvalidExtensionType);
    }
    let ok = match &m.freeze_authority {
        Some(a) => *a == signer,
        None => false,
    };
    if !ok {
        return Err(TokenExtensionError::InvalidAuthority);
    }
    m.default_state = Some(default_state);
    Ok(trusted::build_update_default_state(&mint_key, &signer, default_state))
}

/// Rules for pausing or resuming: the mint must be live with the pausable
/// block, and the signer must be its recorded pause authority.
pub open spec fn spec_pause_check(m: MintModel, signer: Key) -> Option<TokenExtensionError> {
    if !spec_mint_live(m) {
        Some(TokenExtensionError::InvalidExtensionType)
    } else if m.pausable is None {
        Some(TokenExtensionError::InvalidExtensionType)
    } else if m.pausable->Some_0.authority != signer {
        Some(TokenExtensionError::InvalidAuthority)
    } else {
        None
    }
}

/// Pauses all transfers, mints and burns of this mint.
pub fn pause_mint(m: &mut MintModel, mint_key: Key, signer: Key) -> (r: Result<
    Instruction,
    TokenExtensionError,
>)
    requires
        old(m).wf(),
    ensures
        final(m).wf(),
        r is Err <==> spec_pause_check(*old(m), signer) is Some,
        r matches Err(e) ==> *final(m) == *old(m) && spec_pause_check(*old(m), signer) == Some(e),
        r matches Ok(instr) ==> (old(m).pausable matches Some(p) && *final(m) == (MintModel {
            pausable: Some(PausableExt { authority: p.authority, paused: true }),
            ..*old(m)
        })) && instr == trusted::pause_instr(mint_key, signer),
{
    if !m.base_initialized || m.closed {
        return Err(TokenExtensionError::InvalidExtensionType);
    }
    let auth = match &m.pausable {
        Some(p) => p.authority,
        None => { return Err(TokenExtensionError::InvalidExtensionType) },
    };
    if auth != signer {
        return Err(TokenExtensionError::InvalidAuthority);
    }
    m.pausable = Some(PausableExt { authority: auth, paused: true });
    Ok(trusted::build_pause(&mint_key, &signer))
}

/// Resumes a paused mint.
pub fn resume_mint(m: &mut MintModel, mint_key: Key, signer: Key) -> (r: Result<
    Instruction,
    TokenExtensionError,
>)
    requires
        old(m).wf(),
    ensures
        final(m).wf(),
        r is Err <==> spec_pause_check(*old(m), signer) is Some,
        r matches Err(e) ==> *final(m) == *old(m) && spec_pause_check(*old(m), signer) == Some(e),
        r matches Ok(instr) ==> (old(m).pausable matches Some(p) && *final(m) == (MintModel {
            pausable: Some(PausableExt { authority: p.authority, paused: false }),
            ..*old(m)
        })) && instr == trusted::resume_instr(mint_key, signer),
{
    if !m.base_initialized || m.closed {
        return Err(TokenExtensionError::InvalidExtensionType);
    }
    let auth = match &m.pausable {
        Some(p) => p.authority,
        None => { return Err(TokenExtensionError::InvalidExtensionType) },
    };
    if auth != signer {
        return Err(TokenExtensionError::InvalidAuthority);
    }
    m.pausable = Some(PausableExt { authority: auth, paused: false });
    Ok(trusted::build_resume(&mint_key, &signer))
}

/// Rules for a rate update: the mint must be live with the interest block;
/// a mint configured without a rate authority takes no updates at all, and
/// any other signer than the recorded authority is turned away.
pub open spec fn spec_update_rate_check(m: MintModel, signer: Key) -> Option<TokenExtensionError> {
    if !spec_mint_live(m) {
        Some(TokenExtensionError::InvalidExtensionType)
    } else if m.interest is None {
        Some(TokenExtensionError::InvalidExtensionType)
    } else if m.interest->Some_0.rate_authority is None {
        Some(TokenExtensionError::InterestRateUpdateNotAllowed)
    } else if m.interest->Some_0.rate_authority != Some(signer) {
        Some(TokenExtensionError::InvalidAuthority)
    } else {
        None
    }
}

/// Updates the interest rate of an interest-bearing mint.
pub fn update_interest_rate(m: &mut MintModel, mint_key: Key, signer: Key, rate: i16) -> (r: Result<
    Instruction,
    TokenExtensionError,
>)
    requires
        old(m).wf(),
    ensures
        final(m).wf(),
        r is Err <==> spec_update_rate_check(*old(m), signer) is Some,
        r matches Err(e) ==> *final(m) == *old(m) && spec_update_rate_check(*old(m), signer)
            == Some(e),
        r matches Ok(instr) ==> (old(m).interest matches Some(i) && *final(m) == (MintModel {
            interest: Some(InterestExt { rate_authority: i.rate_authority, rate }),
            ..*old(m)
        })) && instr == trusted::update_rate_instr(mint_key, signer, rate),
{
    if !m.base_initialized || m.closed {
        return Err(TokenExtensionError::InvalidExtensionType);
    }
    let ra = match &m.interest {
        Some(i) => i.rate_authority,
        None => { return Err(TokenExtensionError::InvalidExtensionType) },
    };
    match ra {
        None => Err(TokenExtensionError::InterestRateUpdateNotAllowed),
        Some(a) => {
            if a != signer {
                return Err(TokenExtensionError::InvalidAuthority);
            }
            m.interest = Some(InterestExt { rate_authority: ra, rate });
            Ok(trusted::build_update_rate(&mint_key, &signer, rate))
        },
    }
}

/// Rules for a hook-program update: a mint without the block has no hook
/// program to speak of; the block's authority must sign, and a block
/// configured without one takes no updates.
pub open spec fn spec_update_hook_check(m: MintModel, signer: Key) -> Option<TokenExtensionError> {
    if !spec_mint_live(m) {
        Some(TokenExtensionError::InvalidExtensionType)
    } else if m.transfer_hook is None {
        Some(TokenExtensionError::TransferHookProgramNotFound)
    } else if m.transfer_hook->Some_0.authority != Some(signer) {
        Some(TokenExtensionError::InvalidAuthority)
    } else {
        None
    }
}

/// Re-targets the transfer hook of a mint to another program, or to none.
pub fn update_transfer_hook_program(
    m: &mut MintModel,
    mint_key: Key,
    signer: Key,
    program_id: Option<Key>,
) -> (r: Result<Instruction, TokenExtensionError>)
    requires
        old(m).wf(),
        spec_opt_key_encodable(program_id),
    ensures
        final(m).wf(),
        r is Err <==> spec_update_hook_check(*old(m), signer) is Some,
        r matches Err(e) ==> *final(m) == *old(m) && spec_update_hook_check(*old(m), signer)
            == Some(e),
        r matches Ok(instr) ==> (old(m).transfer_hook matches Some(h) && *final(m) == (MintModel {
            transfer_hook: Some(TransferHookExt { authority: h.authority, program_id }),
            ..*old(m)
        })) && instr == trusted::update_transfer_hook_instr(mint_key, signer, program_id),
{
    if !m.base_initialized || m.closed {
        return Err(TokenExtensionError::InvalidExtensionType);
    }
    let ha = match &m.transfer_hook {
        Some(h) => h.authority,
        None => { return Err(TokenExtensionError::TransferHookProgramNotFound) },
    };
    let ok = match ha {
        Some(a) => a == signer,
        None => false,
    };
    if !ok {
        return Err(TokenExtensionError::InvalidAuthority);
    }
    m.transfer_hook = Some(TransferHookExt { authority: ha, program_id });
    Ok(trusted::build_update_transfer_hook(&mint_key, &signer, &program_id))
}

/// Rules for a multiplier update: the mint must be live with the block, its
/// authority must sign, and the new bits must name a positive, finite,
/// nonzero number.
pub open spec fn spec_update_multiplier_check(m: MintModel, signer: Key, bits: u64) -> Option<
    TokenExtensionError,
> {
    if !spec_mint_live(m) {
        Some(TokenExtensionError::InvalidExtensionType)
    } else if m.scaled_ui is None {
        Some(TokenExtensionError::InvalidExtensionType)
    } else if m.scaled_ui->Some_0.authority != Some(signer) {
        Some(TokenExtensionError::InvalidAuthority)
    } else if !spec_multiplier_bits_valid(bits) {
        Some(TokenExtensionError::InvalidUiAmountMultiplier)
    } else {
        None
    }
}

/// Records a new presentation multiplier, as binary64 bits; the instruction
/// that carries it is built by the ledger-facing layer, whose encoder takes
/// the multiplier as a floating-point number together with the effective
/// timestamp.
pub fn update_ui_amount_multiplier(
    m: &mut MintModel,
    signer: Key,
    multiplier_bits: u64,
    _effective_timestamp: Option<i64>,
) -> (r: Result<(), TokenExtensionError>)
    requires
        old(m).wf(),
    ensures
        final(m).wf(),
        r is Err <==> spec_update_multiplier_check(*old(m), signer, multiplier_bits) is Some,
        r matches Err(e) ==> *final(m) == *old(m) && spec_update_multiplier_check(
            *old(m),
            signer,
            multiplier_bits,
        ) == Some(e),
        r is Ok ==> (old(m).scaled_ui matches Some(s) && *final(m) == (MintModel {
            scaled_ui: Some(ScaledUiExt { authority: s.authority, multiplier_bits }),
            ..*old(m)
        })),
{
    if !m.base_initialized || m.closed {
        return Err(TokenExtensionError::InvalidExtensionType);
    }
    let sa = match &m.scaled_ui {
        Some(s) => s.authority,
        None => { return Err(TokenExtensionError::InvalidExtensionType) },
    };
    let ok = match sa {
        Some(a) => a == signer,
        None => false,
    };
    if !ok {
        return Err(TokenExtensionError::InvalidAuthority);
    }
    if !crate::fees::multiplier_bits_valid(multiplier_bits) {
        return Err(TokenExtensionError::InvalidUiAmountMultiplier);
    }
    m.scaled_ui = Some(ScaledUiExt { authority: sa, multiplier_bits });
    Ok(())
}

/// Rules for a group resize: the mint must be live with the group block,
/// its update authority must sign, and the new bound may not fall under the
/// members already admitted.
pub open spec fn spec_update_group_max_size_check(m: MintModel, signer: Key, max_size: u32) -> Option<
    TokenExtensionError,
> {
    if !spec_mint_live(m) {
        Some(TokenExtensionError::InvalidExtensionType)
    } else if m.group is None {
        Some(TokenExtensionError::InvalidGroupConfig)
    } else if m.group->Some_0.update_authority != Some(signer) {
        Some(TokenExtensionError::InvalidAuthority)
    } else if max_size < m.group->Some_0.size {
        Some(TokenExtensionError::GroupSizeLimitExceeded)
    } else {
        None
    }
}

/// Changes the member bound of a token group.
pub fn update_group_max_size(m: &mut MintModel, group_key: Key, signer: Key, max_size: u32) -> (r:
    Result<Instruction, TokenExtensionError>)
    requires
        old(m).wf(),
    ensures
        final(m).wf(),
        r is Err <==> spec_update_group_max_size_check(*old(m), signer, max_size) is Some,
        r matches Err(e) ==> *final(m) == *old(m) && spec_update_group_max_size_check(
            *old(m),
            signer,
            max_size,
        ) == Some(e),
        r matches Ok(instr) ==> (old(m).group matches Some(g) && *final(m) == (MintModel {
            group: Some(GroupExt { update_authority: g.update_authority, size: g.size, max_size }),
            ..*old(m)
        })) && instr == trusted::update_group_max_size_instr(group_key, signer, max_size),
{
    if !m.base_initialized || m.closed {
        return Err(TokenExtensionError::InvalidExtensionType);
    }
    let g = match &m.group {
        Some(g) => *g,
        None => { return Err(TokenExtensionError::InvalidGroupConfig) },
    };
    let ok = match g.update_authority {
        Some(a) => a == signer,
        None => false,
    };
    if !ok {
        return Err(TokenExtensionError::InvalidAuthority);
    }
    if max_size < g.size {
        return Err(TokenExtensionError::GroupSizeLimitExceeded);
    }
    m.group = Some(GroupExt { update_authority: g.update_authority, size: g.size, max_size });
    Ok(trusted::build_update_group_max_size(&group_key, &signer, max_size))
}

/// Rules for closing a mint: only a live mint carrying the close-authority
/// block, whose recorded authority signs, and whose supply is zero.
pub open spec fn spec_close_mint_check(m: MintModel, signer: Key) -> Option<TokenExtensionError> {
    if !spec_mint_live(m) {
        Some(TokenExtensionError::InvalidExtensionType)
    } else if m.close_authority_ext is None {
        Some(TokenExtensionError::InvalidCloseAuthority)
    } else if m.close_authority_ext->Some_0.authority != Some(signer) {
        Some(TokenExtensionError::InvalidCloseAuthority)
    } else if m.supply != 0 {
        Some(TokenExtensionError::MintSupplyNotZero)
    } else {
        None
    }
}

/// Closes a mint, reclaiming its balance to the destination account; the
/// terminal state of the mint's lifecycle.
pub fn close_mint(m: &mut MintModel, mint_key: Key, destination: Key, signer: Key) -> (r: Result<
    Instruction,
    TokenExtensionError,
>)
    requires
        old(m).wf(),
    ensures
        final(m).wf(),
        r is Err <==> spec_close_mint_check(*old(m), signer) is Some,
        r matches Err(e) ==> *final(m) == *old(m) && spec_close_mint_check(*old(m), signer)
            == Some(e),
        r matches Ok(instr) ==> *final(m) == (MintModel { closed: true, ..*old(m) }) && instr
            == trusted::close_account_instr(mint_key, destination, signer),
{
    if !m.base_initialized || m.closed {
        return Err(TokenExtensionError::InvalidExtensionType);
    }
    let ca = match &m.close_authority_ext {
        Some(c) => c.authority,
        None => { return Err(TokenExtensionError::InvalidCloseAuthority) },
    };
    let ok = match ca {
        Some(a) => a == signer,
        None => false,
    };
    if !ok {
        return Err(TokenExtensionError::InvalidCloseAuthority);
    }
    if m.supply != 0 {
        return Err(TokenExtensionError::MintSupplyNotZero);
    }
    m.closed = true;
    Ok(trusted::build_close_account(&mint_key, &destination, &signer))
}

/// Rules for toggling the required-memo or CPI-guard block on a live token
/// account: the owner must sign, and a block not yet present must fit the
/// account's space.
pub open spec fn spec_toggle_check(
    t: TokenModel,
    signer: Key,
    k: ExtensionKind,
    present: bool,
) -> Option<TokenExtensionError> {
    if !spec_token_live(t) {
        Some(TokenExtensionError::InvalidExtensionType)
    } else if t.owner != signer {
        Some(TokenExtensionError::InvalidAuthority)
    } else if !present && spec_required_space(RecordKind::TokenAccount, t.init_order@.push(k))
        > t.space {
        Some(TokenExtensionError::InvalidExtensionType)
    } else {
        None
    }
}

/// Demands memos on incoming transfers to this account, writing the memo
/// block if the account does not carry it yet.
pub fn enable_required_memo_transfers(t: &mut TokenModel, account_key: Key, signer: Key) -> (r:
    Result<Instruction, TokenExtensionError>)
    requires
        old(t).wf(),
    ensures
        final(t).wf(),
        r is Err <==> spec_toggle_check(
            *old(t),
            signer,
            ExtensionKind::RequiredMemo,
            old(t).required_memo is Some,
        ) is Some,
        r matches Err(e) ==> *final(t) == *old(t) && spec_toggle_check(
            *old(t),
            signer,
            ExtensionKind::RequiredMemo,
            old(t).required_memo is Some,
        ) == Some(e),
        r is Ok ==> final(t).required_memo == Some(MemoExt { require_incoming: true })
            && (TokenModel { required_memo: old(t).required_memo, init_order: old(t).init_order, ..*final(t) })
            == *old(t),
        r is Ok && old(t).required_memo is Some ==> final(t).init_order@ == old(t).init_order@,
        r is Ok && old(t).required_memo is None ==> final(t).init_order@ == old(t).init_order@.push(
            ExtensionKind::RequiredMemo,
        ),
        r matches Ok(instr) ==> instr == trusted::enable_memo_instr(account_key, signer),
{
    if !t.base_initialized || t.closed {
        return Err(TokenExtensionError::InvalidExtensionType);
    }
    if !(t.owner == signer) {
        return Err(TokenExtensionError::InvalidAuthority);
    }
    if t.required_memo.is_none() {
        proof {
            lemma_push_no_duplicates(t.init_order@, ExtensionKind::RequiredMemo);
        }
        let needed = crate::kinds::required_space_with(
            RecordKind::TokenAccount,
            &t.init_order,
            ExtensionKind::RequiredMemo,
        );
        if needed > t.space {
            return Err(TokenExtensionError::InvalidExtensionType);
        }
        proof {
            lemma_push_contains(t.init_order@, ExtensionKind::RequiredMemo);
        }
        t.init_order.push(ExtensionKind::RequiredMemo);
    }
    t.required_memo = Some(MemoExt { require_incoming: true });
    Ok(trusted::build_enable_memo(&account_key, &signer))
}

/// Stops demanding memos on incoming transfers, writing the memo block if
/// the account does not carry it yet.
pub fn disable_required_memo_transfers(t: &mut TokenModel, account_key: Key, signer: Key) -> (r:
    Result<Instruction, TokenExtensionError>)
    requires
        old(t).wf(),
    ensures
        final(t).wf(),
        r is Err <==> spec_toggle_check(
            *old(t),
            signer,
            ExtensionKind::RequiredMemo,
            old(t).required_memo is Some,
        ) is Some,
        r matches Err(e) ==> *final(t) == *old(t) && spec_toggle_check(
            *old(t),
            signer,
            ExtensionKind::RequiredMemo,
            old(t).required_memo is Some,
        ) == Some(e),
        r is Ok ==> final(t).required_memo == Some(MemoExt { require_incoming: false })
            && (TokenModel { required_memo: old(t).required_memo, init_order: old(t).init_order, ..*final(t) })
            == *old(t),
        r is Ok && old(t).required_memo is Some ==> final(t).init_order@ == old(t).init_order@,
        r is Ok && old(t).required_memo is None ==> final(t).init_order@ == old(t).init_order@.push(
            ExtensionKind::RequiredMemo,
        ),
        r matches Ok(instr) ==> instr == trusted::disable_memo_instr(account_key, signer),
{
    if !t.base_initialized || t.closed {
        return Err(TokenExtensionError::InvalidExtensionType);
    }
    if !(t.owner == signer) {
        return Err(TokenExtensionError::InvalidAuthority);
    }
    if t.required_memo.is_none() {
        proof {
            lemma_push_no_duplicates(t.init_order@, ExtensionKind::RequiredMemo);
        }
        let needed = crate::kinds::required_space_with(
            RecordKind::TokenAccount,
            &t.init_order,
            ExtensionKind::RequiredMemo,
        );
        if needed > t.space {
            return Err(TokenExtensionError::InvalidExtensionType);
        }
        proof {
            lemma_push_contains(t.init_order@, ExtensionKind::RequiredMemo);
        }
        t.init_order.push(ExtensionKind::RequiredMemo);
    }
    t.required_memo = Some(MemoExt { require_incoming: false });
    Ok(trusted::build_disable_memo(&account_key, &signer))
}

/// Forbids ledger-program-invoked movement of this account's funds, writing
/// the guard block if the account does not carry it yet.
pub fn enable_cpi_guard(t: &mut TokenModel, account_key: Key, signer: Key) -> (r: Result<
    Instruction,
    TokenExtensionError,
>)
    requires
        old(t).wf(),
    ensures
        final(t).wf(),
        r is Err <==> spec_toggle_check(
            *old(t),
            signer,
            ExtensionKind::CpiGuard,
            old(t).cpi_guard is Some,
        ) is Some,
        r matches Err(e) ==> *final(t) == *old(t) && spec_toggle_check(
            *old(t),
            signer,
            ExtensionKind::CpiGuard,
            old(t).cpi_guard is Some,
        ) == Some(e),
        r is Ok ==> final(t).cpi_guard == Some(CpiGuardExt { enabled: true }) && (TokenModel {
            cpi_guard: old(t).cpi_guard,
            init_order: old(t).init_order,
            ..*final(t)
        }) == *old(t),
        r is Ok && old(t).cpi_guard is Some ==> final(t).init_order@ == old(t).init_order@,
        r is Ok && old(t).cpi_guard is None ==> final(t).init_order@ == old(t).init_order@.push(
            ExtensionKind::CpiGuard,
        ),
        r matches Ok(instr) ==> instr == trusted::enable_cpi_guard_instr(account_key, signer),
{
    if !t.base_initialized || t.closed {
        return Err(TokenExtensionError::InvalidExtensionType);
    }
    if !(t.owner == signer) {
        return Err(TokenExtensionError::InvalidAuthority);
    }
    if t.cpi_guard.is_none() {
        proof {
            lemma_push_no_duplicates(t.init_order@, ExtensionKind::CpiGuard);
        }
        let needed = crate::kinds::required_space_with(
            RecordKind::TokenAccount,
            &t.init_order,
            ExtensionKind::CpiGuard,
        );
        if needed > t.space {
            return Err(TokenExtensionError::InvalidExtensionType);
        }
        proof {
            lemma_push_contains(t.init_order@, ExtensionKind::CpiGuard);
        }
        t.init_order.push(ExtensionKind::CpiGuard);
    }
    t.cpi_guard = Some(CpiGuardExt { enabled: true });
    Ok(trusted::build_enable_cpi_guard(&account_key, &signer))
}

/// Lifts the CPI guard, writing the guard block if the account does not
/// carry it yet.
pub fn disable_cpi_guard(t: &mut TokenModel, account_key: Key, signer: Key) -> (r: Result<
    Instruction,
    TokenExtensionError,
>)
    requires
        old(t).wf(),
    ensures
        final(t).wf(),
        r is Err <==> spec_toggle_check(
            *old(t),
            signer,
            ExtensionKind::CpiGuard,
            old(t).cpi_guard is Some,
        ) is Some,
        r matches Err(e) ==> *final(t) == *old(t) && spec_toggle_check(
            *old(t),
            signer,
            ExtensionKind::CpiGuard,
            old(t).cpi_guard is Some,
        ) == Some(e),
        r is Ok ==> final(t).cpi_guard == Some(CpiGuardExt { enabled: false }) && (TokenModel {
            cpi_guard: old(t).cpi_guard,
            init_order: old(t).init_order,
            ..*final(t)
        }) == *old(t),
        r is Ok && old(t).cpi_guard is Some ==> final(t).init_order@ == old(t).init_order@,
        r is Ok && old(t).cpi_guard is None ==> final(t).init_order@ == old(t).init_order@.push(
            ExtensionKind::CpiGuard,
        ),
        r matches Ok(instr) ==> instr == trusted::disable_cpi_guard_instr(account_key, signer),
{
    if !t.base_initialized || t.closed {
        return Err(TokenExtensionError::InvalidExtensionType);
    }
    if !(t.owner == signer) {
        return Err(TokenExtensionError::InvalidAuthority);
    }
    if t.cpi_guard.is_none() {
        proof {
            lemma_push_no_duplicates(t.init_order@, ExtensionKind::CpiGuard);
        }
        let needed = crate::kinds::required_space_with(
            RecordKind::TokenAccount,
            &t.init_order,
            ExtensionKind::CpiGuard,
        );
        if needed > t.space {
            return Err(TokenExtensionError::InvalidExtensionType);
        }
        proof {
            lemma_push_contains(t.init_order@, ExtensionKind::CpiGuard);
        }
        t.init_order.push(ExtensionKind::CpiGuard);
    }
    t.cpi_guard = Some(CpiGuardExt { enabled: false });
    Ok(trusted::build_disable_cpi_guard(&account_key, &signer))
}

/// Index of the first additional-metadata entry named `f`, or minus one.
pub open spec fn spec_find_field(s: Seq<MetadataField>, f: Seq<char>) -> int
    decreases s.len(),
{
    if s.len() == 0 {
        -1
    } else if s[0].name@ == f {
        0
    } else {
        let r = spec_find_field(s.drop_first(), f);
        if r == -1 {
            -1
        } else {
            r + 1
        }
    }
}

pub proof fn lemma_find_field_none(s: Seq<MetadataField>, f: Seq<char>)
    requires
        forall|j: int| 0 <= j < s.len() ==> (#[trigger] s[j]).name@ != f,
    ensures
        spec_find_field(s, f) == -1,
    decreases s.len(),
{
    if s.len() > 0 {
        assert(s[0].name@ != f);
        assert(forall|j: int|
            0 <= j < s.drop_first().len() ==> (#[trigger] s.drop_first()[j]).name@ != f);
        lemma_find_field_none(s.drop_first(), f);
    }
}

pub proof fn lemma_find_field_at(s: Seq<MetadataField>, f: Seq<char>, i: int)
    requires
        0 <= i < s.len(),
        s[i].name@ == f,
        forall|j: int| 0 <= j < i ==> (#[trigger] s[j]).name@ != f,
    ensures
        spec_find_field(s, f) == i,
    decreases s.len(),
{
    if i == 0 {
    } else {
        assert(s[0].name@ != f);
        assert(s.drop_first()[i - 1].name@ == f);
        assert(forall|j: int|
            0 <= j < i - 1 ==> (#[trigger] s.drop_first()[j]).name@ != f);
        lemma_find_field_at(s.drop_first(), f, i - 1);
    }
}

/// Relation between the additional-metadata list before and after setting
/// field `f` to `v`: the first entry named `f` is overwritten, or a new
/// entry is appended; every other entry keeps its place and content.
pub open spec fn spec_field_updated(
    pre: Seq<MetadataField>,
    post: Seq<MetadataField>,
    f: Seq<char>,
    v: Seq<char>,
) -> bool {
    let i = spec_find_field(pre, f);
    if i == -1 {
        &&& post.len() == pre.len() + 1
        &&& forall|j: int| 0 <= j < pre.len() ==> post[j] == pre[j]
        &&& post[pre.len() as int].name@ == f
        &&& post[pre.len() as int].value@ == v
    } else {
        &&& post.len() == pre.len()
        &&& forall|j: int| 0 <= j < pre.len() && j != i ==> post[j] == pre[j]
        &&& post[i].name@ == f
        &&& post[i].value@ == v
    }
}

/// Finds the first additional-metadata entry named `field`.
fn find_field(list: &Vec<MetadataField>, field: &String) -> (r: Option<usize>)
    ensures
        r matches Some(i) ==> i < list@.len() && spec_find_field(list@, field@) == i,
        r is None ==> spec_find_field(list@, field@) == -1,
{
    let mut i: usize = 0;
    while i < list.len()
        invariant
            i <= list@.len(),
            forall|j: int| 0 <= j < i ==> (#[trigger] list@[j]).name@ != field@,
        decreases list@.len() - i,
    {
        if list[i].name == *field {
            proof {
                lemma_find_field_at(list@, field@, i as int);
            }
            return Some(i);
        }
        i = i + 1;
    }
    proof {
        lemma_find_field_none(list@, field@);
    }
    None
}

/// Rules for a metadata field update: the mint must be live and carry the
/// metadata block, and the block's update authority must sign.
pub open spec fn spec_update_metadata_check(m: MintModel, signer: Key) -> Option<
    TokenExtensionError,
> {
    if !spec_mint_live(m) {
        Some(TokenExtensionError::InvalidExtensionType)
    } else if m.metadata is None {
        Some(TokenExtensionError::InvalidMetadata)
    } else if m.metadata->Some_0.update_authority != signer {
        Some(TokenExtensionError::InvalidAuthority)
    } else {
        None
    }
}

/// Sets one additional-metadata field of the mint's metadata block to the
/// given value, overwriting the first entry of that name or appending one;
/// the block's named fields and everything else on the mint stay untouched.
pub fn update_metadata_field(
    m: &mut MintModel,
    mint_key: Key,
    signer: Key,
    field: String,
    value: String,
) -> (r: Result<Instruction, TokenExtensionError>)
    requires
        old(m).wf(),
    ensures
        final(m).wf(),
        r is Err <==> spec_update_metadata_check(*old(m), signer) is Some,
        r matches Err(e) ==> *final(m) == *old(m) && spec_update_metadata_check(*old(m), signer)
            == Some(e),
        r is Ok ==> (old(m).metadata matches Some(md_old) && final(m).metadata matches Some(md_new)
            && md_new.update_authority == md_old.update_authority && md_new.name == md_old.name
            && md_new.symbol == md_old.symbol && md_new.uri == md_old.uri && spec_field_updated(
            md_old.additional@,
            md_new.additional@,
            field@,
            value@,
        ) && *final(m) == (MintModel { metadata: final(m).metadata, ..*old(m) })),
        r matches Ok(instr) ==> instr == trusted::update_metadata_field_instr(
            mint_key,
            signer,
            field@,
            value@,
        ),
{
    if !m.base_initialized || m.closed {
        return Err(TokenExtensionError::InvalidExtensionType);
    }
    let found: Option<usize> = match &m.metadata {
        None => { return Err(TokenExtensionError::InvalidMetadata) },
        Some(md) => {
            if !(md.update_authority == signer) {
                return Err(TokenExtensionError::InvalidAuthority);
            }
            find_field(&md.additional, &field)
        },
    };
    let instr = trusted::build_update_metadata_field(&mint_key, &signer, &field, &value);
    let ghost pre = m.metadata->Some_0.additional@;
    match &mut m.metadata {
        None => {
            proof {
                assert(false);
            }
            Err(TokenExtensionError::InvalidMetadata)
        },
        Some(md) => {
            match found {
                Some(i) => {
                    md.additional.remove(i);
                    md.additional.insert(i, MetadataField { name: field, value });
                    proof {
                        assert(md.additional@ =~= pre.update(i as int, md.additional@[i as int]));
                    }
                },
                None => {
                    md.additional.push(MetadataField { name: field, value });
                },
            }
            Ok(instr)
        },
    }
}

/// Rules for a fee transfer, in the order the dispatcher tests them: the
/// mint must be live and carry the fee schedule, its tokens transferable
/// and not paused, both accounts live and unfrozen, the destination's memo
/// demand met, the source's owner signing with no CPI guard in the way, the
/// caller-declared fee exactly the scheduled one, and the source funded.
pub open spec fn spec_transfer_check(
    mint: MintModel,
    source: TokenModel,
    dest: TokenModel,
    signer: Key,
    amount: u64,
    expected_fee: u64,
    memo_provided: bool,
) -> Option<TokenExtensionError> {
    if !spec_mint_live(mint) {
        Some(TokenExtensionError::InvalidExtensionType)
    } else if mint.transfer_fee is None {
        Some(TokenExtensionError::InvalidTransferFeeConfig)
    } else if mint.spec_has(ExtensionKind::NonTransferable) {
        Some(TokenExtensionError::NonTransferableToken)
    } else if mint.pausable matches Some(p) && p.paused {
        Some(TokenExtensionError::MintPaused)
    } else if !spec_token_live(source) || !spec_token_live(dest) {
        Some(TokenExtensionError::InvalidExtensionType)
    } else if source.frozen || dest.frozen {
        Some(TokenExtensionError::AccountFrozen)
    } else if dest.required_memo matches Some(memo) && memo.require_incoming && !memo_provided {
        Some(TokenExtensionError::MemoRequiredForTransfer)
    } else if source.owner != signer {
        Some(TokenExtensionError::InvalidAuthority)
    } else if source.cpi_guard matches Some(g) && g.enabled {
        Some(TokenExtensionError::CpiGuardEnabled)
    } else if expected_fee != spec_transfer_fee(
        amount,
        mint.transfer_fee->Some_0.basis_points,
        mint.transfer_fee->Some_0.maximum_fee,
    ) {
        Some(TokenExtensionError::TransferFeeCalculationError)
    } else if source.amount < amount {
        Some(TokenExtensionError::InsufficientFundsForFee)
    } else {
        None
    }
}

/// Transfers `amount` base units from source to destination under the
/// mint's fee schedule: the caller must declare the exact fee, which is
/// withheld on the destination account out of the transferred amount.
pub fn transfer_with_fee(
    mint: &MintModel,
    mint_key: Key,
    source: &mut TokenModel,
    source_key: Key,
    dest: &mut TokenModel,
    dest_key: Key,
    signer: Key,
    amount: u64,
    expected_fee: u64,
    memo_provided: bool,
) -> (r: Result<Instruction, TokenExtensionError>)
    requires
        mint.wf(),
        old(source).wf(),
        old(dest).wf(),
        old(dest).amount + amount <= u64::MAX,
        old(dest).withheld + amount <= u64::MAX,
    ensures
        final(source).wf(),
        final(dest).wf(),
        r is Err <==> spec_transfer_check(
            *mint,
            *old(source),
            *old(dest),
            signer,
            amount,
            expected_fee,
            memo_provided,
        ) is Some,
        r matches Err(e) ==> *final(source) == *old(source) && *final(dest) == *old(dest)
            && spec_transfer_check(
            *mint,
            *old(source),
            *old(dest),
            signer,
            amount,
            expected_fee,
            memo_provided,
        ) == Some(e),
        r is Ok ==> *final(source) == (TokenModel {
            amount: (old(source).amount - amount) as u64,
            ..*old(source)
        }) && *final(dest) == (TokenModel {
            amount: (old(dest).amount + amount - expected_fee) as u64,
            withheld: (old(dest).withheld + expected_fee) as u64,
            ..*old(dest)
        }),
        r matches Ok(instr) ==> instr == trusted::transfer_with_fee_instr(
            source_key,
            mint_key,
            dest_key,
            signer,
            amount,
            mint.decimals,
            expected_fee,
        ),
{
    if !mint.base_initialized || mint.closed {
        return Err(TokenExtensionError::InvalidExtensionType);
    }
    let fee_cfg = match &mint.transfer_fee {
        Some(f) => *f,
        None => { return Err(TokenExtensionError::InvalidTransferFeeConfig) },
    };
    if mint.has_ext(ExtensionKind::NonTransferable) {
        return Err(TokenExtensionError::NonTransferableToken);
    }
    match &mint.pausable {
        Some(p) => {
            if p.paused {
                return Err(TokenExtensionError::MintPaused);
            }
        },
        None => {},
    }
    if !source.base_initialized || source.closed || !dest.base_initialized || dest.closed {
        return Err(TokenExtensionError::InvalidExtensionType);
    }
    if source.frozen || dest.frozen {
        return Err(TokenExtensionError::AccountFrozen);
    }
    match &dest.required_memo {
        Some(memo) => {
            if memo.require_incoming && !memo_provided {
                return Err(TokenExtensionError::MemoRequiredForTransfer);
            }
        },
        None => {},
    }
    if !(source.owner == signer) {
        return Err(TokenExtensionError::InvalidAuthority);
    }
    match &source.cpi_guard {
        Some(g) => {
            if g.enabled {
                return Err(TokenExtensionError::CpiGuardEnabled);
            }
        },
        None => {},
    }
    let fee = crate::fees::transfer_fee(amount, fee_cfg.basis_points, fee_cfg.maximum_fee);
    if expected_fee != fee {
        return Err(TokenExtensionError::TransferFeeCalculationError);
    }
    if source.amount < amount {
        return Err(TokenExtensionError::InsufficientFundsForFee);
    }
    proof {
        lemma_fee_le_amount(amount, fee_cfg.basis_points, fee_cfg.maximum_fee);
    }
    source.amount = source.amount - amount;
    dest.amount = dest.amount + (amount - fee);
    dest.withheld = dest.withheld + fee;
    Ok(
        trusted::build_transfer_with_fee(
            &source_key,
            &mint_key,
            &dest_key,
            &signer,
            amount,
            mint.decimals,
            fee,
        ),
    )
}

/// Rules for withdrawing withheld fees: the mint must be live, carry the
/// fee schedule with a withdraw authority, and that authority must sign;
/// both token accounts must be live.
pub open spec fn spec_withdraw_check(
    mint: MintModel,
    source: TokenModel,
    dest: TokenModel,
    signer: Key,
) -> Option<TokenExtensionError> {
    if !spec_mint_live(mint) {
        Some(TokenExtensionError::InvalidExtensionType)
    } else if mint.transfer_fee is None {
        Some(TokenExtensionError::InvalidTransferFeeConfig)
    } else if mint.transfer_fee->Some_0.withdraw_authority != Some(signer) {
        Some(TokenExtensionError::InvalidAuthority)
    } else if !spec_token_live(source) || !spec_token_live(dest) {
        Some(TokenExtensionError::InvalidExtensionType)
    } else {
        None
    }
}

/// Moves the fees withheld on the source account into the destination's
/// balance; only the mint's withdraw-withheld authority may do so.
pub fn withdraw_withheld_tokens(
    mint: &MintModel,
    mint_key: Key,
    source: &mut TokenModel,
    source_key: Key,
    dest: &mut TokenModel,
    dest_key: Key,
    signer: Key,
) -> (r: Result<Instruction, TokenExtensionError>)
    requires
        mint.wf(),
        old(source).wf(),
        old(dest).wf(),
        old(dest).amount + old(source).withheld <= u64::MAX,
    ensures
        final(source).wf(),
        final(dest).wf(),
        r is Err <==> spec_withdraw_check(*mint, *old(source), *old(dest), signer) is Some,
        r matches Err(e) ==> *final(source) == *old(source) && *final(dest) == *old(dest)
            && spec_withdraw_check(*mint, *old(source), *old(dest), signer) == Some(e),
        r is Ok ==> *final(source) == (TokenModel { withheld: 0, ..*old(source) }) && *final(dest)
            == (TokenModel {
            amount: (old(dest).amount + old(source).withheld) as u64,
            ..*old(dest)
        }),
        r matches Ok(instr) ==> instr == trusted::withdraw_withheld_instr(
            mint_key,
            dest_key,
            signer,
            source_key,
        ),
{
    if !mint.base_initialized || mint.closed {
        return Err(TokenExtensionError::InvalidExtensionType);
    }
    let fee_cfg = match &mint.transfer_fee {
        Some(f) => *f,
        None => { return Err(TokenExtensionError::InvalidTransferFeeConfig) },
    };
    let ok = match fee_cfg.withdraw_authority {
        Some(a) => a == signer,
        None => false,
    };
    if !ok {
        return Err(TokenExtensionError::InvalidAuthority);
    }
    if !source.base_initialized || source.closed || !dest.base_initialized || dest.closed {
        return Err(TokenExtensionError::InvalidExtensionType);
    }
    dest.amount = dest.amount + source.withheld;
    source.withheld = 0;
    Ok(trusted::build_withdraw_withheld(&mint_key, &dest_key, &signer, &source_key))
}

/// Rules for admitting a member mint into a group, in dispatch order: the
/// member must be live, not yet a member, carrying the member pointer, with
/// room for the member block; the group must be live with the group block;
/// its update authority must sign; and the group must not be full.
pub open spec fn spec_join_check(member: MintModel, group: MintModel, signer: Key) -> Option<
    TokenExtensionError,
> {
    if !spec_mint_live(member) {
        Some(TokenExtensionError::InvalidMemberConfig)
    } else if member.spec_has(ExtensionKind::GroupMember) {
        Some(TokenExtensionError::ExtensionAlreadyInitialized)
    } else if !member.spec_has(ExtensionKind::GroupMemberPointer) {
        Some(TokenExtensionError::InvalidMemberConfig)
    } else if spec_required_space(
        RecordKind::Mint,
        member.init_order@.push(ExtensionKind::GroupMember),
    ) > member.space {
        Some(TokenExtensionError::InvalidMemberConfig)
    } else if !spec_mint_live(group) || group.group is None {
        Some(TokenExtensionError::InvalidGroupConfig)
    } else if group.group->Some_0.update_authority != Some(signer) {
        Some(TokenExtensionError::InvalidAuthority)
    } else if group.group->Some_0.size >= group.group->Some_0.max_size {
        Some(TokenExtensionError::GroupSizeLimitExceeded)
    } else {
        None
    }
}

/// Admits a member mint into a group: the group's size grows by one and the
/// member receives that size as its member number, recorded in its
/// group-member block.
pub fn join_group(
    member: &mut MintModel,
    group: &mut MintModel,
    group_key: Key,
    signer: Key,
) -> (r: Result<u32, TokenExtensionError>)
    requires
        old(member).wf(),
        old(group).wf(),
    ensures
        final(member).wf(),
        final(group).wf(),
        r is Err <==> spec_join_check(*old(member), *old(group), signer) is Some,
        r matches Err(e) ==> *final(member) == *old(member) && *final(group) == *old(group)
            && spec_join_check(*old(member), *old(group), signer) == Some(e),
        r matches Ok(n) ==> (old(group).group matches Some(g) && n == g.size + 1 && *final(group)
            == (MintModel {
            group: Some(
                GroupExt {
                    update_authority: g.update_authority,
                    size: (g.size + 1) as u32,
                    max_size: g.max_size,
                },
            ),
            ..*old(group)
        }) && final(member).member == Some(MemberExt { group: group_key, member_number: n })
            && final(member).init_order@ == old(member).init_order@.push(ExtensionKind::GroupMember)
            && (MintModel { member: old(member).member, init_order: old(member).init_order, ..*final(member) })
            == *old(member)),
{
    if !member.base_initialized || member.closed {
        return Err(TokenExtensionError::InvalidMemberConfig);
    }
    if member.has_ext(ExtensionKind::GroupMember) {
        return Err(TokenExtensionError::ExtensionAlreadyInitialized);
    }
    if !member.has_ext(ExtensionKind::GroupMemberPointer) {
        return Err(TokenExtensionError::InvalidMemberConfig);
    }
    proof {
        lemma_push_no_duplicates(member.init_order@, ExtensionKind::GroupMember);
    }
    let needed = crate::kinds::required_space_with(
        RecordKind::Mint,
        &member.init_order,
        ExtensionKind::GroupMember,
    );
    if needed > member.space {
        return Err(TokenExtensionError::InvalidMemberConfig);
    }
    if !group.base_initialized || group.closed {
        return Err(TokenExtensionError::InvalidGroupConfig);
    }
    let g = match &group.group {
        Some(g) => *g,
        None => { return Err(TokenExtensionError::InvalidGroupConfig) },
    };
    let ok = match g.update_authority {
        Some(a) => a == signer,
        None => false,
    };
    if !ok {
        return Err(TokenExtensionError::InvalidAuthority);
    }
    if g.size >= g.max_size {
        return Err(TokenExtensionError::GroupSizeLimitExceeded);
    }
    let n = g.size + 1;
    group.group = Some(GroupExt { update_authority: g.update_authority, size: n, max_size: g.max_size });
    proof {
        lemma_push_contains(member.init_order@, ExtensionKind::GroupMember);
    }
    member.member = Some(MemberExt { group: group_key, member_number: n });
    member.init_order.push(ExtensionKind::GroupMember);
    Ok(n)
}

} // verus!
