//! The protocol laws, stated over the same spec functions the operations'
//! contracts use. The operations' own `ensures` add that every failing call
//! leaves its account unchanged, so each law's error case is also a
//! no-change case.

use vstd::prelude::*;

use crate::errors::TokenExtensionError;
use crate::keys::Key;
use crate::kinds::lemma_tlv_sum_bounds;
use crate::kinds::spec_required_space;
use crate::kinds::ExtensionKind;
use crate::kinds::InitPosition;
use crate::kinds::RecordKind;
use crate::kinds::MINT_BASE_LEN;
use crate::mint_model::lemma_push_contains;
use crate::mint_model::spec_base_init_check;
use crate::mint_model::spec_cfg_error;
use crate::mint_model::spec_domain_error;
use crate::mint_model::spec_init_check;
use crate::mint_model::spec_init_post;
use crate::mint_model::MintExtParams;
use crate::mint_model::MintModel;
use crate::ops::spec_close_mint_check;
use crate::ops::spec_join_check;
use crate::ops::spec_mint_live;
use crate::ops::spec_pause_check;
use crate::ops::spec_update_default_state_check;
use crate::ops::spec_update_group_max_size_check;
use crate::ops::spec_update_metadata_check;
use crate::ops::spec_update_multiplier_check;
use crate::ops::spec_update_rate_check;
use crate::ops::spec_withdraw_check;
use crate::token_model::TokenModel;

verus! {

/// An account sized for at least one extension is strictly longer than the
/// bare mint record.
pub proof fn lemma_extended_space_exceeds_base(kinds: Seq<ExtensionKind>)
    requires
        kinds.len() > 0,
    ensures
        spec_required_space(RecordKind::Mint, kinds) > MINT_BASE_LEN,
{
    lemma_tlv_sum_bounds(kinds);
}

/// Sizing law, first half: on a freshly provisioned account of `space`
/// bytes, with `space` at most the planned size of the one requested
/// pre-base extension, that extension's initializer succeeds exactly when
/// `space` is the planned size.
pub proof fn lemma_single_extension_size(m: MintModel, p: MintExtParams, space: u64)
    requires
        m.wf(),
        m.spec_is_provisioned(space),
        p.spec_kind().spec_position() is PreBase,
        spec_domain_error(p) is None,
        space <= spec_required_space(RecordKind::Mint, seq![p.spec_kind()]),
    ensures
        spec_init_check(m, p) is None <==> space == spec_required_space(
            RecordKind::Mint,
            seq![p.spec_kind()],
        ),
        space < spec_required_space(RecordKind::Mint, seq![p.spec_kind()]) ==> spec_init_check(
            m,
            p,
        ) == Some(spec_cfg_error(p.spec_kind())),
{
    let k = p.spec_kind();
    assert(k.spec_sized());
    assert(!m.spec_has(k));
    assert(m.init_order@.push(k) =~= seq![k]);
}

/// Sizing law, second half: once the one planned extension is in place on
/// an exactly-sized account, the base-record initializer succeeds; the
/// creation sequence as a whole therefore goes through at the planned size
/// and at no smaller one.
pub proof fn lemma_single_extension_then_base(m: MintModel, m2: MintModel, p: MintExtParams)
    requires
        m.wf(),
        m.spec_is_provisioned(m.space),
        m.space == spec_required_space(RecordKind::Mint, seq![p.spec_kind()]),
        p.spec_kind().spec_position() is PreBase,
        spec_init_post(m, m2, p),
    ensures
        spec_base_init_check(m2) is None,
{
    assert(m2.init_order@ =~= seq![p.spec_kind()]);
    assert(m2.space == m.space);
}

/// Planner-to-model law: a three-step single-extension plan is executable —
/// on a fresh account of exactly the planned size, the planned extension
/// initializer is accepted, and the base-record initializer is accepted on
/// whatever state that first step leaves.
pub proof fn lemma_single_ext_plan_executes(
    plan: crate::plan::CreationPlan,
    payer: Key,
    mint: Key,
    mint_authority: Key,
    freeze_authority: Option<Key>,
    decimals: u8,
    lamports: u64,
    p: MintExtParams,
    m0: MintModel,
    m1: MintModel,
)
    requires
        crate::plan::spec_single_ext_plan(
            plan,
            payer,
            mint,
            mint_authority,
            freeze_authority,
            decimals,
            lamports,
            p,
        ),
        p.spec_kind().spec_position() is PreBase,
        spec_domain_error(p) is None,
        m0.wf(),
        m0.spec_is_provisioned(plan.space),
        spec_init_post(m0, m1, p),
    ensures
        spec_init_check(m0, p) is None,
        spec_base_init_check(m1) is None,
{
    lemma_single_extension_size(m0, p, plan.space);
    lemma_single_extension_then_base(m0, m1, p);
}

/// Ordering law, first half: an interface payload's initializer fails on
/// any account that does not already hold the payload's pointer extension,
/// whether or not the base record is in place.
pub proof fn lemma_payload_needs_pointer(m: MintModel, p: MintExtParams)
    requires
        m.wf(),
        p.spec_kind().spec_position() is PostBase,
        !m.spec_has(p.spec_kind().spec_pointer_kind()->Some_0),
    ensures
        spec_init_check(m, p) is Some,
{
}

/// Ordering law for group joins: a mint that does not hold the member
/// pointer cannot be admitted into any group.
pub proof fn lemma_join_needs_pointer(member: MintModel, group: MintModel, signer: Key)
    requires
        member.wf(),
        !member.spec_has(ExtensionKind::GroupMemberPointer),
    ensures
        spec_join_check(member, group, signer) is Some,
{
}

/// Ordering law, second half: on an account provisioned for extensions —
/// any size other than the bare base record's — the base-record
/// initializer fails until at least one planned extension block is written.
pub proof fn lemma_base_before_extensions_fails(m: MintModel, space: u64)
    requires
        m.wf(),
        m.spec_is_provisioned(space),
        space != MINT_BASE_LEN,
    ensures
        spec_base_init_check(m) is Some,
{
}

/// Terminal-step law: once the base record is initialized, no pre-base
/// extension block can be added to the mint any more; the base initializer
/// is always the last pre-base step of a creation.
pub proof fn lemma_no_pre_base_block_after_base(m: MintModel, p: MintExtParams)
    requires
        m.base_initialized,
        p.spec_kind().spec_position() is PreBase,
        !m.spec_has(p.spec_kind()),
    ensures
        spec_init_check(m, p) is Some,
{
}

/// Lifecycle law: a closed account takes no initializer and no mutation.
pub proof fn lemma_closed_is_terminal(m: MintModel, p: MintExtParams, signer: Key)
    requires
        m.closed,
    ensures
        spec_init_check(m, p) is Some,
        spec_base_init_check(m) is Some,
        spec_pause_check(m, signer) is Some,
        spec_close_mint_check(m, signer) is Some,
{
}

/// Once-only law: after an extension's initializer has succeeded, running
/// any initializer of the same kind on the account again fails with
/// ExtensionAlreadyInitialized; by the initializer's contract the failing
/// call leaves the first initialization's recorded state untouched.
pub proof fn lemma_reinit_fails(
    pre: MintModel,
    mid: MintModel,
    p: MintExtParams,
    q: MintExtParams,
)
    requires
        spec_init_check(pre, p) is None,
        spec_init_post(pre, mid, p),
        q.spec_kind() == p.spec_kind(),
    ensures
        spec_init_check(mid, q) == Some(TokenExtensionError::ExtensionAlreadyInitialized),
{
    lemma_push_contains(pre.init_order@, p.spec_kind());
    assert(mid.spec_has(q.spec_kind()));
    assert(!mid.closed);
}

/// Authority law for pause and resume: any signer other than the recorded
/// pause authority is rejected as InvalidAuthority.
pub proof fn lemma_pause_requires_authority(m: MintModel, signer: Key)
    requires
        spec_mint_live(m),
        m.pausable matches Some(p) && p.authority != signer,
    ensures
        spec_pause_check(m, signer) == Some(TokenExtensionError::InvalidAuthority),
{
}

/// Authority law for rate updates: any signer other than the recorded rate
/// authority is rejected as InvalidAuthority.
pub proof fn lemma_rate_update_requires_authority(m: MintModel, signer: Key)
    requires
        spec_mint_live(m),
        m.interest matches Some(i) && i.rate_authority is Some && i.rate_authority != Some(signer),
    ensures
        spec_update_rate_check(m, signer) == Some(TokenExtensionError::InvalidAuthority),
{
}

/// Authority law for metadata updates: any signer other than the recorded
/// update authority is rejected as InvalidAuthority.
pub proof fn lemma_metadata_update_requires_authority(m: MintModel, signer: Key)
    requires
        spec_mint_live(m),
        m.metadata matches Some(md) && md.update_authority != signer,
    ensures
        spec_update_metadata_check(m, signer) == Some(TokenExtensionError::InvalidAuthority),
{
}

/// Authority law for group resizes: any signer other than the recorded
/// group update authority is rejected as InvalidAuthority.
pub proof fn lemma_group_resize_requires_authority(m: MintModel, signer: Key, max_size: u32)
    requires
        spec_mint_live(m),
        m.group is Some,
        m.group->Some_0.update_authority != Some(signer),
    ensures
        spec_update_group_max_size_check(m, signer, max_size) == Some(
            TokenExtensionError::InvalidAuthority,
        ),
{
}

/// Authority law for multiplier updates: any signer other than the recorded
/// authority is rejected as InvalidAuthority.
pub proof fn lemma_multiplier_update_requires_authority(m: MintModel, signer: Key, bits: u64)
    requires
        spec_mint_live(m),
        m.scaled_ui is Some,
        m.scaled_ui->Some_0.authority != Some(signer),
    ensures
        spec_update_multiplier_check(m, signer, bits) == Some(
            TokenExtensionError::InvalidAuthority,
        ),
{
}

/// Authority law for withheld withdrawals: any signer other than the
/// recorded withdraw authority is rejected as InvalidAuthority.
pub proof fn lemma_withdraw_requires_authority(
    mint: MintModel,
    source: TokenModel,
    dest: TokenModel,
    signer: Key,
)
    requires
        spec_mint_live(mint),
        mint.transfer_fee is Some,
        mint.transfer_fee->Some_0.withdraw_authority != Some(signer),
    ensures
        spec_withdraw_check(mint, source, dest, signer) == Some(
            TokenExtensionError::InvalidAuthority,
        ),
{
}

/// Authority law for default-state updates: with an in-domain state tag,
/// any signer other than the mint's freeze authority is rejected as
/// InvalidAuthority.
pub proof fn lemma_default_state_requires_authority(m: MintModel, signer: Key, state: u8)
    requires
        spec_mint_live(m),
        state <= 2,
        m.default_state is Some,
        m.freeze_authority != Some(signer),
    ensures
        spec_update_default_state_check(m, signer, state) == Some(
            TokenExtensionError::InvalidAuthority,
        ),
{
}

/// Authority law for closing: any signer other than the recorded close
/// authority is rejected as InvalidCloseAuthority, before the supply is
/// even looked at.
pub proof fn lemma_close_requires_authority(m: MintModel, signer: Key)
    requires
        spec_mint_live(m),
        m.close_authority_ext is Some,
        m.close_authority_ext->Some_0.authority != Some(signer),
    ensures
        spec_close_mint_check(m, signer) == Some(TokenExtensionError::InvalidCloseAuthority),
{
}

/// Domain law for default-state updates: a state tag outside zero, one and
/// two is rejected as InvalidDefaultAccountState on any mint and any
/// signer; the operation's contract adds that nothing changes.
pub proof fn lemma_default_state_domain(m: MintModel, signer: Key, state: u8)
    requires
        state > 2,
    ensures
        spec_update_default_state_check(m, signer, state) == Some(
            TokenExtensionError::InvalidDefaultAccountState,
        ),
{
}

} // verus!
