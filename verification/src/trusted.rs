//! The boundary to the outside token and system crates. Every function here
//! is `external_body`: its body converts plain library values, makes exactly
//! one outside call, and its contract states what that call's source shows.
//! Instruction builders are deterministic encoders of their arguments, so
//! each one's result is named by an uninterpreted spec function.

use vstd::prelude::*;

use crate::keys::spec_opt_key_encodable;
use crate::keys::Key;
use crate::kinds::spec_required_space;
use crate::kinds::ExtensionKind;
use crate::kinds::RecordKind;

use solana_address::Address;
use solana_instruction::Instruction;

verus! {

#[verifier::external_type_specification]
#[verifier::external_body]
pub struct ExAddress(Address);

#[verifier::external_type_specification]
#[verifier::external_body]
pub struct ExInstruction(Instruction);

/// The address whose 32 bytes are the key's four words in little-endian
/// order; a pure, injective function of the key.
pub uninterp spec fn address_of(k: Key) -> Address;

/// Relies on Address::new_from_array: builds the address from the key's
/// bytes, a pure function of its argument.
#[verifier::external_body]
pub(crate) fn key_address(k: &Key) -> (r: Address)
    ensures
        r == address_of(*k),
{
    let mut b = [0u8; 32];
    b[0..8].copy_from_slice(&k.w0.to_le_bytes());
    b[8..16].copy_from_slice(&k.w1.to_le_bytes());
    b[16..24].copy_from_slice(&k.w2.to_le_bytes());
    b[24..32].copy_from_slice(&k.w3.to_le_bytes());
    Address::new_from_array(b)
}

/// The view of an optional key under `address_of`.
pub open spec fn spec_opt_address(k: Option<Key>) -> Option<Address> {
    match k {
        Some(key) => Some(address_of(key)),
        None => None,
    }
}

pub(crate) fn opt_address(k: &Option<Key>) -> (r: Option<Address>)
    ensures
        r == spec_opt_address(*k),
{
    match k {
        Some(key) => Some(key_address(key)),
        None => None,
    }
}

/// Relies on spl_token_2022 ExtensionType::try_calculate_account_len for the
/// mint base record: for a duplicate-free list of sized mint extensions it
/// returns the bare mint length when the list is empty, and otherwise the
/// extended base length plus each block with its four-byte header, stepping
/// past the multisig length.
#[verifier::external_body]
pub(crate) fn spl_mint_account_len(kinds: &Vec<ExtensionKind>) -> (r: u64)
    requires
        kinds@.no_duplicates(),
        forall|i: int|
            0 <= i < kinds@.len() ==> (#[trigger] kinds@[i]).spec_sized() && kinds@[i]
                .spec_applicable_to(RecordKind::Mint),
    ensures
        r == spec_required_space(RecordKind::Mint, kinds@),
{
    let mut v: Vec<spl_token_2022::extension::ExtensionType> = Vec::new();
    for k in kinds.iter() {
        v.push(spl_token_2022::extension::ExtensionType::try_from(k.type_code()).unwrap());
    }
    let len = spl_token_2022::extension::ExtensionType::try_calculate_account_len::<
        spl_token_2022::state::Mint,
    >(&v)
        .unwrap();
    len as u64
}

/// Relies on spl_token_2022 ExtensionType::try_calculate_account_len for the
/// token-account base record, as `spl_mint_account_len` does for the mint.
#[verifier::external_body]
pub(crate) fn spl_token_account_len(kinds: &Vec<ExtensionKind>) -> (r: u64)
    requires
        kinds@.no_duplicates(),
        forall|i: int|
            0 <= i < kinds@.len() ==> (#[trigger] kinds@[i]).spec_sized() && kinds@[i]
                .spec_applicable_to(RecordKind::TokenAccount),
    ensures
        r == spec_required_space(RecordKind::TokenAccount, kinds@),
{
    let mut v: Vec<spl_token_2022::extension::ExtensionType> = Vec::new();
    for k in kinds.iter() {
        v.push(spl_token_2022::extension::ExtensionType::try_from(k.type_code()).unwrap());
    }
    let len = spl_token_2022::extension::ExtensionType::try_calculate_account_len::<
        spl_token_2022::state::Account,
    >(&v)
        .unwrap();
    len as u64
}

pub uninterp spec fn create_account_instr(payer: Key, account: Key, lamports: u64, space: u64) -> Instruction;

/// Relies on solana_system_interface create_account: a deterministic encoder
/// of the funding transfer and allocation, with the token program as owner.
#[verifier::external_body]
pub(crate) fn build_create_account(payer: &Key, account: &Key, lamports: u64, space: u64) -> (r:
    Instruction)
    ensures
        r == create_account_instr(*payer, *account, lamports, space),
{
    solana_system_interface::instruction::create_account(
        &key_address(payer),
        &key_address(account),
        lamports,
        space,
        &spl_token_2022::id(),
    )
}

pub uninterp spec fn init_mint2_instr(
    mint: Key,
    mint_authority: Key,
    freeze_authority: Option<Key>,
    decimals: u8,
) -> Instruction;

/// Relies on spl_token_2022 initialize_mint2: a deterministic encoder; with
/// the token program's own id it returns Ok.
#[verifier::external_body]
pub(crate) fn build_init_mint2(
    mint: &Key,
    mint_authority: &Key,
    freeze_authority: &Option<Key>,
    decimals: u8,
) -> (r: Instruction)
    ensures
        r == init_mint2_instr(*mint, *mint_authority, *freeze_authority, decimals),
{
    let fa = opt_address(freeze_authority);
    spl_token_2022::instruction::initialize_mint2(
        &spl_token_2022::id(),
        &key_address(mint),
        &key_address(mint_authority),
        fa.as_ref(),
        decimals,
    )
        .unwrap()
}

pub uninterp spec fn init_account3_instr(account: Key, mint: Key, owner: Key) -> Instruction;

/// Relies on spl_token_2022 initialize_account3: a deterministic encoder;
/// with the token program's own id it returns Ok.
#[verifier::external_body]
pub(crate) fn build_init_account3(account: &Key, mint: &Key, owner: &Key) -> (r: Instruction)
    ensures
        r == init_account3_instr(*account, *mint, *owner),
{
    spl_token_2022::instruction::initialize_account3(
        &spl_token_2022::id(),
        &key_address(account),
        &key_address(mint),
        &key_address(owner),
    )
        .unwrap()
}

pub uninterp spec fn init_close_authority_instr(mint: Key, authority: Option<Key>) -> Instruction;

/// Relies on spl_token_2022 initialize_mint_close_authority: a deterministic
/// encoder; with the token program's own id it returns Ok.
#[verifier::external_body]
pub(crate) fn build_init_close_authority(mint: &Key, authority: &Option<Key>) -> (r: Instruction)
    ensures
        r == init_close_authority_instr(*mint, *authority),
{
    let a = opt_address(authority);
    spl_token_2022::instruction::initialize_mint_close_authority(
        &spl_token_2022::id(),
        &key_address(mint),
        a.as_ref(),
    )
        .unwrap()
}

pub uninterp spec fn init_transfer_fee_instr(
    mint: Key,
    config_authority: Option<Key>,
    withdraw_authority: Option<Key>,
    basis_points: u16,
    maximum_fee: u64,
) -> Instruction;

/// Relies on spl_token_2022 initialize_transfer_fee_config: a deterministic
/// encoder; with the token program's own id it returns Ok.
#[verifier::external_body]
pub(crate) fn build_init_transfer_fee(
    mint: &Key,
    config_authority: &Option<Key>,
    withdraw_authority: &Option<Key>,
    basis_points: u16,
    maximum_fee: u64,
) -> (r: Instruction)
    ensures
        r == init_transfer_fee_instr(
            *mint,
            *config_authority,
            *withdraw_authority,
            basis_points,
            maximum_fee,
        ),
{
    let ca = opt_address(config_authority);
    let wa = opt_address(withdraw_authority);
    spl_token_2022::extension::transfer_fee::instruction::initialize_transfer_fee_config(
        &spl_token_2022::id(),
        &key_address(mint),
        ca.as_ref(),
        wa.as_ref(),
        basis_points,
        maximum_fee,
    )
        .unwrap()
}

pub uninterp spec fn init_default_state_instr(mint: Key, state: u8) -> Instruction;

/// Relies on spl_token_2022 initialize_default_account_state: a
/// deterministic encoder; with the token program's own id and a state tag in
/// zero to two it returns Ok.
#[verifier::external_body]
pub(crate) fn build_init_default_state(mint: &Key, state: u8) -> (r: Instruction)
    requires
        state <= 2,
    ensures
        r == init_default_state_instr(*mint, state),
{
    let s = match state {
        0 => spl_token_2022::state::AccountState::Uninitialized,
        1 => spl_token_2022::state::AccountState::Initialized,
        _ => spl_token_2022::state::AccountState::Frozen,
    };
    spl_token_2022::extension::default_account_state::instruction::initialize_default_account_state(
        &spl_token_2022::id(),
        &key_address(mint),
        &s,
    )
        .unwrap()
}

pub uninterp spec fn update_default_state_instr(mint: Key, freeze_authority: Key, state: u8) -> Instruction;

/// Relies on spl_token_2022 update_default_account_state: a deterministic
/// encoder; with the token program's own id and a state tag in zero to two
/// it returns Ok.
#[verifier::external_body]
pub(crate) fn build_update_default_state(mint: &Key, freeze_authority: &Key, state: u8) -> (r:
    Instruction)
    requires
        state <= 2,
    ensures
        r == update_default_state_instr(*mint, *freeze_authority, state),
{
    let s = match state {
        0 => spl_token_2022::state::AccountState::Uninitialized,
        1 => spl_token_2022::state::AccountState::Initialized,
        _ => spl_token_2022::state::AccountState::Frozen,
    };
    spl_token_2022::extension::default_account_state::instruction::update_default_account_state(
        &spl_token_2022::id(),
        &key_address(mint),
        &key_address(freeze_authority),
        &[],
        &s,
    )
        .unwrap()
}

pub uninterp spec fn init_immutable_owner_instr(account: Key) -> Instruction;

/// Relies on spl_token_2022 initialize_immutable_owner: a deterministic
/// encoder; with the token program's own id it returns Ok.
#[verifier::external_body]
pub(crate) fn build_init_immutable_owner(account: &Key) -> (r: Instruction)
    ensures
        r == init_immutable_owner_instr(*account),
{
    spl_token_2022::instruction::initialize_immutable_owner(
        &spl_token_2022::id(),
        &key_address(account),
    )
        .unwrap()
}

pub uninterp spec fn init_non_transferable_instr(mint: Key) -> Instruction;

/// Relies on spl_token_2022 initialize_non_transferable_mint: a
/// deterministic encoder; with the token program's own id it returns Ok.
#[verifier::external_body]
pub(crate) fn build_init_non_transferable(mint: &Key) -> (r: Instruction)
    ensures
        r == init_non_transferable_instr(*mint),
{
    spl_token_2022::instruction::initialize_non_transferable_mint(
        &spl_token_2022::id(),
        &key_address(mint),
    )
        .unwrap()
}

pub uninterp spec fn init_interest_instr(mint: Key, rate_authority: Option<Key>, rate: i16) -> Instruction;

/// Relies on spl_token_2022 interest_bearing_mint initialize: a
/// deterministic encoder; with the token program's own id and an encodable
/// authority it returns Ok.
#[verifier::external_body]
pub(crate) fn build_init_interest(mint: &Key, rate_authority: &Option<Key>, rate: i16) -> (r:
    Instruction)
    requires
        spec_opt_key_encodable(*rate_authority),
    ensures
        r == init_interest_instr(*mint, *rate_authority, rate),
{
    spl_token_2022::extension::interest_bearing_mint::instruction::initialize(
        &spl_token_2022::id(),
        &key_address(mint),
        opt_address(rate_authority),
        rate,
    )
        .unwrap()
}

pub uninterp spec fn update_rate_instr(mint: Key, rate_authority: Key, rate: i16) -> Instruction;

/// Relies on spl_token_2022 interest_bearing_mint update_rate: a
/// deterministic encoder; with the token program's own id it returns Ok.
#[verifier::external_body]
pub(crate) fn build_update_rate(mint: &Key, rate_authority: &Key, rate: i16) -> (r: Instruction)
    ensures
        r == update_rate_instr(*mint, *rate_authority, rate),
{
    spl_token_2022::extension::interest_bearing_mint::instruction::update_rate(
        &spl_token_2022::id(),
        &key_address(mint),
        &key_address(rate_authority),
        &[],
        rate,
    )
        .unwrap()
}

pub uninterp spec fn init_permanent_delegate_instr(mint: Key, delegate: Key) -> Instruction;

/// Relies on spl_token_2022 initialize_permanent_delegate: a deterministic
/// encoder; with the token program's own id it returns Ok.
#[verifier::external_body]
pub(crate) fn build_init_permanent_delegate(mint: &Key, delegate: &Key) -> (r: Instruction)
    ensures
        r == init_permanent_delegate_instr(*mint, *delegate),
{
    spl_token_2022::instruction::initialize_permanent_delegate(
        &spl_token_2022::id(),
        &key_address(mint),
        &key_address(delegate),
    )
        .unwrap()
}

pub uninterp spec fn init_transfer_hook_instr(
    mint: Key,
    authority: Option<Key>,
    program_id: Option<Key>,
) -> Instruction;

/// Relies on spl_token_2022 transfer_hook initialize: a deterministic
/// encoder; with the token program's own id and encodable keys it returns
/// Ok.
#[verifier::external_body]
pub(crate) fn build_init_transfer_hook(
    mint: &Key,
    authority: &Option<Key>,
    program_id: &Option<Key>,
) -> (r: Instruction)
    requires
        spec_opt_key_encodable(*authority),
        spec_opt_key_encodable(*program_id),
    ensures
        r == init_transfer_hook_instr(*mint, *authority, *program_id),
{
    spl_token_2022::extension::transfer_hook::instruction::initialize(
        &spl_token_2022::id(),
        &key_address(mint),
        opt_address(authority),
        opt_address(program_id),
    )
        .unwrap()
}

pub uninterp spec fn update_transfer_hook_instr(mint: Key, authority: Key, program_id: Option<Key>) -> Instruction;

/// Relies on spl_token_2022 transfer_hook update: a deterministic encoder;
/// with the token program's own id and an encodable program id it returns
/// Ok.
#[verifier::external_body]
pub(crate) fn build_update_transfer_hook(mint: &Key, authority: &Key, program_id: &Option<Key>) -> (r:
    Instruction)
    requires
        spec_opt_key_encodable(*program_id),
    ensures
        r == update_transfer_hook_instr(*mint, *authority, *program_id),
{
    spl_token_2022::extension::transfer_hook::instruction::update(
        &spl_token_2022::id(),
        &key_address(mint),
        &key_address(authority),
        &[],
        opt_address(program_id),
    )
        .unwrap()
}

pub uninterp spec fn init_metadata_pointer_instr(
    mint: Key,
    authority: Option<Key>,
    metadata_address: Option<Key>,
) -> Instruction;

/// Relies on spl_token_2022 metadata_pointer initialize: a deterministic
/// encoder; with the token program's own id and encodable keys it returns
/// Ok.
#[verifier::external_body]
pub(crate) fn build_init_metadata_pointer(
    mint: &Key,
    authority: &Option<Key>,
    metadata_address: &Option<Key>,
) -> (r: Instruction)
    requires
        spec_opt_key_encodable(*authority),
        spec_opt_key_encodable(*metadata_address),
    ensures
        r == init_metadata_pointer_instr(*mint, *authority, *metadata_address),
{
    spl_token_2022::extension::metadata_pointer::instruction::initialize(
        &spl_token_2022::id(),
        &key_address(mint),
        opt_address(authority),
        opt_address(metadata_address),
    )
        .unwrap()
}

pub uninterp spec fn init_group_pointer_instr(
    mint: Key,
    authority: Option<Key>,
    group_address: Option<Key>,
) -> Instruction;

/// Relies on spl_token_2022 group_pointer initialize: a deterministic
/// encoder; with the token program's own id and encodable keys it returns
/// Ok.
#[verifier::external_body]
pub(crate) fn build_init_group_pointer(
    mint: &Key,
    authority: &Option<Key>,
    group_address: &Option<Key>,
) -> (r: Instruction)
    requires
        spec_opt_key_encodable(*authority),
        spec_opt_key_encodable(*group_address),
    ensures
        r == init_group_pointer_instr(*mint, *authority, *group_address),
{
    spl_token_2022::extension::group_pointer::instruction::initialize(
        &spl_token_2022::id(),
        &key_address(mint),
        opt_address(authority),
        opt_address(group_address),
    )
        .unwrap()
}

pub uninterp spec fn init_member_pointer_instr(
    mint: Key,
    authority: Option<Key>,
    member_address: Option<Key>,
) -> Instruction;

/// Relies on spl_token_2022 group_member_pointer initialize: a deterministic
/// encoder; with the token program's own id and encodable keys it returns
/// Ok.
#[verifier::external_body]
pub(crate) fn build_init_member_pointer(
    mint: &Key,
    authority: &Option<Key>,
    member_address: &Option<Key>,
) -> (r: Instruction)
    requires
        spec_opt_key_encodable(*authority),
        spec_opt_key_encodable(*member_address),
    ensures
        r == init_member_pointer_instr(*mint, *authority, *member_address),
{
    spl_token_2022::extension::group_member_pointer::instruction::initialize(
        &spl_token_2022::id(),
        &key_address(mint),
        opt_address(authority),
        opt_address(member_address),
    )
        .unwrap()
}

pub uninterp spec fn init_pausable_instr(mint: Key, authority: Key) -> Instruction;

/// Relies on spl_token_2022 pausable initialize: a deterministic encoder;
/// with the token program's own id it returns Ok.
#[verifier::external_body]
pub(crate) fn build_init_pausable(mint: &Key, authority: &Key) -> (r: Instruction)
    ensures
        r == init_pausable_instr(*mint, *authority),
{
    spl_token_2022::extension::pausable::instruction::initialize(
        &spl_token_2022::id(),
        &key_address(mint),
        &key_address(authority),
    )
        .unwrap()
}

pub uninterp spec fn pause_instr(mint: Key, authority: Key) -> Instruction;

/// Relies on spl_token_2022 pausable pause: a deterministic encoder; with
/// the token program's own id it returns Ok.
#[verifier::external_body]
pub(crate) fn build_pause(mint: &Key, authority: &Key) -> (r: Instruction)
    ensures
        r == pause_instr(*mint, *authority),
{
    spl_token_2022::extension::pausable::instruction::pause(
        &spl_token_2022::id(),
        &key_address(mint),
        &key_address(authority),
        &[],
    )
        .unwrap()
}

pub uninterp spec fn resume_instr(mint: Key, authority: Key) -> Instruction;

/// Relies on spl_token_2022 pausable resume: a deterministic encoder; with
/// the token program's own id it returns Ok.
#[verifier::external_body]
pub(crate) fn build_resume(mint: &Key, authority: &Key) -> (r: Instruction)
    ensures
        r == resume_instr(*mint, *authority),
{
    spl_token_2022::extension::pausable::instruction::resume(
        &spl_token_2022::id(),
        &key_address(mint),
        &key_address(authority),
        &[],
    )
        .unwrap()
}

pub uninterp spec fn enable_memo_instr(account: Key, owner: Key) -> Instruction;

/// Relies on spl_token_2022 enable_required_transfer_memos: a deterministic
/// encoder; with the token program's own id it returns Ok.
#[verifier::external_body]
pub(crate) fn build_enable_memo(account: &Key, owner: &Key) -> (r: Instruction)
    ensures
        r == enable_memo_instr(*account, *owner),
{
    spl_token_2022::extension::memo_transfer::instruction::enable_required_transfer_memos(
        &spl_token_2022::id(),
        &key_address(account),
        &key_address(owner),
        &[],
    )
        .unwrap()
}

pub uninterp spec fn disable_memo_instr(account: Key, owner: Key) -> Instruction;

/// Relies on spl_token_2022 disable_required_transfer_memos: a deterministic
/// encoder; with the token program's own id it returns Ok.
#[verifier::external_body]
pub(crate) fn build_disable_memo(account: &Key, owner: &Key) -> (r: Instruction)
    ensures
        r == disable_memo_instr(*account, *owner),
{
    spl_token_2022::extension::memo_transfer::instruction::disable_required_transfer_memos(
        &spl_token_2022::id(),
        &key_address(account),
        &key_address(owner),
        &[],
    )
        .unwrap()
}

pub uninterp spec fn enable_cpi_guard_instr(account: Key, owner: Key) -> Instruction;

/// Relies on spl_token_2022 enable_cpi_guard: a deterministic encoder; with
/// the token program's own id it returns Ok.
#[verifier::external_body]
pub(crate) fn build_enable_cpi_guard(account: &Key, owner: &Key) -> (r: Instruction)
    ensures
        r == enable_cpi_guard_instr(*account, *owner),
{
    spl_token_2022::extension::cpi_guard::instruction::enable_cpi_guard(
        &spl_token_2022::id(),
        &key_address(account),
        &key_address(owner),
        &[],
    )
        .unwrap()
}

pub uninterp spec fn disable_cpi_guard_instr(account: Key, owner: Key) -> Instruction;

/// Relies on spl_token_2022 disable_cpi_guard: a deterministic encoder; with
/// the token program's own id it returns Ok.
#[verifier::external_body]
pub(crate) fn build_disable_cpi_guard(account: &Key, owner: &Key) -> (r: Instruction)
    ensures
        r == disable_cpi_guard_instr(*account, *owner),
{
    spl_token_2022::extension::cpi_guard::instruction::disable_cpi_guard(
        &spl_token_2022::id(),
        &key_address(account),
        &key_address(owner),
        &[],
    )
        .unwrap()
}

pub uninterp spec fn close_account_instr(account: Key, destination: Key, authority: Key) -> Instruction;

/// Relies on spl_token_2022 close_account: a deterministic encoder; with the
/// token program's own id it returns Ok.
#[verifier::external_body]
pub(crate) fn build_close_account(account: &Key, destination: &Key, authority: &Key) -> (r:
    Instruction)
    ensures
        r == close_account_instr(*account, *destination, *authority),
{
    spl_token_2022::instruction::close_account(
        &spl_token_2022::id(),
        &key_address(account),
        &key_address(destination),
        &key_address(authority),
        &[],
    )
        .unwrap()
}

pub uninterp spec fn transfer_with_fee_instr(
    source: Key,
    mint: Key,
    destination: Key,
    authority: Key,
    amount: u64,
    decimals: u8,
    fee: u64,
) -> Instruction;

/// Relies on spl_token_2022 transfer_checked_with_fee: a deterministic
/// encoder; with the token program's own id it returns Ok.
#[verifier::external_body]
pub(crate) fn build_transfer_with_fee(
    source: &Key,
    mint: &Key,
    destination: &Key,
    authority: &Key,
    amount: u64,
    decimals: u8,
    fee: u64,
) -> (r: Instruction)
    ensures
        r == transfer_with_fee_instr(*source, *mint, *destination, *authority, amount, decimals, fee),
{
    spl_token_2022::extension::transfer_fee::instruction::transfer_checked_with_fee(
        &spl_token_2022::id(),
        &key_address(source),
        &key_address(mint),
        &key_address(destination),
        &key_address(authority),
        &[],
        amount,
        decimals,
        fee,
    )
        .unwrap()
}

pub uninterp spec fn withdraw_withheld_instr(
    mint: Key,
    destination: Key,
    authority: Key,
    source: Key,
) -> Instruction;

/// Relies on spl_token_2022 withdraw_withheld_tokens_from_accounts with one
/// source account: a deterministic encoder; with the token program's own id
/// it returns Ok.
#[verifier::external_body]
pub(crate) fn build_withdraw_withheld(
    mint: &Key,
    destination: &Key,
    authority: &Key,
    source: &Key,
) -> (r: Instruction)
    ensures
        r == withdraw_withheld_instr(*mint, *destination, *authority, *source),
{
    spl_token_2022::extension::transfer_fee::instruction::withdraw_withheld_tokens_from_accounts(
        &spl_token_2022::id(),
        &key_address(mint),
        &key_address(destination),
        &key_address(authority),
        &[],
        &[&key_address(source)],
    )
        .unwrap()
}

pub uninterp spec fn init_group_instr(
    group: Key,
    mint: Key,
    mint_authority: Key,
    update_authority: Option<Key>,
    max_size: u32,
) -> Instruction;

/// Relies on spl_token_group_interface initialize_group: a deterministic,
/// infallible encoder for an encodable update authority; the group size
/// field is widened from the library's 32-bit bound.
#[verifier::external_body]
pub(crate) fn build_init_group(
    group: &Key,
    mint: &Key,
    mint_authority: &Key,
    update_authority: &Option<Key>,
    max_size: u32,
) -> (r: Instruction)
    requires
        spec_opt_key_encodable(*update_authority),
    ensures
        r == init_group_instr(*group, *mint, *mint_authority, *update_authority, max_size),
{
    spl_token_group_interface::instruction::initialize_group(
        &spl_token_2022::id(),
        &key_address(group),
        &key_address(mint),
        &key_address(mint_authority),
        opt_address(update_authority),
        max_size as u64,
    )
}

pub uninterp spec fn update_group_max_size_instr(group: Key, update_authority: Key, max_size: u32) -> Instruction;

/// Relies on spl_token_group_interface update_group_max_size: a
/// deterministic, infallible encoder; the size field is widened from the
/// library's 32-bit bound.
#[verifier::external_body]
pub(crate) fn build_update_group_max_size(group: &Key, update_authority: &Key, max_size: u32) -> (r:
    Instruction)
    ensures
        r == update_group_max_size_instr(*group, *update_authority, max_size),
{
    spl_token_group_interface::instruction::update_group_max_size(
        &spl_token_2022::id(),
        &key_address(group),
        &key_address(update_authority),
        max_size as u64,
    )
}

pub uninterp spec fn init_member_instr(
    member: Key,
    member_mint_authority: Key,
    group: Key,
    group_update_authority: Key,
) -> Instruction;

/// Relies on spl_token_group_interface initialize_member, with the member
/// mint standing as its own member account: a deterministic, infallible
/// encoder.
#[verifier::external_body]
pub(crate) fn build_init_member(
    member: &Key,
    member_mint_authority: &Key,
    group: &Key,
    group_update_authority: &Key,
) -> (r: Instruction)
    ensures
        r == init_member_instr(*member, *member_mint_authority, *group, *group_update_authority),
{
    spl_token_group_interface::instruction::initialize_member(
        &spl_token_2022::id(),
        &key_address(member),
        &key_address(member),
        &key_address(member_mint_authority),
        &key_address(group),
        &key_address(group_update_authority),
    )
}

pub uninterp spec fn init_token_metadata_instr(
    mint: Key,
    update_authority: Key,
    mint_authority: Key,
    name: Seq<char>,
    symbol: Seq<char>,
    uri: Seq<char>,
) -> Instruction;

/// Relies on spl_token_metadata_interface initialize, with the mint standing
/// as its own metadata account: a deterministic, infallible encoder.
#[verifier::external_body]
pub(crate) fn build_init_token_metadata(
    mint: &Key,
    update_authority: &Key,
    mint_authority: &Key,
    name: &String,
    symbol: &String,
    uri: &String,
) -> (r: Instruction)
    ensures
        r == init_token_metadata_instr(
            *mint,
            *update_authority,
            *mint_authority,
            name@,
            symbol@,
            uri@,
        ),
{
    spl_token_metadata_interface::instruction::initialize(
        &spl_token_2022::id(),
        &key_address(mint),
        &key_address(update_authority),
        &key_address(mint),
        &key_address(mint_authority),
        name.clone(),
        symbol.clone(),
        uri.clone(),
    )
}

pub uninterp spec fn update_metadata_field_instr(
    mint: Key,
    update_authority: Key,
    field: Seq<char>,
    value: Seq<char>,
) -> Instruction;

/// Relies on spl_token_metadata_interface update_field with a user field
/// key: a deterministic, infallible encoder.
#[verifier::external_body]
pub(crate) fn build_update_metadata_field(
    mint: &Key,
    update_authority: &Key,
    field: &String,
    value: &String,
) -> (r: Instruction)
    ensures
        r == update_metadata_field_instr(*mint, *update_authority, field@, value@),
{
    spl_token_metadata_interface::instruction::update_field(
        &spl_token_2022::id(),
        &key_address(mint),
        &key_address(update_authority),
        spl_token_metadata_interface::state::Field::Key(field.clone()),
        value.clone(),
    )
}

} // verus!
