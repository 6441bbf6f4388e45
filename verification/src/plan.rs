//! The layout planner and the account-creation operations: each one
//! validates its parameters, sizes the account exactly as the token service
//! does, and lays out the creation steps in the one order the service
//! accepts — provision, pre-base extension blocks, base record, then any
//! interface payloads.

use vstd::prelude::*;

use crate::errors::TokenExtensionError;
use crate::keys::spec_opt_key_encodable;
use crate::keys::Key;
use crate::kinds::spec_required_space;
use crate::kinds::ExtensionKind;
use crate::kinds::InitPosition;
use crate::kinds::RecordKind;
use crate::mint_model::spec_domain_error;
use crate::mint_model::MintExtParams;
use crate::token_model::TokenExtParams;
use crate::trusted;

use solana_instruction::Instruction;

verus! {

/// One step of a creation sequence, as the dispatcher will submit it.
#[derive(Debug, Clone)]
pub enum StepDesc {
    Provision { payer: Key, account: Key, lamports: u64, space: u64 },
    InitMintExtension { params: MintExtParams },
    InitTokenExtension { params: TokenExtParams },
    InitMintBase { mint_authority: Key, freeze_authority: Option<Key>, decimals: u8 },
    InitTokenBase { owner: Key, mint: Key },
    InitMember { member_mint_authority: Key, group: Key, group_update_authority: Key },
    EnableMemo { owner: Key },
}

/// A creation step together with the instruction that performs it. The
/// instruction is absent only for the scaled-ui-amount block, whose encoder
/// takes a floating-point multiplier and is therefore called by the
/// ledger-facing layer from the recorded bits.
pub struct PlanStep {
    pub desc: StepDesc,
    pub instr: Option<Instruction>,
}

/// An ordered creation sequence and the exact account size it provisions.
pub struct CreationPlan {
    pub space: u64,
    pub steps: Vec<PlanStep>,
}

/// Wire-encodability of every optional key among initialization parameters.
pub open spec fn spec_params_encodable(p: MintExtParams) -> bool {
    match p {
        MintExtParams::InterestBearing { rate_authority, .. } => spec_opt_key_encodable(
            rate_authority,
        ),
        MintExtParams::TransferHook { authority, program_id } => spec_opt_key_encodable(authority)
            && spec_opt_key_encodable(program_id),
        MintExtParams::MetadataPointer { authority, address } => spec_opt_key_encodable(authority)
            && spec_opt_key_encodable(address),
        MintExtParams::GroupPointer { authority, address } => spec_opt_key_encodable(authority)
            && spec_opt_key_encodable(address),
        MintExtParams::MemberPointer { authority, address } => spec_opt_key_encodable(authority)
            && spec_opt_key_encodable(address),
        MintExtParams::Group { update_authority, .. } => spec_opt_key_encodable(update_authority),
        _ => true,
    }
}

/// The instruction initializing one mint extension block, where the library
/// can build it.
pub open spec fn spec_mint_ext_instr(mint: Key, mint_authority: Key, p: MintExtParams) -> Option<
    Instruction,
> {
    match p {
        MintExtParams::CloseAuthority { authority } => Some(
            trusted::init_close_authority_instr(mint, authority),
        ),
        MintExtParams::TransferFee {
            config_authority,
            withdraw_authority,
            basis_points,
            maximum_fee,
        } => Some(
            trusted::init_transfer_fee_instr(
                mint,
                config_authority,
                withdraw_authority,
                basis_points,
                maximum_fee,
            ),
        ),
        MintExtParams::DefaultState { state } => Some(
            trusted::init_default_state_instr(mint, state),
        ),
        MintExtParams::NonTransferable => Some(trusted::init_non_transferable_instr(mint)),
        MintExtParams::InterestBearing { rate_authority, rate } => Some(
            trusted::init_interest_instr(mint, rate_authority, rate),
        ),
        MintExtParams::PermanentDelegate { delegate } => Some(
            trusted::init_permanent_delegate_instr(mint, delegate),
        ),
        MintExtParams::TransferHook { authority, program_id } => Some(
            trusted::init_transfer_hook_instr(mint, authority, program_id),
        ),
        MintExtParams::MetadataPointer { authority, address } => Some(
            trusted::init_metadata_pointer_instr(mint, authority, address),
        ),
        MintExtParams::Metadata { update_authority, name, symbol, uri } => Some(
            trusted::init_token_metadata_instr(
                mint,
                update_authority,
                mint_authority,
                name@,
                symbol@,
                uri@,
            ),
        ),
        MintExtParams::GroupPointer { authority, address } => Some(
            trusted::init_group_pointer_instr(mint, authority, address),
        ),
        MintExtParams::Group { update_authority, max_size } => Some(
            trusted::init_group_instr(mint, mint, mint_authority, update_authority, max_size),
        ),
        MintExtParams::MemberPointer { authority, address } => Some(
            trusted::init_member_pointer_instr(mint, authority, address),
        ),
        MintExtParams::ScaledUiAmount { .. } => None,
        MintExtParams::Pausable { authority } => Some(trusted::init_pausable_instr(mint, authority)),
    }
}

/// Builds the instruction initializing one mint extension block; absent only
/// for the scaled-ui-amount block.
fn mint_ext_init_instruction(mint: &Key, mint_authority: &Key, p: &MintExtParams) -> (r: Option<
    Instruction,
>)
    requires
        spec_params_encodable(*p),
        spec_domain_error(*p) is None,
    ensures
        r == spec_mint_ext_instr(*mint, *mint_authority, *p),
{
    match p {
        MintExtParams::CloseAuthority { authority } => Some(
            trusted::build_init_close_authority(mint, authority),
        ),
        MintExtParams::TransferFee {
            config_authority,
            withdraw_authority,
            basis_points,
            maximum_fee,
        } => Some(
            trusted::build_init_transfer_fee(
                mint,
                config_authority,
                withdraw_authority,
                *basis_points,
                *maximum_fee,
            ),
        ),
        MintExtParams::DefaultState { state } => Some(
            trusted::build_init_default_state(mint, *state),
        ),
        MintExtParams::NonTransferable => Some(trusted::build_init_non_transferable(mint)),
        MintExtParams::InterestBearing { rate_authority, rate } => Some(
            trusted::build_init_interest(mint, rate_authority, *rate),
        ),
        MintExtParams::PermanentDelegate { delegate } => Some(
            trusted::build_init_permanent_delegate(mint, delegate),
        ),
        MintExtParams::TransferHook { authority, program_id } => Some(
            trusted::build_init_transfer_hook(mint, authority, program_id),
        ),
        MintExtParams::MetadataPointer { authority, address } => Some(
            trusted::build_init_metadata_pointer(mint, authority, address),
        ),
        MintExtParams::Metadata { update_authority, name, symbol, uri } => Some(
            trusted::build_init_token_metadata(mint, update_authority, mint_authority, name, symbol, uri),
        ),
        MintExtParams::GroupPointer { authority, address } => Some(
            trusted::build_init_group_pointer(mint, authority, address),
        ),
        MintExtParams::Group { update_authority, max_size } => Some(
            trusted::build_init_group(mint, mint, mint_authority, update_authority, *max_size),
        ),
        MintExtParams::MemberPointer { authority, address } => Some(
            trusted::build_init_member_pointer(mint, authority, address),
        ),
        MintExtParams::ScaledUiAmount { .. } => None,
        MintExtParams::Pausable { authority } => Some(trusted::build_init_pausable(mint, authority)),
    }
}

/// Every requested kind applies to the record kind being created.
pub open spec fn spec_all_applicable(kinds: Seq<ExtensionKind>, record: RecordKind) -> bool {
    forall|i: int|
        0 <= i < kinds.len() ==> (#[trigger] kinds[i]).spec_applicable_to(record)
}

/// Every payload kind in the request is accompanied by its pointer kind.
pub open spec fn spec_pointers_present(kinds: Seq<ExtensionKind>) -> bool {
    forall|i: int|
        0 <= i < kinds.len() ==> ((#[trigger] kinds[i]).spec_pointer_kind() matches Some(ptr)
            ==> kinds.contains(ptr))
}

/// The first rule a sizing request breaks, if any: every kind must apply to
/// the record, no kind may be requested twice, and a payload kind may not
/// come without its pointer.
pub open spec fn spec_space_request_check(record: RecordKind, kinds: Seq<ExtensionKind>) -> Option<
    TokenExtensionError,
> {
    if !spec_all_applicable(kinds, record) {
        Some(TokenExtensionError::InvalidExtensionType)
    } else if !kinds.no_duplicates() {
        Some(TokenExtensionError::ExtensionAlreadyInitialized)
    } else if !spec_pointers_present(kinds) {
        Some(TokenExtensionError::InvalidExtensionType)
    } else {
        None
    }
}

fn kinds_contain(kinds: &Vec<ExtensionKind>, k: ExtensionKind) -> (r: bool)
    ensures
        r == kinds@.contains(k),
{
    let mut i: usize = 0;
    while i < kinds.len()
        invariant
            i <= kinds@.len(),
            forall|j: int| 0 <= j < i ==> kinds@[j] != k,
        decreases kinds@.len() - i,
    {
        if kinds[i] == k {
            return true;
        }
        i = i + 1;
    }
    false
}

/// Validates a requested extension combination and computes the exact
/// account length the token service expects for it. The one
/// variable-length kind, metadata, is admitted — behind its pointer — but
/// contributes no fixed footprint: the token service grows the account for
/// it at initialization.
#[verifier::loop_isolation(false)]
pub fn compute_extension_space(record: RecordKind, kinds: &Vec<ExtensionKind>) -> (r: Result<
    u64,
    TokenExtensionError,
>)
    ensures
        r is Err <==> spec_space_request_check(record, kinds@) is Some,
        r matches Err(e) ==> Some(e) == spec_space_request_check(record, kinds@),
        r matches Ok(space) ==> space == spec_required_space(
            record,
            kinds@.filter(|k: ExtensionKind| k.spec_sized()),
        ),
{
    let ghost pred = |k: ExtensionKind| k.spec_sized();
    let mut i: usize = 0;
    while i < kinds.len()
        invariant
            i <= kinds@.len(),
            forall|j: int| 0 <= j < i ==> (#[trigger] kinds@[j]).spec_applicable_to(record),
        decreases kinds@.len() - i,
    {
        if !kinds[i].applicable_to(record) {
            return Err(TokenExtensionError::InvalidExtensionType);
        }
        i = i + 1;
    }
    assert(spec_all_applicable(kinds@, record));
    i = 1;
    while i < kinds.len()
        invariant
            i <= kinds@.len() || kinds@.len() == 0,
            forall|a: int, b: int| 0 <= a < b < i ==> kinds@[a] != kinds@[b],
        decreases kinds@.len() - i,
    {
        let mut j: usize = 0;
        while j < i
            invariant
                j <= i < kinds@.len(),
                forall|a: int, b: int| 0 <= a < b < i ==> kinds@[a] != kinds@[b],
                forall|a: int| 0 <= a < j ==> kinds@[a] != kinds@[i as int],
            decreases i - j,
        {
            if kinds[j] == kinds[i] {
                proof {
                    assert(kinds@[j as int] == kinds@[i as int]);
                    assert(!kinds@.no_duplicates());
                }
                return Err(TokenExtensionError::ExtensionAlreadyInitialized);
            }
            j = j + 1;
        }
        i = i + 1;
    }
    assert(kinds@.no_duplicates());
    i = 0;
    while i < kinds.len()
        invariant
            i <= kinds@.len(),
            forall|j: int|
                0 <= j < i ==> ((#[trigger] kinds@[j]).spec_pointer_kind() matches Some(ptr)
                    ==> kinds@.contains(ptr)),
        decreases kinds@.len() - i,
    {
        match kinds[i].pointer_kind() {
            Some(ptr) => {
                if !kinds_contain(kinds, ptr) {
                    proof {
                        assert(kinds@[i as int].spec_pointer_kind() == Some(ptr));
                        assert(!spec_pointers_present(kinds@));
                    }
                    return Err(TokenExtensionError::InvalidExtensionType);
                }
            },
            None => {},
        }
        i = i + 1;
    }
    assert(spec_pointers_present(kinds@));
    let mut sized: Vec<ExtensionKind> = Vec::new();
    i = 0;
    while i < kinds.len()
        invariant
            i <= kinds@.len(),
            kinds@.no_duplicates(),
            spec_all_applicable(kinds@, record),
            sized@ == kinds@.take(i as int).filter(pred),
            sized@.no_duplicates(),
            forall|x: ExtensionKind| #[trigger]
                sized@.contains(x) ==> kinds@.take(i as int).contains(x),
            pred == (|k: ExtensionKind| k.spec_sized()),
        decreases kinds@.len() - i,
    {
        proof {
            assert(kinds@.take(i + 1 as int) =~= kinds@.take(i as int).push(kinds@[i as int]));
            kinds@.take(i as int).lemma_filter_push(kinds@[i as int], pred);
            crate::mint_model::lemma_push_contains(kinds@.take(i as int), kinds@[i as int]);
            crate::mint_model::lemma_push_contains(sized@, kinds@[i as int]);
            if sized@.contains(kinds@[i as int]) {
                let jj = choose|jj: int|
                    0 <= jj < i && kinds@.take(i as int)[jj] == kinds@[i as int];
                assert(kinds@[jj] == kinds@[i as int]);
                assert(false);
            }
            crate::mint_model::lemma_push_no_duplicates(sized@, kinds@[i as int]);
        }
        if kinds[i].sized() {
            sized.push(kinds[i]);
        }
        i = i + 1;
    }
    proof {
        assert(kinds@.take(kinds@.len() as int) =~= kinds@);
        assert(sized@ == kinds@.filter(pred));
        assert forall|j: int|
            0 <= j < sized@.len() implies kinds@.contains(#[trigger] sized@[j]) && sized@[j]
            .spec_sized() by {
            kinds@.filter_lemma(pred);
            assert(sized@[j] == kinds@.filter(pred)[j]);
            assert(sized@.contains(sized@[j]));
        }
        assert(forall|j: int|
            0 <= j < sized@.len() ==> (#[trigger] sized@[j]).spec_applicable_to(record)) by {
            assert forall|j: int|
                0 <= j < sized@.len() implies (#[trigger] sized@[j]).spec_applicable_to(
                record,
            ) by {
                let x = sized@[j];
                assert(kinds@.contains(x));
                let a = choose|a: int| 0 <= a < kinds@.len() && kinds@[a] == x;
                assert(kinds@[a].spec_applicable_to(record));
            }
        }
    }
    let space = match record {
        RecordKind::Mint => trusted::spl_mint_account_len(&sized),
        RecordKind::TokenAccount => trusted::spl_token_account_len(&sized),
    };
    Ok(space)
}

/// Shape of a three-step plan creating a mint with one pre-base extension:
/// provision the exact computed size, write the block, then the base record.
pub open spec fn spec_single_ext_plan(
    plan: CreationPlan,
    payer: Key,
    mint: Key,
    mint_authority: Key,
    freeze_authority: Option<Key>,
    decimals: u8,
    lamports: u64,
    p: MintExtParams,
) -> bool {
    &&& plan.space == spec_required_space(RecordKind::Mint, seq![p.spec_kind()])
    &&& plan.steps@.len() == 3
    &&& plan.steps@[0].desc == (StepDesc::Provision {
        payer,
        account: mint,
        lamports,
        space: plan.space,
    })
    &&& plan.steps@[0].instr == Some(trusted::create_account_instr(payer, mint, lamports, plan.space))
    &&& plan.steps@[1].desc == (StepDesc::InitMintExtension { params: p })
    &&& plan.steps@[1].instr == spec_mint_ext_instr(mint, mint_authority, p)
    &&& plan.steps@[2].desc == (StepDesc::InitMintBase {
        mint_authority,
        freeze_authority,
        decimals,
    })
    &&& plan.steps@[2].instr == Some(
        trusted::init_mint2_instr(mint, mint_authority, freeze_authority, decimals),
    )
}

/// Validates the domain rules on initialization parameters.
fn domain_check(p: &MintExtParams) -> (r: Option<TokenExtensionError>)
    ensures
        r == spec_domain_error(*p),
{
    match p {
        MintExtParams::TransferFee { basis_points, .. } => {
            if *basis_points > crate::fees::MAX_FEE_BASIS_POINTS {
                Some(TokenExtensionError::InvalidTransferFeeConfig)
            } else {
                None
            }
        },
        MintExtParams::DefaultState { state } => {
            if *state > 2 {
                Some(TokenExtensionError::InvalidDefaultAccountState)
            } else {
                None
            }
        },
        MintExtParams::ScaledUiAmount { multiplier_bits, .. } => {
            if !crate::fees::multiplier_bits_valid(*multiplier_bits) {
                Some(TokenExtensionError::InvalidUiAmountMultiplier)
            } else {
                None
            }
        },
        _ => None,
    }
}

/// Plans the creation of a mint carrying one pre-base extension block.
fn single_ext_mint_plan(
    payer: Key,
    mint: Key,
    mint_authority: Key,
    freeze_authority: Option<Key>,
    decimals: u8,
    lamports: u64,
    params: MintExtParams,
) -> (r: Result<CreationPlan, TokenExtensionError>)
    requires
        spec_params_encodable(params),
        params.spec_kind().spec_position() is PreBase,
    ensures
        r is Ok <==> spec_domain_error(params) is None,
        r matches Err(e) ==> Some(e) == spec_domain_error(params),
        r matches Ok(plan) ==> spec_single_ext_plan(
            plan,
            payer,
            mint,
            mint_authority,
            freeze_authority,
            decimals,
            lamports,
            params,
        ),
{
    if let Some(e) = domain_check(&params) {
        return Err(e);
    }
    let kind = params.kind();
    let mut kinds: Vec<ExtensionKind> = Vec::new();
    kinds.push(kind);
    proof {
        assert(kinds@ =~= seq![params.spec_kind()]);
    }
    let space = trusted::spl_mint_account_len(&kinds);
    let create = trusted::build_create_account(&payer, &mint, lamports, space);
    let ext_instr = mint_ext_init_instruction(&mint, &mint_authority, &params);
    let base = trusted::build_init_mint2(&mint, &mint_authority, &freeze_authority, decimals);
    let mut steps: Vec<PlanStep> = Vec::new();
    steps.push(
        PlanStep {
            desc: StepDesc::Provision { payer, account: mint, lamports, space },
            instr: Some(create),
        },
    );
    steps.push(PlanStep { desc: StepDesc::InitMintExtension { params }, instr: ext_instr });
    steps.push(
        PlanStep {
            desc: StepDesc::InitMintBase { mint_authority, freeze_authority, decimals },
            instr: Some(base),
        },
    );
    Ok(CreationPlan { space, steps })
}

/// Plans a mint whose close authority may later reclaim it.
pub fn create_mint_with_close_authority(
    payer: Key,
    mint: Key,
    mint_authority: Key,
    close_authority: Key,
    decimals: u8,
    lamports: u64,
) -> (r: Result<CreationPlan, TokenExtensionError>)
    requires
        !close_authority.spec_is_zero(),
    ensures
        r is Ok,
        r matches Ok(plan) ==> spec_single_ext_plan(
            plan,
            payer,
            mint,
            mint_authority,
            None,
            decimals,
            lamports,
            MintExtParams::CloseAuthority { authority: Some(close_authority) },
        ),
{
    single_ext_mint_plan(
        payer,
        mint,
        mint_authority,
        None,
        decimals,
        lamports,
        MintExtParams::CloseAuthority { authority: Some(close_authority) },
    )
}

/// Plans a mint with a transfer-fee schedule; the basis points may not
/// exceed one hundred percent.
pub fn create_mint_with_transfer_fee(
    payer: Key,
    mint: Key,
    mint_authority: Key,
    transfer_fee_config_authority: Option<Key>,
    withdraw_withheld_authority: Option<Key>,
    transfer_fee_basis_points: u16,
    maximum_fee: u64,
    decimals: u8,
    lamports: u64,
) -> (r: Result<CreationPlan, TokenExtensionError>)
    ensures
        r is Ok <==> transfer_fee_basis_points <= crate::fees::MAX_FEE_BASIS_POINTS,
        r matches Err(e) ==> e == TokenExtensionError::InvalidTransferFeeConfig,
        r matches Ok(plan) ==> spec_single_ext_plan(
            plan,
            payer,
            mint,
            mint_authority,
            None,
            decimals,
            lamports,
            MintExtParams::TransferFee {
                config_authority: transfer_fee_config_authority,
                withdraw_authority: withdraw_withheld_authority,
                basis_points: transfer_fee_basis_points,
                maximum_fee,
            },
        ),
{
    single_ext_mint_plan(
        payer,
        mint,
        mint_authority,
        None,
        decimals,
        lamports,
        MintExtParams::TransferFee {
            config_authority: transfer_fee_config_authority,
            withdraw_authority: withdraw_withheld_authority,
            basis_points: transfer_fee_basis_points,
            maximum_fee,
        },
    )
}

/// Plans a mint whose new token accounts start in the given default state;
/// the state tag must be zero, one or two. The mint authority doubles as the
/// freeze authority, which later default-state updates require.
pub fn create_mint_with_default_state(
    payer: Key,
    mint: Key,
    mint_authority: Key,
    default_state: u8,
    decimals: u8,
    lamports: u64,
) -> (r: Result<CreationPlan, TokenExtensionError>)
    ensures
        r is Ok <==> default_state <= 2,
        r matches Err(e) ==> e == TokenExtensionError::InvalidDefaultAccountState,
        r matches Ok(plan) ==> spec_single_ext_plan(
            plan,
            payer,
            mint,
            mint_authority,
            Some(mint_authority),
            decimals,
            lamports,
            MintExtParams::DefaultState { state: default_state },
        ),
{
    single_ext_mint_plan(
        payer,
        mint,
        mint_authority,
        Some(mint_authority),
        decimals,
        lamports,
        MintExtParams::DefaultState { state: default_state },
    )
}

/// Plans a mint whose tokens can never be transferred.
pub fn create_non_transferable_mint(
    payer: Key,
    mint: Key,
    mint_authority: Key,
    decimals: u8,
    lamports: u64,
) -> (r: Result<CreationPlan, TokenExtensionError>)
    ensures
        r is Ok,
        r matches Ok(plan) ==> spec_single_ext_plan(
            plan,
            payer,
            mint,
            mint_authority,
            None,
            decimals,
            lamports,
            MintExtParams::NonTransferable,
        ),
{
    single_ext_mint_plan(
        payer,
        mint,
        mint_authority,
        None,
        decimals,
        lamports,
        MintExtParams::NonTransferable,
    )
}

/// Plans an interest-bearing mint.
pub fn create_interest_bearing_mint(
    payer: Key,
    mint: Key,
    mint_authority: Key,
    rate_authority: Option<Key>,
    rate: i16,
    decimals: u8,
    lamports: u64,
) -> (r: Result<CreationPlan, TokenExtensionError>)
    requires
        spec_opt_key_encodable(rate_authority),
    ensures
        r is Ok,
        r matches Ok(plan) ==> spec_single_ext_plan(
            plan,
            payer,
            mint,
            mint_authority,
            None,
            decimals,
            lamports,
            MintExtParams::InterestBearing { rate_authority, rate },
        ),
{
    single_ext_mint_plan(
        payer,
        mint,
        mint_authority,
        None,
        decimals,
        lamports,
        MintExtParams::InterestBearing { rate_authority, rate },
    )
}

/// Plans a mint with a permanent delegate over all its token accounts.
pub fn create_mint_with_permanent_delegate(
    payer: Key,
    mint: Key,
    mint_authority: Key,
    delegate: Key,
    decimals: u8,
    lamports: u64,
) -> (r: Result<CreationPlan, TokenExtensionError>)
    ensures
        r is Ok,
        r matches Ok(plan) ==> spec_single_ext_plan(
            plan,
            payer,
            mint,
            mint_authority,
            None,
            decimals,
            lamports,
            MintExtParams::PermanentDelegate { delegate },
        ),
{
    single_ext_mint_plan(
        payer,
        mint,
        mint_authority,
        None,
        decimals,
        lamports,
        MintExtParams::PermanentDelegate { delegate },
    )
}

/// Plans a mint whose transfers call out to a hook program.
pub fn create_mint_with_transfer_hook(
    payer: Key,
    mint: Key,
    mint_authority: Key,
    authority: Option<Key>,
    program_id: Option<Key>,
    decimals: u8,
    lamports: u64,
) -> (r: Result<CreationPlan, TokenExtensionError>)
    requires
        spec_opt_key_encodable(authority),
        spec_opt_key_encodable(program_id),
    ensures
        r is Ok,
        r matches Ok(plan) ==> spec_single_ext_plan(
            plan,
            payer,
            mint,
            mint_authority,
            None,
            decimals,
            lamports,
            MintExtParams::TransferHook { authority, program_id },
        ),
{
    single_ext_mint_plan(
        payer,
        mint,
        mint_authority,
        None,
        decimals,
        lamports,
        MintExtParams::TransferHook { authority, program_id },
    )
}

/// Plans a mint with a metadata pointer to any metadata account.
pub fn create_mint_with_metadata_pointer(
    payer: Key,
    mint: Key,
    mint_authority: Key,
    authority: Option<Key>,
    metadata_address: Option<Key>,
    decimals: u8,
    lamports: u64,
) -> (r: Result<CreationPlan, TokenExtensionError>)
    requires
        spec_opt_key_encodable(authority),
        spec_opt_key_encodable(metadata_address),
    ensures
        r is Ok,
        r matches Ok(plan) ==> spec_single_ext_plan(
            plan,
            payer,
            mint,
            mint_authority,
            None,
            decimals,
            lamports,
            MintExtParams::MetadataPointer { authority, address: metadata_address },
        ),
{
    single_ext_mint_plan(
        payer,
        mint,
        mint_authority,
        None,
        decimals,
        lamports,
        MintExtParams::MetadataPointer { authority, address: metadata_address },
    )
}

/// Plans a mint with a group pointer to any group account.
pub fn create_mint_with_group_pointer(
    payer: Key,
    mint: Key,
    mint_authority: Key,
    authority: Option<Key>,
    group_address: Option<Key>,
    decimals: u8,
    lamports: u64,
) -> (r: Result<CreationPlan, TokenExtensionError>)
    requires
        spec_opt_key_encodable(authority),
        spec_opt_key_encodable(group_address),
    ensures
        r is Ok,
        r matches Ok(plan) ==> spec_single_ext_plan(
            plan,
            payer,
            mint,
            mint_authority,
            None,
            decimals,
            lamports,
            MintExtParams::GroupPointer { authority, address: group_address },
        ),
{
    single_ext_mint_plan(
        payer,
        mint,
        mint_authority,
        None,
        decimals,
        lamports,
        MintExtParams::GroupPointer { authority, address: group_address },
    )
}

/// Plans a mint with a group-member pointer to any member account.
pub fn create_mint_with_member_pointer(
    payer: Key,
    mint: Key,
    mint_authority: Key,
    authority: Option<Key>,
    member_address: Option<Key>,
    decimals: u8,
    lamports: u64,
) -> (r: Result<CreationPlan, TokenExtensionError>)
    requires
        spec_opt_key_encodable(authority),
        spec_opt_key_encodable(member_address),
    ensures
        r is Ok,
        r matches Ok(plan) ==> spec_single_ext_plan(
            plan,
            payer,
            mint,
            mint_authority,
            None,
            decimals,
            lamports,
            MintExtParams::MemberPointer { authority, address: member_address },
        ),
{
    single_ext_mint_plan(
        payer,
        mint,
        mint_authority,
        None,
        decimals,
        lamports,
        MintExtParams::MemberPointer { authority, address: member_address },
    )
}

/// Plans a mint whose presented amounts are scaled by a multiplier, recorded
/// as binary64 bits; the bits must name a positive, finite, nonzero number.
/// The block's instruction is built by the ledger-facing layer.
pub fn create_mint_with_scaled_ui_amount(
    payer: Key,
    mint: Key,
    mint_authority: Key,
    authority: Option<Key>,
    multiplier_bits: u64,
    decimals: u8,
    lamports: u64,
) -> (r: Result<CreationPlan, TokenExtensionError>)
    ensures
        r is Ok <==> crate::fees::spec_multiplier_bits_valid(multiplier_bits),
        r matches Err(e) ==> e == TokenExtensionError::InvalidUiAmountMultiplier,
        r matches Ok(plan) ==> spec_single_ext_plan(
            plan,
            payer,
            mint,
            mint_authority,
            None,
            decimals,
            lamports,
            MintExtParams::ScaledUiAmount { authority, multiplier_bits },
        ),
{
    single_ext_mint_plan(
        payer,
        mint,
        mint_authority,
        None,
        decimals,
        lamports,
        MintExtParams::ScaledUiAmount { authority, multiplier_bits },
    )
}

/// Plans a mint whose transfers can be paused by its pause authority; the
/// mint authority takes that role.
pub fn create_pausable_mint(
    payer: Key,
    mint: Key,
    mint_authority: Key,
    decimals: u8,
    lamports: u64,
) -> (r: Result<CreationPlan, TokenExtensionError>)
    ensures
        r is Ok,
        r matches Ok(plan) ==> spec_single_ext_plan(
            plan,
            payer,
            mint,
            mint_authority,
            None,
            decimals,
            lamports,
            MintExtParams::Pausable { authority: mint_authority },
        ),
{
    single_ext_mint_plan(
        payer,
        mint,
        mint_authority,
        None,
        decimals,
        lamports,
        MintExtParams::Pausable { authority: mint_authority },
    )
}

/// Shape of a four-step plan creating a mint that carries an interface
/// payload: provision, pointer block, base record, then the payload, which
/// the base initializer must precede.
pub open spec fn spec_payload_plan(
    plan: CreationPlan,
    payer: Key,
    mint: Key,
    mint_authority: Key,
    lamports: u64,
    sized_kinds: Seq<ExtensionKind>,
    pointer: MintExtParams,
    decimals: u8,
    payload_desc: StepDesc,
    payload_instr: Option<Instruction>,
) -> bool {
    &&& plan.space == spec_required_space(RecordKind::Mint, sized_kinds)
    &&& plan.steps@.len() == 4
    &&& plan.steps@[0].desc == (StepDesc::Provision {
        payer,
        account: mint,
        lamports,
        space: plan.space,
    })
    &&& plan.steps@[0].instr == Some(trusted::create_account_instr(payer, mint, lamports, plan.space))
    &&& plan.steps@[1].desc == (StepDesc::InitMintExtension { params: pointer })
    &&& plan.steps@[1].instr == spec_mint_ext_instr(mint, mint_authority, pointer)
    &&& plan.steps@[2].desc == (StepDesc::InitMintBase {
        mint_authority,
        freeze_authority: None,
        decimals,
    })
    &&& plan.steps@[2].instr == Some(
        trusted::init_mint2_instr(mint, mint_authority, None, decimals),
    )
    &&& plan.steps@[3].desc == payload_desc
    &&& plan.steps@[3].instr == payload_instr
}

/// Builds a four-step payload-bearing plan from prepared pieces.
fn payload_mint_plan(
    payer: Key,
    mint: Key,
    mint_authority: Key,
    lamports: u64,
    space: u64,
    pointer: MintExtParams,
    decimals: u8,
    payload_step: PlanStep,
) -> (plan: CreationPlan)
    requires
        spec_params_encodable(pointer),
        spec_domain_error(pointer) is None,
    ensures
        plan.space == space,
        plan.steps@.len() == 4,
        plan.steps@[0].desc == (StepDesc::Provision { payer, account: mint, lamports, space }),
        plan.steps@[0].instr == Some(trusted::create_account_instr(payer, mint, lamports, space)),
        plan.steps@[1].desc == (StepDesc::InitMintExtension { params: pointer }),
        plan.steps@[1].instr == spec_mint_ext_instr(mint, mint_authority, pointer),
        plan.steps@[2].desc == (StepDesc::InitMintBase {
            mint_authority,
            freeze_authority: None,
            decimals,
        }),
        plan.steps@[2].instr == Some(
            trusted::init_mint2_instr(mint, mint_authority, None, decimals),
        ),
        plan.steps@[3].desc == payload_step.desc,
        plan.steps@[3].instr == payload_step.instr,
{
    let create = trusted::build_create_account(&payer, &mint, lamports, space);
    let ptr_instr = mint_ext_init_instruction(&mint, &mint_authority, &pointer);
    let base = trusted::build_init_mint2(&mint, &mint_authority, &None, decimals);
    let mut steps: Vec<PlanStep> = Vec::new();
    steps.push(
        PlanStep {
            desc: StepDesc::Provision { payer, account: mint, lamports, space },
            instr: Some(create),
        },
    );
    steps.push(PlanStep { desc: StepDesc::InitMintExtension { params: pointer }, instr: ptr_instr });
    steps.push(
        PlanStep {
            desc: StepDesc::InitMintBase { mint_authority, freeze_authority: None, decimals },
            instr: Some(base),
        },
    );
    steps.push(payload_step);
    CreationPlan { space, steps }
}

/// Plans a mint carrying its own metadata: a self-referential metadata
/// pointer before the base record, the metadata payload after it. The
/// metadata block is variable-length and reallocated by the token service,
/// so only the pointer is sized here.
pub fn create_mint_with_metadata(
    payer: Key,
    mint: Key,
    mint_authority: Key,
    name: String,
    symbol: String,
    uri: String,
    decimals: u8,
    lamports: u64,
) -> (r: Result<CreationPlan, TokenExtensionError>)
    requires
        !mint.spec_is_zero(),
        !mint_authority.spec_is_zero(),
    ensures
        r is Ok,
        r matches Ok(plan) ==> spec_payload_plan(
            plan,
            payer,
            mint,
            mint_authority,
            lamports,
            seq![ExtensionKind::MetadataPointer],
            MintExtParams::MetadataPointer {
                authority: Some(mint_authority),
                address: Some(mint),
            },
            decimals,
            StepDesc::InitMintExtension {
                params: MintExtParams::Metadata {
                    update_authority: mint_authority,
                    name,
                    symbol,
                    uri,
                },
            },
            Some(
                trusted::init_token_metadata_instr(
                    mint,
                    mint_authority,
                    mint_authority,
                    name@,
                    symbol@,
                    uri@,
                ),
            ),
        ),
{
    let mut kinds: Vec<ExtensionKind> = Vec::new();
    kinds.push(ExtensionKind::MetadataPointer);
    proof {
        assert(kinds@ =~= seq![ExtensionKind::MetadataPointer]);
    }
    let space = trusted::spl_mint_account_len(&kinds);
    let md_instr = trusted::build_init_token_metadata(
        &mint,
        &mint_authority,
        &mint_authority,
        &name,
        &symbol,
        &uri,
    );
    let payload_step = PlanStep {
        desc: StepDesc::InitMintExtension {
            params: MintExtParams::Metadata { update_authority: mint_authority, name, symbol, uri },
        },
        instr: Some(md_instr),
    };
    let pointer = MintExtParams::MetadataPointer {
        authority: Some(mint_authority),
        address: Some(mint),
    };
    Ok(
        payload_mint_plan(
            payer,
            mint,
            mint_authority,
            lamports,
            space,
            pointer,
            decimals,
            payload_step,
        ),
    )
}

/// Plans a mint that is its own token group: a self-referential group
/// pointer before the base record, the group payload after it. Both blocks
/// are sized at creation.
pub fn create_mint_with_group(
    payer: Key,
    mint: Key,
    mint_authority: Key,
    update_authority: Option<Key>,
    max_size: u32,
    decimals: u8,
    lamports: u64,
) -> (r: Result<CreationPlan, TokenExtensionError>)
    requires
        !mint.spec_is_zero(),
        spec_opt_key_encodable(update_authority),
    ensures
        r is Ok,
        r matches Ok(plan) ==> spec_payload_plan(
            plan,
            payer,
            mint,
            mint_authority,
            lamports,
            seq![ExtensionKind::GroupPointer, ExtensionKind::Group],
            MintExtParams::GroupPointer { authority: update_authority, address: Some(mint) },
            decimals,
            StepDesc::InitMintExtension {
                params: MintExtParams::Group { update_authority, max_size },
            },
            Some(
                trusted::init_group_instr(mint, mint, mint_authority, update_authority, max_size),
            ),
        ),
{
    let mut kinds: Vec<ExtensionKind> = Vec::new();
    kinds.push(ExtensionKind::GroupPointer);
    kinds.push(ExtensionKind::Group);
    proof {
        assert(kinds@ =~= seq![ExtensionKind::GroupPointer, ExtensionKind::Group]);
    }
    let space = trusted::spl_mint_account_len(&kinds);
    let group_instr = trusted::build_init_group(
        &mint,
        &mint,
        &mint_authority,
        &update_authority,
        max_size,
    );
    let payload_step = PlanStep {
        desc: StepDesc::InitMintExtension {
            params: MintExtParams::Group { update_authority, max_size },
        },
        instr: Some(group_instr),
    };
    let pointer = MintExtParams::GroupPointer { authority: update_authority, address: Some(mint) };
    Ok(
        payload_mint_plan(
            payer,
            mint,
            mint_authority,
            lamports,
            space,
            pointer,
            decimals,
            payload_step,
        ),
    )
}

/// Plans a mint that joins an existing token group as a member: a
/// self-referential member pointer before the base record, the member
/// payload after it; the group's update authority must co-sign the join.
pub fn create_mint_with_member(
    payer: Key,
    mint: Key,
    mint_authority: Key,
    group: Key,
    group_update_authority: Key,
    decimals: u8,
    lamports: u64,
) -> (r: Result<CreationPlan, TokenExtensionError>)
    requires
        !mint.spec_is_zero(),
        !mint_authority.spec_is_zero(),
    ensures
        r is Ok,
        r matches Ok(plan) ==> spec_payload_plan(
            plan,
            payer,
            mint,
            mint_authority,
            lamports,
            seq![ExtensionKind::GroupMemberPointer, ExtensionKind::GroupMember],
            MintExtParams::MemberPointer {
                authority: Some(mint_authority),
                address: Some(mint),
            },
            decimals,
            StepDesc::InitMember {
                member_mint_authority: mint_authority,
                group,
                group_update_authority,
            },
            Some(trusted::init_member_instr(mint, mint_authority, group, group_update_authority)),
        ),
{
    let mut kinds: Vec<ExtensionKind> = Vec::new();
    kinds.push(ExtensionKind::GroupMemberPointer);
    kinds.push(ExtensionKind::GroupMember);
    proof {
        assert(kinds@ =~= seq![ExtensionKind::GroupMemberPointer, ExtensionKind::GroupMember]);
    }
    let space = trusted::spl_mint_account_len(&kinds);
    let member_instr = trusted::build_init_member(
        &mint,
        &mint_authority,
        &group,
        &group_update_authority,
    );
    let payload_step = PlanStep {
        desc: StepDesc::InitMember {
            member_mint_authority: mint_authority,
            group,
            group_update_authority,
        },
        instr: Some(member_instr),
    };
    let pointer = MintExtParams::MemberPointer {
        authority: Some(mint_authority),
        address: Some(mint),
    };
    Ok(
        payload_mint_plan(
            payer,
            mint,
            mint_authority,
            lamports,
            space,
            pointer,
            decimals,
            payload_step,
        ),
    )
}

/// Plans a token account whose owner can never be reassigned: provision,
/// the immutable-owner block, then the base record.
pub fn create_account_with_immutable_owner(
    payer: Key,
    token_account: Key,
    mint: Key,
    owner: Key,
    lamports: u64,
) -> (r: Result<CreationPlan, TokenExtensionError>)
    ensures
        r is Ok,
        r matches Ok(plan) ==> {
            &&& plan.space == spec_required_space(
                RecordKind::TokenAccount,
                seq![ExtensionKind::ImmutableOwner],
            )
            &&& plan.steps@.len() == 3
            &&& plan.steps@[0].desc == (StepDesc::Provision {
                payer,
                account: token_account,
                lamports,
                space: plan.space,
            })
            &&& plan.steps@[0].instr == Some(
                trusted::create_account_instr(payer, token_account, lamports, plan.space),
            )
            &&& plan.steps@[1].desc == (StepDesc::InitTokenExtension {
                params: TokenExtParams::ImmutableOwner,
            })
            &&& plan.steps@[1].instr == Some(trusted::init_immutable_owner_instr(token_account))
            &&& plan.steps@[2].desc == (StepDesc::InitTokenBase { owner, mint })
            &&& plan.steps@[2].instr == Some(
                trusted::init_account3_instr(token_account, mint, owner),
            )
        },
{
    let mut kinds: Vec<ExtensionKind> = Vec::new();
    kinds.push(ExtensionKind::ImmutableOwner);
    proof {
        assert(kinds@ =~= seq![ExtensionKind::ImmutableOwner]);
    }
    let space = trusted::spl_token_account_len(&kinds);
    let create = trusted::build_create_account(&payer, &token_account, lamports, space);
    let ext = trusted::build_init_immutable_owner(&token_account);
    let base = trusted::build_init_account3(&token_account, &mint, &owner);
    let mut steps: Vec<PlanStep> = Vec::new();
    steps.push(
        PlanStep {
            desc: StepDesc::Provision { payer, account: token_account, lamports, space },
            instr: Some(create),
        },
    );
    steps.push(
        PlanStep {
            desc: StepDesc::InitTokenExtension { params: TokenExtParams::ImmutableOwner },
            instr: Some(ext),
        },
    );
    steps.push(
        PlanStep { desc: StepDesc::InitTokenBase { owner, mint }, instr: Some(base) },
    );
    Ok(CreationPlan { space, steps })
}

/// Plans a token account that will demand memos on incoming transfers:
/// provision sized for the memo block, the base record, then the enable
/// call, which the owner signs on the live account.
pub fn create_account_with_required_memo(
    payer: Key,
    token_account: Key,
    mint: Key,
    owner: Key,
    lamports: u64,
) -> (r: Result<CreationPlan, TokenExtensionError>)
    ensures
        r is Ok,
        r matches Ok(plan) ==> {
            &&& plan.space == spec_required_space(
                RecordKind::TokenAccount,
                seq![ExtensionKind::RequiredMemo],
            )
            &&& plan.steps@.len() == 3
            &&& plan.steps@[0].desc == (StepDesc::Provision {
                payer,
                account: token_account,
                lamports,
                space: plan.space,
            })
            &&& plan.steps@[0].instr == Some(
                trusted::create_account_instr(payer, token_account, lamports, plan.space),
            )
            &&& plan.steps@[1].desc == (StepDesc::InitTokenBase { owner, mint })
            &&& plan.steps@[1].instr == Some(
                trusted::init_account3_instr(token_account, mint, owner),
            )
            &&& plan.steps@[2].desc == (StepDesc::EnableMemo { owner })
            &&& plan.steps@[2].instr == Some(trusted::enable_memo_instr(token_account, owner))
        },
{
    let mut kinds: Vec<ExtensionKind> = Vec::new();
    kinds.push(ExtensionKind::RequiredMemo);
    proof {
        assert(kinds@ =~= seq![ExtensionKind::RequiredMemo]);
    }
    let space = trusted::spl_token_account_len(&kinds);
    let create = trusted::build_create_account(&payer, &token_account, lamports, space);
    let base = trusted::build_init_account3(&token_account, &mint, &owner);
    let enable = trusted::build_enable_memo(&token_account, &owner);
    let mut steps: Vec<PlanStep> = Vec::new();
    steps.push(
        PlanStep {
            desc: StepDesc::Provision { payer, account: token_account, lamports, space },
            instr: Some(create),
        },
    );
    steps.push(
        PlanStep { desc: StepDesc::InitTokenBase { owner, mint }, instr: Some(base) },
    );
    steps.push(PlanStep { desc: StepDesc::EnableMemo { owner }, instr: Some(enable) });
    Ok(CreationPlan { space, steps })
}

} // verus!
