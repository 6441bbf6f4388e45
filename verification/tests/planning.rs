//! Tests of the layout planner and the creation plans: the computed sizes
//! are held against the token service's own calculator, and the planned
//! instructions against the service's own encoders.

use solana_address::Address;
use spl_token_2022::extension::ExtensionType;

use token_extensions::errors::TokenExtensionError;
use token_extensions::keys::Key;
use token_extensions::kinds::ExtensionKind;
use token_extensions::kinds::RecordKind;
use token_extensions::mint_model::MintExtParams;
use token_extensions::mint_model::MintModel;
use token_extensions::plan;
use token_extensions::plan::StepDesc;

fn addr(k: &Key) -> Address {
    let mut b = [0u8; 32];
    b[0..8].copy_from_slice(&k.w0.to_le_bytes());
    b[8..16].copy_from_slice(&k.w1.to_le_bytes());
    b[16..24].copy_from_slice(&k.w2.to_le_bytes());
    b[24..32].copy_from_slice(&k.w3.to_le_bytes());
    Address::new_from_array(b)
}

fn spl_mint_len(kinds: &[ExtensionType]) -> u64 {
    ExtensionType::try_calculate_account_len::<spl_token_2022::state::Mint>(kinds).unwrap() as u64
}

fn spl_account_len(kinds: &[ExtensionType]) -> u64 {
    ExtensionType::try_calculate_account_len::<spl_token_2022::state::Account>(kinds).unwrap()
        as u64
}

#[test]
fn sizes_match_the_token_service_for_every_sized_kind() {
    let all = [
        ExtensionKind::TransferFee,
        ExtensionKind::DefaultAccountState,
        ExtensionKind::ImmutableOwner,
        ExtensionKind::NonTransferable,
        ExtensionKind::RequiredMemo,
        ExtensionKind::InterestBearing,
        ExtensionKind::PermanentDelegate,
        ExtensionKind::CpiGuard,
        ExtensionKind::TransferHook,
        ExtensionKind::MetadataPointer,
        ExtensionKind::GroupPointer,
        ExtensionKind::Group,
        ExtensionKind::GroupMemberPointer,
        ExtensionKind::GroupMember,
        ExtensionKind::ScaledUiAmount,
        ExtensionKind::Pausable,
        ExtensionKind::MintCloseAuthority,
    ];
    for k in all {
        let record = if k.applicable_to(RecordKind::Mint) {
            RecordKind::Mint
        } else {
            RecordKind::TokenAccount
        };
        // a payload kind is only legal together with its pointer kind
        let mut request = Vec::new();
        if let Some(ptr) = k.pointer_kind() {
            request.push(ptr);
        }
        request.push(k);
        let ours = plan::compute_extension_space(record, &request).unwrap();
        let mut spl_request = Vec::new();
        for r in &request {
            spl_request.push(ExtensionType::try_from(r.type_code()).unwrap());
        }
        let theirs = match record {
            RecordKind::Mint => spl_mint_len(&spl_request),
            RecordKind::TokenAccount => spl_account_len(&spl_request),
        };
        assert_eq!(ours, theirs);
    }
}

#[test]
fn known_sizes_are_exact() {
    assert_eq!(
        plan::compute_extension_space(RecordKind::Mint, &vec![ExtensionKind::TransferFee])
            .unwrap(),
        278
    );
    assert_eq!(
        plan::compute_extension_space(RecordKind::Mint, &vec![ExtensionKind::MintCloseAuthority])
            .unwrap(),
        202
    );
    assert_eq!(
        plan::compute_extension_space(
            RecordKind::TokenAccount,
            &vec![ExtensionKind::ImmutableOwner]
        )
        .unwrap(),
        170
    );
    // no extensions: the bare base records
    assert_eq!(plan::compute_extension_space(RecordKind::Mint, &vec![]).unwrap(), 82);
    assert_eq!(plan::compute_extension_space(RecordKind::TokenAccount, &vec![]).unwrap(), 165);
}

#[test]
fn multisig_collision_is_padded() {
    // 166 + 112 + 68 + 5 + 4 = 355, the multisig length, padded to 357
    let kinds = vec![
        ExtensionKind::TransferFee,
        ExtensionKind::TransferHook,
        ExtensionKind::DefaultAccountState,
        ExtensionKind::NonTransferable,
    ];
    let ours = plan::compute_extension_space(RecordKind::Mint, &kinds).unwrap();
    assert_eq!(ours, 357);
    let theirs = spl_mint_len(&[
        ExtensionType::TransferFeeConfig,
        ExtensionType::TransferHook,
        ExtensionType::DefaultAccountState,
        ExtensionType::NonTransferable,
    ]);
    assert_eq!(ours, theirs);
}

#[test]
fn inapplicable_kind_is_rejected() {
    assert_eq!(
        plan::compute_extension_space(RecordKind::Mint, &vec![ExtensionKind::CpiGuard]),
        Err(TokenExtensionError::InvalidExtensionType)
    );
    assert_eq!(
        plan::compute_extension_space(
            RecordKind::TokenAccount,
            &vec![ExtensionKind::TransferFee]
        ),
        Err(TokenExtensionError::InvalidExtensionType)
    );
}

#[test]
fn duplicate_kind_is_rejected() {
    assert_eq!(
        plan::compute_extension_space(
            RecordKind::Mint,
            &vec![ExtensionKind::TransferFee, ExtensionKind::TransferFee]
        ),
        Err(TokenExtensionError::ExtensionAlreadyInitialized)
    );
}

#[test]
fn metadata_without_pointer_is_rejected() {
    assert_eq!(
        plan::compute_extension_space(RecordKind::Mint, &vec![ExtensionKind::Metadata]),
        Err(TokenExtensionError::InvalidExtensionType)
    );
    // with its pointer the request passes, sized for the pointer alone
    assert_eq!(
        plan::compute_extension_space(
            RecordKind::Mint,
            &vec![ExtensionKind::MetadataPointer, ExtensionKind::Metadata]
        )
        .unwrap(),
        234
    );
}

#[test]
fn transfer_fee_plan_encodes_the_service_instructions() {
    let payer = Key::from_u64(1);
    let mint = Key::from_u64(2);
    let mint_authority = Key::from_u64(3);
    let cfg = Some(Key::from_u64(4));
    let wh = Some(Key::from_u64(5));
    let plan = plan::create_mint_with_transfer_fee(
        payer, mint, mint_authority, cfg, wh, 100, 1000, 6, 12345,
    )
    .unwrap();
    assert_eq!(plan.space, 278);
    assert_eq!(plan.steps.len(), 3);

    let expect_create = solana_system_interface::instruction::create_account(
        &addr(&payer),
        &addr(&mint),
        12345,
        278,
        &spl_token_2022::id(),
    );
    assert_eq!(plan.steps[0].instr.as_ref().unwrap(), &expect_create);

    let expect_fee =
        spl_token_2022::extension::transfer_fee::instruction::initialize_transfer_fee_config(
            &spl_token_2022::id(),
            &addr(&mint),
            Some(&addr(&Key::from_u64(4))),
            Some(&addr(&Key::from_u64(5))),
            100,
            1000,
        )
        .unwrap();
    assert_eq!(plan.steps[1].instr.as_ref().unwrap(), &expect_fee);

    let expect_base = spl_token_2022::instruction::initialize_mint2(
        &spl_token_2022::id(),
        &addr(&mint),
        &addr(&mint_authority),
        None,
        6,
    )
    .unwrap();
    assert_eq!(plan.steps[2].instr.as_ref().unwrap(), &expect_base);
}

#[test]
fn excessive_basis_points_are_rejected() {
    let r = plan::create_mint_with_transfer_fee(
        Key::from_u64(1),
        Key::from_u64(2),
        Key::from_u64(3),
        None,
        None,
        10_001,
        1000,
        6,
        1,
    );
    assert_eq!(r.err(), Some(TokenExtensionError::InvalidTransferFeeConfig));
}

#[test]
fn metadata_plan_orders_pointer_base_payload() {
    let payer = Key::from_u64(1);
    let mint = Key::from_u64(2);
    let authority = Key::from_u64(3);
    let plan = plan::create_mint_with_metadata(
        payer,
        mint,
        authority,
        String::from("tok"),
        String::from("TOK"),
        String::from("https://example.invalid/tok"),
        6,
        777,
    )
    .unwrap();
    assert_eq!(plan.space, 234);
    assert_eq!(plan.steps.len(), 4);
    assert!(matches!(plan.steps[0].desc, StepDesc::Provision { .. }));
    assert!(matches!(
        plan.steps[1].desc,
        StepDesc::InitMintExtension { params: MintExtParams::MetadataPointer { .. } }
    ));
    assert!(matches!(plan.steps[2].desc, StepDesc::InitMintBase { .. }));
    assert!(matches!(
        plan.steps[3].desc,
        StepDesc::InitMintExtension { params: MintExtParams::Metadata { .. } }
    ));
    let expect_md = spl_token_metadata_interface::instruction::initialize(
        &spl_token_2022::id(),
        &addr(&mint),
        &addr(&authority),
        &addr(&mint),
        &addr(&authority),
        String::from("tok"),
        String::from("TOK"),
        String::from("https://example.invalid/tok"),
    );
    assert_eq!(plan.steps[3].instr.as_ref().unwrap(), &expect_md);
}

#[test]
fn group_plan_sizes_pointer_and_group_together() {
    let plan = plan::create_mint_with_group(
        Key::from_u64(1),
        Key::from_u64(2),
        Key::from_u64(3),
        Some(Key::from_u64(4)),
        10,
        0,
        1,
    )
    .unwrap();
    assert_eq!(plan.space, 318);
    assert_eq!(plan.steps.len(), 4);
    let expect_group = spl_token_group_interface::instruction::initialize_group(
        &spl_token_2022::id(),
        &addr(&Key::from_u64(2)),
        &addr(&Key::from_u64(2)),
        &addr(&Key::from_u64(3)),
        Some(addr(&Key::from_u64(4))),
        10,
    );
    assert_eq!(plan.steps[3].instr.as_ref().unwrap(), &expect_group);
}

#[test]
fn member_plan_carries_the_join_instruction() {
    let mint = Key::from_u64(2);
    let mint_authority = Key::from_u64(3);
    let group = Key::from_u64(9);
    let group_authority = Key::from_u64(10);
    let plan = plan::create_mint_with_member(
        Key::from_u64(1),
        mint,
        mint_authority,
        group,
        group_authority,
        0,
        1,
    )
    .unwrap();
    assert_eq!(plan.space, 310);
    assert_eq!(plan.steps.len(), 4);
    assert!(matches!(plan.steps[3].desc, StepDesc::InitMember { .. }));
    let expect_member = spl_token_group_interface::instruction::initialize_member(
        &spl_token_2022::id(),
        &addr(&mint),
        &addr(&mint),
        &addr(&mint_authority),
        &addr(&group),
        &addr(&group_authority),
    );
    assert_eq!(plan.steps[3].instr.as_ref().unwrap(), &expect_member);
}

#[test]
fn scaled_ui_plan_leaves_its_block_instruction_to_the_dispatcher() {
    let two = 2.0f64.to_bits();
    let plan = plan::create_mint_with_scaled_ui_amount(
        Key::from_u64(1),
        Key::from_u64(2),
        Key::from_u64(3),
        None,
        two,
        6,
        1,
    )
    .unwrap();
    assert_eq!(plan.steps.len(), 3);
    assert!(plan.steps[0].instr.is_some());
    assert!(plan.steps[1].instr.is_none());
    assert!(plan.steps[2].instr.is_some());
    assert!(matches!(
        plan.steps[1].desc,
        StepDesc::InitMintExtension { params: MintExtParams::ScaledUiAmount { .. } }
    ));
}

#[test]
fn immutable_owner_account_plan_matches_the_service() {
    let payer = Key::from_u64(1);
    let account = Key::from_u64(2);
    let mint = Key::from_u64(3);
    let owner = Key::from_u64(4);
    let plan =
        plan::create_account_with_immutable_owner(payer, account, mint, owner, 55).unwrap();
    assert_eq!(plan.space, 170);
    assert_eq!(plan.steps.len(), 3);
    let expect_ext = spl_token_2022::instruction::initialize_immutable_owner(
        &spl_token_2022::id(),
        &addr(&account),
    )
    .unwrap();
    assert_eq!(plan.steps[1].instr.as_ref().unwrap(), &expect_ext);
    let expect_base = spl_token_2022::instruction::initialize_account3(
        &spl_token_2022::id(),
        &addr(&account),
        &addr(&mint),
        &addr(&owner),
    )
    .unwrap();
    assert_eq!(plan.steps[2].instr.as_ref().unwrap(), &expect_base);
}

#[test]
fn required_memo_account_plan_enables_after_base() {
    let payer = Key::from_u64(1);
    let account = Key::from_u64(2);
    let mint = Key::from_u64(3);
    let owner = Key::from_u64(4);
    let plan = plan::create_account_with_required_memo(payer, account, mint, owner, 55).unwrap();
    // memo block: 166 + 4 + 1 = 171
    assert_eq!(plan.space, 171);
    assert_eq!(plan.steps.len(), 3);
    assert!(matches!(plan.steps[1].desc, StepDesc::InitTokenBase { .. }));
    assert!(matches!(plan.steps[2].desc, StepDesc::EnableMemo { .. }));
    let expect_enable =
        spl_token_2022::extension::memo_transfer::instruction::enable_required_transfer_memos(
            &spl_token_2022::id(),
            &addr(&account),
            &addr(&owner),
            &[],
        )
        .unwrap();
    assert_eq!(plan.steps[2].instr.as_ref().unwrap(), &expect_enable);
}

#[test]
fn pausable_plan_uses_the_mint_authority_as_pause_authority() {
    let plan =
        plan::create_pausable_mint(Key::from_u64(1), Key::from_u64(2), Key::from_u64(3), 0, 1)
            .unwrap();
    // pausable block: 166 + 4 + 33 = 203
    assert_eq!(plan.space, 203);
    let expect = spl_token_2022::extension::pausable::instruction::initialize(
        &spl_token_2022::id(),
        &addr(&Key::from_u64(2)),
        &addr(&Key::from_u64(3)),
    )
    .unwrap();
    assert_eq!(plan.steps[1].instr.as_ref().unwrap(), &expect);
}

#[test]
fn single_extension_block_instructions_match_the_service() {
    let payer = Key::from_u64(1);
    let mint = Key::from_u64(2);
    let auth = Key::from_u64(3);
    let id = spl_token_2022::id();

    let p = plan::create_mint_with_close_authority(payer, mint, auth, Key::from_u64(7), 0, 1)
        .unwrap();
    let expect = spl_token_2022::instruction::initialize_mint_close_authority(
        &id,
        &addr(&mint),
        Some(&addr(&Key::from_u64(7))),
    )
    .unwrap();
    assert_eq!(p.steps[1].instr.as_ref().unwrap(), &expect);

    let p = plan::create_mint_with_default_state(payer, mint, auth, 2, 0, 1).unwrap();
    let expect =
        spl_token_2022::extension::default_account_state::instruction::initialize_default_account_state(
            &id,
            &addr(&mint),
            &spl_token_2022::state::AccountState::Frozen,
        )
        .unwrap();
    assert_eq!(p.steps[1].instr.as_ref().unwrap(), &expect);

    let p = plan::create_non_transferable_mint(payer, mint, auth, 0, 1).unwrap();
    let expect =
        spl_token_2022::instruction::initialize_non_transferable_mint(&id, &addr(&mint)).unwrap();
    assert_eq!(p.steps[1].instr.as_ref().unwrap(), &expect);

    let p = plan::create_interest_bearing_mint(payer, mint, auth, Some(Key::from_u64(8)), 75, 0, 1)
        .unwrap();
    let expect = spl_token_2022::extension::interest_bearing_mint::instruction::initialize(
        &id,
        &addr(&mint),
        Some(addr(&Key::from_u64(8))),
        75,
    )
    .unwrap();
    assert_eq!(p.steps[1].instr.as_ref().unwrap(), &expect);

    let p = plan::create_mint_with_permanent_delegate(payer, mint, auth, Key::from_u64(9), 0, 1)
        .unwrap();
    let expect = spl_token_2022::instruction::initialize_permanent_delegate(
        &id,
        &addr(&mint),
        &addr(&Key::from_u64(9)),
    )
    .unwrap();
    assert_eq!(p.steps[1].instr.as_ref().unwrap(), &expect);

    let p = plan::create_mint_with_transfer_hook(
        payer,
        mint,
        auth,
        Some(Key::from_u64(10)),
        Some(Key::from_u64(11)),
        0,
        1,
    )
    .unwrap();
    let expect = spl_token_2022::extension::transfer_hook::instruction::initialize(
        &id,
        &addr(&mint),
        Some(addr(&Key::from_u64(10))),
        Some(addr(&Key::from_u64(11))),
    )
    .unwrap();
    assert_eq!(p.steps[1].instr.as_ref().unwrap(), &expect);

    let p = plan::create_mint_with_metadata_pointer(
        payer,
        mint,
        auth,
        Some(Key::from_u64(12)),
        Some(Key::from_u64(13)),
        0,
        1,
    )
    .unwrap();
    let expect = spl_token_2022::extension::metadata_pointer::instruction::initialize(
        &id,
        &addr(&mint),
        Some(addr(&Key::from_u64(12))),
        Some(addr(&Key::from_u64(13))),
    )
    .unwrap();
    assert_eq!(p.steps[1].instr.as_ref().unwrap(), &expect);

    let p = plan::create_mint_with_group_pointer(
        payer,
        mint,
        auth,
        Some(Key::from_u64(14)),
        Some(Key::from_u64(15)),
        0,
        1,
    )
    .unwrap();
    let expect = spl_token_2022::extension::group_pointer::instruction::initialize(
        &id,
        &addr(&mint),
        Some(addr(&Key::from_u64(14))),
        Some(addr(&Key::from_u64(15))),
    )
    .unwrap();
    assert_eq!(p.steps[1].instr.as_ref().unwrap(), &expect);

    let p = plan::create_mint_with_member_pointer(
        payer,
        mint,
        auth,
        Some(Key::from_u64(16)),
        Some(Key::from_u64(17)),
        0,
        1,
    )
    .unwrap();
    let expect = spl_token_2022::extension::group_member_pointer::instruction::initialize(
        &id,
        &addr(&mint),
        Some(addr(&Key::from_u64(16))),
        Some(addr(&Key::from_u64(17))),
    )
    .unwrap();
    assert_eq!(p.steps[1].instr.as_ref().unwrap(), &expect);
}

fn replay(plan: &plan::CreationPlan) -> MintModel {
    let mut m: Option<MintModel> = None;
    for step in &plan.steps {
        match &step.desc {
            StepDesc::Provision { space, .. } => {
                m = Some(MintModel::provisioned(*space));
            }
            StepDesc::InitMintExtension { params } => {
                m.as_mut().unwrap().init_extension(params.clone()).unwrap();
            }
            StepDesc::InitMintBase { mint_authority, freeze_authority, decimals } => {
                m.as_mut()
                    .unwrap()
                    .init_base(*mint_authority, *freeze_authority, *decimals)
                    .unwrap();
            }
            _ => panic!("step outside the mint creation protocol"),
        }
    }
    m.unwrap()
}

#[test]
fn replayed_transfer_fee_plan_builds_the_planned_mint() {
    let plan = plan::create_mint_with_transfer_fee(
        Key::from_u64(1),
        Key::from_u64(2),
        Key::from_u64(3),
        None,
        Some(Key::from_u64(5)),
        250,
        9999,
        4,
        1,
    )
    .unwrap();
    let m = replay(&plan);
    assert!(m.base_initialized);
    assert_eq!(m.decimals, 4);
    let fee = m.transfer_fee.unwrap();
    assert_eq!(fee.basis_points, 250);
    assert_eq!(fee.maximum_fee, 9999);
    assert_eq!(fee.withdraw_authority, Some(Key::from_u64(5)));
    assert_eq!(m.init_order, vec![ExtensionKind::TransferFee]);
}

#[test]
fn replayed_metadata_plan_orders_all_four_steps() {
    let plan = plan::create_mint_with_metadata(
        Key::from_u64(1),
        Key::from_u64(2),
        Key::from_u64(3),
        String::from("tok"),
        String::from("TOK"),
        String::from("u"),
        0,
        1,
    )
    .unwrap();
    let m = replay(&plan);
    assert!(m.base_initialized);
    assert_eq!(
        m.init_order,
        vec![ExtensionKind::MetadataPointer, ExtensionKind::Metadata]
    );
    assert_eq!(m.metadata.unwrap().name, "tok");
}

#[test]
fn default_state_plan_keeps_a_freeze_authority() {
    let plan = plan::create_mint_with_default_state(
        Key::from_u64(1),
        Key::from_u64(2),
        Key::from_u64(3),
        2,
        6,
        1,
    )
    .unwrap();
    assert!(matches!(
        plan.steps[2].desc,
        StepDesc::InitMintBase { freeze_authority: Some(_), .. }
    ));
    assert_eq!(
        plan::create_mint_with_default_state(
            Key::from_u64(1),
            Key::from_u64(2),
            Key::from_u64(3),
            3,
            6,
            1,
        )
        .err(),
        Some(TokenExtensionError::InvalidDefaultAccountState)
    );
}
