//! Scenario tests for the account model: initialization ordering, sizing,
//! authority gating, and the fee and group arithmetic.

use token_extensions::errors::TokenExtensionError;
use token_extensions::keys::Key;
use token_extensions::kinds::ExtensionKind;
use token_extensions::mint_model::MintExtParams;
use token_extensions::mint_model::MintModel;
use token_extensions::ops;
use token_extensions::token_model::TokenExtParams;
use token_extensions::token_model::TokenModel;

fn close_authority_params(authority: Key) -> MintExtParams {
    MintExtParams::CloseAuthority { authority: Some(authority) }
}

fn fee_params(bp: u16, max_fee: u64) -> MintExtParams {
    MintExtParams::TransferFee {
        config_authority: Some(Key::from_u64(11)),
        withdraw_authority: Some(Key::from_u64(12)),
        basis_points: bp,
        maximum_fee: max_fee,
    }
}

fn fee_mint(bp: u16, max_fee: u64, decimals: u8) -> MintModel {
    // base-and-type length 166 plus the 4-byte header and 108-byte block
    let mut m = MintModel::provisioned(278);
    m.init_extension(fee_params(bp, max_fee)).unwrap();
    m.init_base(Key::from_u64(1), None, decimals).unwrap();
    m
}

fn funded_account(owner: Key, mint: Key, amount: u64) -> TokenModel {
    let mut t = TokenModel::provisioned(165);
    t.init_base(owner, mint).unwrap();
    t.amount = amount;
    t
}

#[test]
fn single_extension_exact_size_succeeds() {
    // mint close authority: 166 + 4 + 32 = 202 bytes
    let mut m = MintModel::provisioned(202);
    assert_eq!(m.init_extension(close_authority_params(Key::from_u64(7))), Ok(()));
    assert_eq!(m.init_base(Key::from_u64(1), None, 9), Ok(()));
    assert!(m.base_initialized);
}

#[test]
fn single_extension_one_byte_short_fails_at_extension_init() {
    let mut m = MintModel::provisioned(201);
    assert_eq!(
        m.init_extension(close_authority_params(Key::from_u64(7))),
        Err(TokenExtensionError::InvalidExtensionType)
    );
    assert!(!m.has_ext(ExtensionKind::MintCloseAuthority));
}

#[test]
fn base_init_before_planned_extension_fails() {
    let mut m = MintModel::provisioned(202);
    assert_eq!(
        m.init_base(Key::from_u64(1), None, 9),
        Err(TokenExtensionError::InvalidExtensionType)
    );
    assert!(!m.base_initialized);
}

#[test]
fn bare_mint_needs_exact_base_length() {
    let mut m = MintModel::provisioned(82);
    assert_eq!(m.init_base(Key::from_u64(1), None, 0), Ok(()));
    let mut wrong = MintModel::provisioned(83);
    assert_eq!(
        wrong.init_base(Key::from_u64(1), None, 0),
        Err(TokenExtensionError::InvalidExtensionType)
    );
}

#[test]
fn metadata_before_pointer_fails() {
    // sized for a metadata pointer: 166 + 4 + 64 = 234
    let mut m = MintModel::provisioned(234);
    let md = MintExtParams::Metadata {
        update_authority: Key::from_u64(1),
        name: String::from("tok"),
        symbol: String::from("TOK"),
        uri: String::from("https://example.invalid/tok"),
    };
    // before the base record: rejected
    assert_eq!(m.init_extension(md.clone()), Err(TokenExtensionError::InvalidMetadata));
    // base cannot come first either on an extension-sized account
    assert_eq!(
        m.init_base(Key::from_u64(1), None, 0),
        Err(TokenExtensionError::InvalidExtensionType)
    );
    // the right order goes through
    let ptr = MintExtParams::MetadataPointer {
        authority: Some(Key::from_u64(1)),
        address: Some(Key::from_u64(2)),
    };
    assert_eq!(m.init_extension(ptr), Ok(()));
    assert_eq!(m.init_base(Key::from_u64(1), None, 0), Ok(()));
    assert_eq!(m.init_extension(md), Ok(()));
    assert!(m.has_ext(ExtensionKind::Metadata));
}

#[test]
fn metadata_after_base_without_pointer_fails() {
    let mut m = MintModel::provisioned(82);
    m.init_base(Key::from_u64(1), None, 0).unwrap();
    let md = MintExtParams::Metadata {
        update_authority: Key::from_u64(1),
        name: String::from("tok"),
        symbol: String::from("TOK"),
        uri: String::from("u"),
    };
    assert_eq!(m.init_extension(md), Err(TokenExtensionError::InvalidMetadata));
}

#[test]
fn reinitializing_extension_fails_and_keeps_state() {
    let mut m = MintModel::provisioned(202);
    m.init_extension(close_authority_params(Key::from_u64(7))).unwrap();
    let before = m.clone();
    assert_eq!(
        m.init_extension(close_authority_params(Key::from_u64(99))),
        Err(TokenExtensionError::ExtensionAlreadyInitialized)
    );
    assert_eq!(m.close_authority_ext, before.close_authority_ext);
    assert_eq!(m.init_order, before.init_order);
}

#[test]
fn reinitializing_token_extension_fails() {
    // immutable owner on a token account: 166 + 4 + 0 = 170
    let mut t = TokenModel::provisioned(170);
    assert_eq!(t.init_extension(TokenExtParams::ImmutableOwner), Ok(()));
    assert_eq!(
        t.init_extension(TokenExtParams::ImmutableOwner),
        Err(TokenExtensionError::ExtensionAlreadyInitialized)
    );
    assert_eq!(t.init_base(Key::from_u64(3), Key::from_u64(4)), Ok(()));
}

#[test]
fn reinitializing_base_fails() {
    let mut m = MintModel::provisioned(82);
    m.init_base(Key::from_u64(1), None, 0).unwrap();
    assert_eq!(
        m.init_base(Key::from_u64(1), None, 0),
        Err(TokenExtensionError::ExtensionAlreadyInitialized)
    );
}

#[test]
fn default_state_domain_is_checked() {
    // default account state block: 166 + 4 + 1 = 171
    let mut m = MintModel::provisioned(171);
    m.init_extension(MintExtParams::DefaultState { state: 1 }).unwrap();
    m.init_base(Key::from_u64(1), Some(Key::from_u64(1)), 6).unwrap();
    let freeze = Key::from_u64(1);
    let mint_key = Key::from_u64(50);
    assert_eq!(
        ops::update_default_account_state(&mut m, mint_key, freeze, 3),
        Err(TokenExtensionError::InvalidDefaultAccountState)
    );
    assert_eq!(m.default_state, Some(1));
    assert_eq!(
        ops::update_default_account_state(&mut m, mint_key, freeze, 250),
        Err(TokenExtensionError::InvalidDefaultAccountState)
    );
    assert_eq!(m.default_state, Some(1));
    assert!(ops::update_default_account_state(&mut m, mint_key, freeze, 2).is_ok());
    assert_eq!(m.default_state, Some(2));
}

#[test]
fn default_state_init_rejects_out_of_domain_value() {
    let mut m = MintModel::provisioned(171);
    assert_eq!(
        m.init_extension(MintExtParams::DefaultState { state: 3 }),
        Err(TokenExtensionError::InvalidDefaultAccountState)
    );
}

#[test]
fn wrong_signer_cannot_pause_or_resume() {
    // pausable block: 166 + 4 + 33 = 203
    let mut m = MintModel::provisioned(203);
    m.init_extension(MintExtParams::Pausable { authority: Key::from_u64(1) }).unwrap();
    m.init_base(Key::from_u64(1), None, 0).unwrap();
    let mint_key = Key::from_u64(60);
    let intruder = Key::from_u64(666);
    let before = m.clone();
    assert_eq!(
        ops::pause_mint(&mut m, mint_key, intruder).unwrap_err(),
        TokenExtensionError::InvalidAuthority
    );
    assert_eq!(m.pausable, before.pausable);
    assert!(ops::pause_mint(&mut m, mint_key, Key::from_u64(1)).is_ok());
    assert!(m.pausable.unwrap().paused);
    assert_eq!(
        ops::resume_mint(&mut m, mint_key, intruder).unwrap_err(),
        TokenExtensionError::InvalidAuthority
    );
    assert!(m.pausable.unwrap().paused);
    assert!(ops::resume_mint(&mut m, mint_key, Key::from_u64(1)).is_ok());
    assert!(!m.pausable.unwrap().paused);
}

#[test]
fn wrong_signer_cannot_update_rate() {
    // interest block: 166 + 4 + 52 = 222
    let mut m = MintModel::provisioned(222);
    m.init_extension(MintExtParams::InterestBearing {
        rate_authority: Some(Key::from_u64(2)),
        rate: 100,
    })
    .unwrap();
    m.init_base(Key::from_u64(1), None, 0).unwrap();
    let mint_key = Key::from_u64(61);
    assert_eq!(
        ops::update_interest_rate(&mut m, mint_key, Key::from_u64(3), 50).unwrap_err(),
        TokenExtensionError::InvalidAuthority
    );
    assert_eq!(m.interest.unwrap().rate, 100);
    assert!(ops::update_interest_rate(&mut m, mint_key, Key::from_u64(2), 50).is_ok());
    assert_eq!(m.interest.unwrap().rate, 50);
}

#[test]
fn rate_update_without_authority_is_not_allowed() {
    let mut m = MintModel::provisioned(222);
    m.init_extension(MintExtParams::InterestBearing { rate_authority: None, rate: 7 }).unwrap();
    m.init_base(Key::from_u64(1), None, 0).unwrap();
    assert_eq!(
        ops::update_interest_rate(&mut m, Key::from_u64(61), Key::from_u64(2), 50).unwrap_err(),
        TokenExtensionError::InterestRateUpdateNotAllowed
    );
}

#[test]
fn hook_update_without_block_reports_missing_program() {
    let mut m = MintModel::provisioned(82);
    m.init_base(Key::from_u64(1), None, 0).unwrap();
    assert_eq!(
        ops::update_transfer_hook_program(&mut m, Key::from_u64(62), Key::from_u64(1), None)
            .unwrap_err(),
        TokenExtensionError::TransferHookProgramNotFound
    );
}

#[test]
fn wrong_signer_cannot_update_metadata() {
    let mut m = MintModel::provisioned(234);
    m.init_extension(MintExtParams::MetadataPointer {
        authority: Some(Key::from_u64(1)),
        address: Some(Key::from_u64(2)),
    })
    .unwrap();
    m.init_base(Key::from_u64(1), None, 0).unwrap();
    m.init_extension(MintExtParams::Metadata {
        update_authority: Key::from_u64(1),
        name: String::from("tok"),
        symbol: String::from("TOK"),
        uri: String::from("u"),
    })
    .unwrap();
    let mint_key = Key::from_u64(63);
    assert_eq!(
        ops::update_metadata_field(
            &mut m,
            mint_key,
            Key::from_u64(9),
            String::from("color"),
            String::from("blue")
        )
        .unwrap_err(),
        TokenExtensionError::InvalidAuthority
    );
    assert!(m.metadata.as_ref().unwrap().additional.is_empty());
    assert!(ops::update_metadata_field(
        &mut m,
        mint_key,
        Key::from_u64(1),
        String::from("color"),
        String::from("blue")
    )
    .is_ok());
    let md = m.metadata.as_ref().unwrap();
    assert_eq!(md.additional.len(), 1);
    assert_eq!(md.additional[0].name, "color");
    assert_eq!(md.additional[0].value, "blue");
    // overwriting the same field keeps one entry
    assert!(ops::update_metadata_field(
        &mut m,
        mint_key,
        Key::from_u64(1),
        String::from("color"),
        String::from("red")
    )
    .is_ok());
    let md = m.metadata.as_ref().unwrap();
    assert_eq!(md.additional.len(), 1);
    assert_eq!(md.additional[0].value, "red");
}

#[test]
fn wrong_signer_cannot_resize_group() {
    // group pointer + group: 166 + (4 + 64) + (4 + 80) = 318
    let mut m = MintModel::provisioned(318);
    m.init_extension(MintExtParams::GroupPointer {
        authority: Some(Key::from_u64(1)),
        address: Some(Key::from_u64(2)),
    })
    .unwrap();
    m.init_base(Key::from_u64(1), None, 0).unwrap();
    m.init_extension(MintExtParams::Group {
        update_authority: Some(Key::from_u64(1)),
        max_size: 10,
    })
    .unwrap();
    let group_key = Key::from_u64(64);
    assert_eq!(
        ops::update_group_max_size(&mut m, group_key, Key::from_u64(9), 20).unwrap_err(),
        TokenExtensionError::InvalidAuthority
    );
    assert_eq!(m.group.unwrap().max_size, 10);
    assert!(ops::update_group_max_size(&mut m, group_key, Key::from_u64(1), 20).is_ok());
    assert_eq!(m.group.unwrap().max_size, 20);
}

#[test]
fn group_cannot_shrink_below_size() {
    let mut m = MintModel::provisioned(318);
    m.init_extension(MintExtParams::GroupPointer {
        authority: Some(Key::from_u64(1)),
        address: Some(Key::from_u64(2)),
    })
    .unwrap();
    m.init_base(Key::from_u64(1), None, 0).unwrap();
    m.init_extension(MintExtParams::Group {
        update_authority: Some(Key::from_u64(1)),
        max_size: 10,
    })
    .unwrap();
    if let Some(g) = &mut m.group {
        g.size = 5;
    }
    assert_eq!(
        ops::update_group_max_size(&mut m, Key::from_u64(64), Key::from_u64(1), 4).unwrap_err(),
        TokenExtensionError::GroupSizeLimitExceeded
    );
    assert_eq!(m.group.unwrap().max_size, 10);
}

#[test]
fn wrong_signer_cannot_update_multiplier() {
    // scaled-ui block: 166 + 4 + 56 = 226
    let two = 0x4000000000000000u64; // binary64 bits of the number two
    let mut m = MintModel::provisioned(226);
    m.init_extension(MintExtParams::ScaledUiAmount {
        authority: Some(Key::from_u64(1)),
        multiplier_bits: two,
    })
    .unwrap();
    m.init_base(Key::from_u64(1), None, 0).unwrap();
    let four = 0x4010000000000000u64;
    assert_eq!(
        ops::update_ui_amount_multiplier(&mut m, Key::from_u64(9), four, None).unwrap_err(),
        TokenExtensionError::InvalidAuthority
    );
    assert_eq!(m.scaled_ui.unwrap().multiplier_bits, two);
    assert!(ops::update_ui_amount_multiplier(&mut m, Key::from_u64(1), four, None).is_ok());
    assert_eq!(m.scaled_ui.unwrap().multiplier_bits, four);
}

#[test]
fn multiplier_must_be_positive_finite_nonzero() {
    let two = 0x4000000000000000u64;
    let mut m = MintModel::provisioned(226);
    m.init_extension(MintExtParams::ScaledUiAmount {
        authority: Some(Key::from_u64(1)),
        multiplier_bits: two,
    })
    .unwrap();
    m.init_base(Key::from_u64(1), None, 0).unwrap();
    for bad in [
        0u64,                      // zero
        (-2.0f64).to_bits(),       // negative
        f64::INFINITY.to_bits(),   // infinite
        f64::NAN.to_bits(),        // not a number
    ] {
        assert_eq!(
            ops::update_ui_amount_multiplier(&mut m, Key::from_u64(1), bad, None).unwrap_err(),
            TokenExtensionError::InvalidUiAmountMultiplier
        );
        assert_eq!(m.scaled_ui.unwrap().multiplier_bits, two);
    }
    // a creation request with bad bits is rejected the same way
    let r = token_extensions::plan::create_mint_with_scaled_ui_amount(
        Key::from_u64(1),
        Key::from_u64(2),
        Key::from_u64(3),
        None,
        0,
        6,
        1,
    );
    assert_eq!(r.err(), Some(TokenExtensionError::InvalidUiAmountMultiplier));
}

#[test]
fn transfer_with_fee_withholds_exactly_the_declared_fee() {
    let mint_key = Key::from_u64(100);
    let mint = fee_mint(100, 1000, 6);
    let alice = Key::from_u64(101);
    let bob = Key::from_u64(102);
    let mut source = funded_account(alice, mint_key, 500_000);
    let mut dest = funded_account(bob, mint_key, 0);
    let r = ops::transfer_with_fee(
        &mint,
        mint_key,
        &mut source,
        Key::from_u64(103),
        &mut dest,
        Key::from_u64(104),
        alice,
        100_000,
        1000,
        false,
    );
    assert!(r.is_ok());
    assert_eq!(source.amount, 400_000);
    assert_eq!(dest.amount, 99_000);
    assert_eq!(dest.withheld, 1000);
}

#[test]
fn transfer_with_wrong_declared_fee_fails_and_keeps_balances() {
    let mint_key = Key::from_u64(100);
    let mint = fee_mint(100, 1000, 6);
    let alice = Key::from_u64(101);
    let mut source = funded_account(alice, mint_key, 500_000);
    let mut dest = funded_account(Key::from_u64(102), mint_key, 7);
    let r = ops::transfer_with_fee(
        &mint,
        mint_key,
        &mut source,
        Key::from_u64(103),
        &mut dest,
        Key::from_u64(104),
        alice,
        100_000,
        999,
        false,
    );
    assert_eq!(r.unwrap_err(), TokenExtensionError::TransferFeeCalculationError);
    assert_eq!(source.amount, 500_000);
    assert_eq!(dest.amount, 7);
    assert_eq!(dest.withheld, 0);
}

#[test]
fn fee_is_rounded_up_and_capped() {
    // 1 basis point of 50 units rounds up to 1
    assert_eq!(token_extensions::fees::transfer_fee(50, 1, 1000), 1);
    // exact division needs no rounding: 10000 * 1% = 100
    assert_eq!(token_extensions::fees::transfer_fee(10_000, 100, 1000), 100);
    // the cap wins when the raw fee exceeds it
    assert_eq!(token_extensions::fees::transfer_fee(1_000_000, 100, 1000), 1000);
    // no schedule, no fee
    assert_eq!(token_extensions::fees::transfer_fee(0, 100, 1000), 0);
    assert_eq!(token_extensions::fees::transfer_fee(12345, 0, 1000), 0);
}

#[test]
fn transfer_guards_block_in_order() {
    let mint_key = Key::from_u64(100);
    let alice = Key::from_u64(101);

    // a mint without the fee schedule takes no fee transfer
    let mut plain = MintModel::provisioned(82);
    plain.init_base(Key::from_u64(1), None, 6).unwrap();
    let mut s = funded_account(alice, mint_key, 10);
    let mut d = funded_account(Key::from_u64(102), mint_key, 0);
    assert_eq!(
        ops::transfer_with_fee(&plain, mint_key, &mut s, Key::from_u64(1), &mut d, Key::from_u64(2), alice, 1, 0, false)
            .unwrap_err(),
        TokenExtensionError::InvalidTransferFeeConfig
    );

    // paused mint
    let mut mint = fee_mint(100, 1000, 6);
    mint.init_order.push(ExtensionKind::Pausable);
    mint.pausable = Some(token_extensions::mint_model::PausableExt {
        authority: Key::from_u64(1),
        paused: true,
    });
    assert_eq!(
        ops::transfer_with_fee(&mint, mint_key, &mut s, Key::from_u64(1), &mut d, Key::from_u64(2), alice, 1, 1, false)
            .unwrap_err(),
        TokenExtensionError::MintPaused
    );

    let mint = fee_mint(100, 1000, 6);

    // frozen source
    s.frozen = true;
    assert_eq!(
        ops::transfer_with_fee(&mint, mint_key, &mut s, Key::from_u64(1), &mut d, Key::from_u64(2), alice, 1, 1, false)
            .unwrap_err(),
        TokenExtensionError::AccountFrozen
    );
    s.frozen = false;

    // destination demanding a memo
    d.init_order.push(ExtensionKind::RequiredMemo);
    d.required_memo = Some(token_extensions::token_model::MemoExt { require_incoming: true });
    assert_eq!(
        ops::transfer_with_fee(&mint, mint_key, &mut s, Key::from_u64(1), &mut d, Key::from_u64(2), alice, 1, 1, false)
            .unwrap_err(),
        TokenExtensionError::MemoRequiredForTransfer
    );
    d.required_memo = None;
    d.init_order.clear();

    // wrong owner
    assert_eq!(
        ops::transfer_with_fee(&mint, mint_key, &mut s, Key::from_u64(1), &mut d, Key::from_u64(2), Key::from_u64(9), 1, 1, false)
            .unwrap_err(),
        TokenExtensionError::InvalidAuthority
    );

    // CPI guard up
    s.init_order.push(ExtensionKind::CpiGuard);
    s.cpi_guard = Some(token_extensions::token_model::CpiGuardExt { enabled: true });
    assert_eq!(
        ops::transfer_with_fee(&mint, mint_key, &mut s, Key::from_u64(1), &mut d, Key::from_u64(2), alice, 1, 1, false)
            .unwrap_err(),
        TokenExtensionError::CpiGuardEnabled
    );
    s.cpi_guard = Some(token_extensions::token_model::CpiGuardExt { enabled: false });

    // short balance: 10 units held, 11 asked
    assert_eq!(
        ops::transfer_with_fee(&mint, mint_key, &mut s, Key::from_u64(1), &mut d, Key::from_u64(2), alice, 11, 1, false)
            .unwrap_err(),
        TokenExtensionError::InsufficientFundsForFee
    );
}

#[test]
fn non_transferable_mint_rejects_transfers() {
    let mint_key = Key::from_u64(100);
    // transfer fee + non-transferable: 166 + 112 + 4 = 282
    let mut mint = MintModel::provisioned(282);
    mint.init_extension(fee_params(100, 1000)).unwrap();
    mint.init_extension(MintExtParams::NonTransferable).unwrap();
    mint.init_base(Key::from_u64(1), None, 6).unwrap();
    let alice = Key::from_u64(101);
    let mut s = funded_account(alice, mint_key, 10);
    let mut d = funded_account(Key::from_u64(102), mint_key, 0);
    assert_eq!(
        ops::transfer_with_fee(&mint, mint_key, &mut s, Key::from_u64(1), &mut d, Key::from_u64(2), alice, 1, 1, false)
            .unwrap_err(),
        TokenExtensionError::NonTransferableToken
    );
}

#[test]
fn withheld_fees_move_only_under_the_withdraw_authority() {
    let mint_key = Key::from_u64(100);
    let mint = fee_mint(100, 1000, 6);
    let alice = Key::from_u64(101);
    let bob = Key::from_u64(102);
    let mut source = funded_account(alice, mint_key, 500_000);
    let mut dest = funded_account(bob, mint_key, 0);
    ops::transfer_with_fee(
        &mint, mint_key, &mut source, Key::from_u64(103), &mut dest, Key::from_u64(104),
        alice, 100_000, 1000, false,
    )
    .unwrap();
    assert_eq!(dest.withheld, 1000);
    let mut treasury = funded_account(Key::from_u64(105), mint_key, 0);
    assert_eq!(
        ops::withdraw_withheld_tokens(
            &mint, mint_key, &mut dest, Key::from_u64(104), &mut treasury, Key::from_u64(106),
            Key::from_u64(9),
        )
        .unwrap_err(),
        TokenExtensionError::InvalidAuthority
    );
    assert_eq!(dest.withheld, 1000);
    assert!(ops::withdraw_withheld_tokens(
        &mint, mint_key, &mut dest, Key::from_u64(104), &mut treasury, Key::from_u64(106),
        Key::from_u64(12),
    )
    .is_ok());
    assert_eq!(dest.withheld, 0);
    assert_eq!(treasury.amount, 1000);
}

#[test]
fn eleventh_member_exceeds_group_limit() {
    let group_key = Key::from_u64(200);
    let mut group = MintModel::provisioned(318);
    group
        .init_extension(MintExtParams::GroupPointer {
            authority: Some(Key::from_u64(1)),
            address: Some(group_key),
        })
        .unwrap();
    group.init_base(Key::from_u64(1), None, 0).unwrap();
    group
        .init_extension(MintExtParams::Group {
            update_authority: Some(Key::from_u64(1)),
            max_size: 10,
        })
        .unwrap();
    let authority = Key::from_u64(1);
    for n in 1..=10u32 {
        // member pointer + member block: 166 + (4 + 64) + (4 + 72) = 310
        let mut member = MintModel::provisioned(310);
        member
            .init_extension(MintExtParams::MemberPointer {
                authority: Some(Key::from_u64(1)),
                address: Some(Key::from_u64(300 + n as u64)),
            })
            .unwrap();
        member.init_base(Key::from_u64(1), None, 0).unwrap();
        let number = ops::join_group(&mut member, &mut group, group_key, authority).unwrap();
        assert_eq!(number, n);
        assert_eq!(member.member.unwrap().member_number, n);
        assert_eq!(group.group.unwrap().size, n);
    }
    let mut eleventh = MintModel::provisioned(310);
    eleventh
        .init_extension(MintExtParams::MemberPointer {
            authority: Some(Key::from_u64(1)),
            address: Some(Key::from_u64(311)),
        })
        .unwrap();
    eleventh.init_base(Key::from_u64(1), None, 0).unwrap();
    assert_eq!(
        ops::join_group(&mut eleventh, &mut group, group_key, authority).unwrap_err(),
        TokenExtensionError::GroupSizeLimitExceeded
    );
    assert_eq!(group.group.unwrap().size, 10);
    assert!(eleventh.member.is_none());
}

#[test]
fn joining_twice_fails() {
    let group_key = Key::from_u64(200);
    let mut group = MintModel::provisioned(318);
    group
        .init_extension(MintExtParams::GroupPointer {
            authority: Some(Key::from_u64(1)),
            address: Some(group_key),
        })
        .unwrap();
    group.init_base(Key::from_u64(1), None, 0).unwrap();
    group
        .init_extension(MintExtParams::Group {
            update_authority: Some(Key::from_u64(1)),
            max_size: 10,
        })
        .unwrap();
    let mut member = MintModel::provisioned(310);
    member
        .init_extension(MintExtParams::MemberPointer {
            authority: Some(Key::from_u64(1)),
            address: Some(Key::from_u64(301)),
        })
        .unwrap();
    member.init_base(Key::from_u64(1), None, 0).unwrap();
    ops::join_group(&mut member, &mut group, group_key, Key::from_u64(1)).unwrap();
    assert_eq!(
        ops::join_group(&mut member, &mut group, group_key, Key::from_u64(1)).unwrap_err(),
        TokenExtensionError::ExtensionAlreadyInitialized
    );
    assert_eq!(group.group.unwrap().size, 1);
}

#[test]
fn member_without_pointer_cannot_join() {
    let group_key = Key::from_u64(200);
    let mut group = MintModel::provisioned(318);
    group
        .init_extension(MintExtParams::GroupPointer {
            authority: Some(Key::from_u64(1)),
            address: Some(group_key),
        })
        .unwrap();
    group.init_base(Key::from_u64(1), None, 0).unwrap();
    group
        .init_extension(MintExtParams::Group {
            update_authority: Some(Key::from_u64(1)),
            max_size: 10,
        })
        .unwrap();
    let mut member = MintModel::provisioned(82);
    member.init_base(Key::from_u64(1), None, 0).unwrap();
    assert_eq!(
        ops::join_group(&mut member, &mut group, group_key, Key::from_u64(1)).unwrap_err(),
        TokenExtensionError::InvalidMemberConfig
    );
}

#[test]
fn resizing_without_a_group_block_fails() {
    let mut m = MintModel::provisioned(82);
    m.init_base(Key::from_u64(1), None, 0).unwrap();
    assert_eq!(
        ops::update_group_max_size(&mut m, Key::from_u64(64), Key::from_u64(1), 5).unwrap_err(),
        TokenExtensionError::InvalidGroupConfig
    );
}

#[test]
fn close_mint_needs_authority_and_zero_supply() {
    let mut m = MintModel::provisioned(202);
    m.init_extension(close_authority_params(Key::from_u64(7))).unwrap();
    m.init_base(Key::from_u64(1), None, 0).unwrap();
    m.supply = 5;
    let mint_key = Key::from_u64(70);
    let dest = Key::from_u64(71);
    assert_eq!(
        ops::close_mint(&mut m, mint_key, dest, Key::from_u64(9)).unwrap_err(),
        TokenExtensionError::InvalidCloseAuthority
    );
    assert_eq!(
        ops::close_mint(&mut m, mint_key, dest, Key::from_u64(7)).unwrap_err(),
        TokenExtensionError::MintSupplyNotZero
    );
    assert!(!m.closed);
    m.supply = 0;
    assert!(ops::close_mint(&mut m, mint_key, dest, Key::from_u64(7)).is_ok());
    assert!(m.closed);
    // a closed mint takes nothing further
    assert_eq!(
        ops::close_mint(&mut m, mint_key, dest, Key::from_u64(7)).unwrap_err(),
        TokenExtensionError::InvalidExtensionType
    );
}

#[test]
fn closing_without_the_block_fails() {
    let mut m = MintModel::provisioned(82);
    m.init_base(Key::from_u64(1), None, 0).unwrap();
    assert_eq!(
        ops::close_mint(&mut m, Key::from_u64(70), Key::from_u64(71), Key::from_u64(7))
            .unwrap_err(),
        TokenExtensionError::InvalidCloseAuthority
    );
}

#[test]
fn memo_and_cpi_guard_toggle_under_owner_only() {
    let owner = Key::from_u64(1);
    // room for base, memo and guard blocks: 166 + (4 + 1) + (4 + 1) = 176
    let mut t = TokenModel::provisioned(176);
    t.init_base(owner, Key::from_u64(2)).unwrap();
    let key = Key::from_u64(80);
    assert_eq!(
        ops::enable_required_memo_transfers(&mut t, key, Key::from_u64(9)).unwrap_err(),
        TokenExtensionError::InvalidAuthority
    );
    assert!(t.required_memo.is_none());
    assert!(ops::enable_required_memo_transfers(&mut t, key, owner).is_ok());
    assert!(t.required_memo.unwrap().require_incoming);
    assert!(ops::disable_required_memo_transfers(&mut t, key, owner).is_ok());
    assert!(!t.required_memo.unwrap().require_incoming);
    assert_eq!(
        ops::enable_cpi_guard(&mut t, key, Key::from_u64(9)).unwrap_err(),
        TokenExtensionError::InvalidAuthority
    );
    assert!(ops::enable_cpi_guard(&mut t, key, owner).is_ok());
    assert!(t.cpi_guard.unwrap().enabled);
    assert!(ops::disable_cpi_guard(&mut t, key, owner).is_ok());
    assert!(!t.cpi_guard.unwrap().enabled);
}

#[test]
fn memo_block_needs_room() {
    // exactly the bare account length: no room for a memo block
    let owner = Key::from_u64(1);
    let mut t = TokenModel::provisioned(165);
    t.init_base(owner, Key::from_u64(2)).unwrap();
    assert_eq!(
        ops::enable_required_memo_transfers(&mut t, Key::from_u64(80), owner).unwrap_err(),
        TokenExtensionError::InvalidExtensionType
    );
}
