//! The instructions the mutation dispatcher emits are held against the
//! token service's own encoders.

use solana_address::Address;

use token_extensions::keys::Key;
use token_extensions::mint_model::MintExtParams;
use token_extensions::mint_model::MintModel;
use token_extensions::ops;
use token_extensions::token_model::TokenModel;

fn addr(k: &Key) -> Address {
    let mut b = [0u8; 32];
    b[0..8].copy_from_slice(&k.w0.to_le_bytes());
    b[8..16].copy_from_slice(&k.w1.to_le_bytes());
    b[16..24].copy_from_slice(&k.w2.to_le_bytes());
    b[24..32].copy_from_slice(&k.w3.to_le_bytes());
    Address::new_from_array(b)
}

#[test]
fn pause_and_resume_instructions_match_the_service() {
    let authority = Key::from_u64(1);
    let mint_key = Key::from_u64(60);
    let mut m = MintModel::provisioned(203);
    m.init_extension(MintExtParams::Pausable { authority }).unwrap();
    m.init_base(authority, None, 0).unwrap();
    let ix = ops::pause_mint(&mut m, mint_key, authority).unwrap();
    let expect = spl_token_2022::extension::pausable::instruction::pause(
        &spl_token_2022::id(),
        &addr(&mint_key),
        &addr(&authority),
        &[],
    )
    .unwrap();
    assert_eq!(ix, expect);
    let ix = ops::resume_mint(&mut m, mint_key, authority).unwrap();
    let expect = spl_token_2022::extension::pausable::instruction::resume(
        &spl_token_2022::id(),
        &addr(&mint_key),
        &addr(&authority),
        &[],
    )
    .unwrap();
    assert_eq!(ix, expect);
}

#[test]
fn default_state_update_instruction_matches_the_service() {
    let freeze = Key::from_u64(1);
    let mint_key = Key::from_u64(50);
    let mut m = MintModel::provisioned(171);
    m.init_extension(MintExtParams::DefaultState { state: 1 }).unwrap();
    m.init_base(freeze, Some(freeze), 6).unwrap();
    let ix = ops::update_default_account_state(&mut m, mint_key, freeze, 2).unwrap();
    let expect =
        spl_token_2022::extension::default_account_state::instruction::update_default_account_state(
            &spl_token_2022::id(),
            &addr(&mint_key),
            &addr(&freeze),
            &[],
            &spl_token_2022::state::AccountState::Frozen,
        )
        .unwrap();
    assert_eq!(ix, expect);
}

#[test]
fn rate_update_instruction_matches_the_service() {
    let authority = Key::from_u64(2);
    let mint_key = Key::from_u64(61);
    let mut m = MintModel::provisioned(222);
    m.init_extension(MintExtParams::InterestBearing {
        rate_authority: Some(authority),
        rate: 100,
    })
    .unwrap();
    m.init_base(Key::from_u64(1), None, 0).unwrap();
    let ix = ops::update_interest_rate(&mut m, mint_key, authority, -5).unwrap();
    let expect = spl_token_2022::extension::interest_bearing_mint::instruction::update_rate(
        &spl_token_2022::id(),
        &addr(&mint_key),
        &addr(&authority),
        &[],
        -5,
    )
    .unwrap();
    assert_eq!(ix, expect);
}

#[test]
fn metadata_field_update_instruction_matches_the_service() {
    let authority = Key::from_u64(1);
    let mint_key = Key::from_u64(63);
    let mut m = MintModel::provisioned(234);
    m.init_extension(MintExtParams::MetadataPointer {
        authority: Some(authority),
        address: Some(mint_key),
    })
    .unwrap();
    m.init_base(authority, None, 0).unwrap();
    m.init_extension(MintExtParams::Metadata {
        update_authority: authority,
        name: String::from("tok"),
        symbol: String::from("TOK"),
        uri: String::from("u"),
    })
    .unwrap();
    let ix = ops::update_metadata_field(
        &mut m,
        mint_key,
        authority,
        String::from("color"),
        String::from("blue"),
    )
    .unwrap();
    let expect = spl_token_metadata_interface::instruction::update_field(
        &spl_token_2022::id(),
        &addr(&mint_key),
        &addr(&authority),
        spl_token_metadata_interface::state::Field::Key(String::from("color")),
        String::from("blue"),
    );
    assert_eq!(ix, expect);
}

#[test]
fn group_resize_instruction_matches_the_service() {
    let authority = Key::from_u64(1);
    let group_key = Key::from_u64(64);
    let mut m = MintModel::provisioned(318);
    m.init_extension(MintExtParams::GroupPointer {
        authority: Some(authority),
        address: Some(group_key),
    })
    .unwrap();
    m.init_base(authority, None, 0).unwrap();
    m.init_extension(MintExtParams::Group {
        update_authority: Some(authority),
        max_size: 10,
    })
    .unwrap();
    let ix = ops::update_group_max_size(&mut m, group_key, authority, 25).unwrap();
    let expect = spl_token_group_interface::instruction::update_group_max_size(
        &spl_token_2022::id(),
        &addr(&group_key),
        &addr(&authority),
        25,
    );
    assert_eq!(ix, expect);
}

#[test]
fn close_instruction_matches_the_service() {
    let authority = Key::from_u64(7);
    let mint_key = Key::from_u64(70);
    let dest = Key::from_u64(71);
    let mut m = MintModel::provisioned(202);
    m.init_extension(MintExtParams::CloseAuthority { authority: Some(authority) }).unwrap();
    m.init_base(Key::from_u64(1), None, 0).unwrap();
    let ix = ops::close_mint(&mut m, mint_key, dest, authority).unwrap();
    let expect = spl_token_2022::instruction::close_account(
        &spl_token_2022::id(),
        &addr(&mint_key),
        &addr(&dest),
        &addr(&authority),
        &[],
    )
    .unwrap();
    assert_eq!(ix, expect);
}

#[test]
fn transfer_and_withdraw_instructions_match_the_service() {
    let mint_key = Key::from_u64(100);
    let alice = Key::from_u64(101);
    let withdraw_authority = Key::from_u64(12);
    let mut mint = MintModel::provisioned(278);
    mint.init_extension(MintExtParams::TransferFee {
        config_authority: None,
        withdraw_authority: Some(withdraw_authority),
        basis_points: 100,
        maximum_fee: 1000,
    })
    .unwrap();
    mint.init_base(Key::from_u64(1), None, 6).unwrap();
    let mut source = TokenModel::provisioned(165);
    source.init_base(alice, mint_key).unwrap();
    source.amount = 500_000;
    let mut dest = TokenModel::provisioned(165);
    dest.init_base(Key::from_u64(102), mint_key).unwrap();
    let source_key = Key::from_u64(103);
    let dest_key = Key::from_u64(104);
    let ix = ops::transfer_with_fee(
        &mint, mint_key, &mut source, source_key, &mut dest, dest_key, alice, 100_000, 1000,
        false,
    )
    .unwrap();
    let expect = spl_token_2022::extension::transfer_fee::instruction::transfer_checked_with_fee(
        &spl_token_2022::id(),
        &addr(&source_key),
        &addr(&mint_key),
        &addr(&dest_key),
        &addr(&alice),
        &[],
        100_000,
        6,
        1000,
    )
    .unwrap();
    assert_eq!(ix, expect);

    let mut treasury = TokenModel::provisioned(165);
    treasury.init_base(Key::from_u64(105), mint_key).unwrap();
    let treasury_key = Key::from_u64(106);
    let ix = ops::withdraw_withheld_tokens(
        &mint,
        mint_key,
        &mut dest,
        dest_key,
        &mut treasury,
        treasury_key,
        withdraw_authority,
    )
    .unwrap();
    let expect =
        spl_token_2022::extension::transfer_fee::instruction::withdraw_withheld_tokens_from_accounts(
            &spl_token_2022::id(),
            &addr(&mint_key),
            &addr(&treasury_key),
            &addr(&withdraw_authority),
            &[],
            &[&addr(&dest_key)],
        )
        .unwrap();
    assert_eq!(ix, expect);
}

#[test]
fn hook_update_instruction_matches_the_service() {
    let authority = Key::from_u64(1);
    let mint_key = Key::from_u64(62);
    let mut m = MintModel::provisioned(234);
    m.init_extension(MintExtParams::TransferHook {
        authority: Some(authority),
        program_id: None,
    })
    .unwrap();
    m.init_base(authority, None, 0).unwrap();
    let target = Some(Key::from_u64(33));
    let ix = ops::update_transfer_hook_program(&mut m, mint_key, authority, target).unwrap();
    let expect = spl_token_2022::extension::transfer_hook::instruction::update(
        &spl_token_2022::id(),
        &addr(&mint_key),
        &addr(&authority),
        &[],
        Some(addr(&Key::from_u64(33))),
    )
    .unwrap();
    assert_eq!(ix, expect);
}

#[test]
fn disable_instructions_match_the_service() {
    let owner = Key::from_u64(1);
    let account_key = Key::from_u64(81);
    let mut t = TokenModel::provisioned(176);
    t.init_base(owner, Key::from_u64(2)).unwrap();
    let ix = ops::disable_required_memo_transfers(&mut t, account_key, owner).unwrap();
    let expect =
        spl_token_2022::extension::memo_transfer::instruction::disable_required_transfer_memos(
            &spl_token_2022::id(),
            &addr(&account_key),
            &addr(&owner),
            &[],
        )
        .unwrap();
    assert_eq!(ix, expect);
    let ix = ops::disable_cpi_guard(&mut t, account_key, owner).unwrap();
    let expect = spl_token_2022::extension::cpi_guard::instruction::disable_cpi_guard(
        &spl_token_2022::id(),
        &addr(&account_key),
        &addr(&owner),
        &[],
    )
    .unwrap();
    assert_eq!(ix, expect);
}

#[test]
fn memo_and_guard_instructions_match_the_service() {
    let owner = Key::from_u64(1);
    let account_key = Key::from_u64(80);
    let mut t = TokenModel::provisioned(176);
    t.init_base(owner, Key::from_u64(2)).unwrap();
    let ix = ops::enable_required_memo_transfers(&mut t, account_key, owner).unwrap();
    let expect =
        spl_token_2022::extension::memo_transfer::instruction::enable_required_transfer_memos(
            &spl_token_2022::id(),
            &addr(&account_key),
            &addr(&owner),
            &[],
        )
        .unwrap();
    assert_eq!(ix, expect);
    let ix = ops::enable_cpi_guard(&mut t, account_key, owner).unwrap();
    let expect = spl_token_2022::extension::cpi_guard::instruction::enable_cpi_guard(
        &spl_token_2022::id(),
        &addr(&account_key),
        &addr(&owner),
        &[],
    )
    .unwrap();
    assert_eq!(ix, expect);
}
