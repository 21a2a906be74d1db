use gado::accounts::{Account, AccountInfo, CoinTransfer, TokenAccount, TokenTransfer};
use gado::errors::ErrorCode;
use gado::platform::{
    add_multi_token_inheritance, add_smart_wallet_heir, create_smart_wallet_inheritance,
    deposit_to_smart_wallet, deposit_tokens_to_smart_wallet, execute_inheritance,
    update_smart_wallet_activity, update_smart_wallet_heir_allocation,
    update_smart_wallet_inactivity_period, withdraw_from_smart_wallet,
    withdraw_tokens_from_smart_wallet, AddMultiTokenInheritance, AddSmartWalletHeir,
    CreateSmartWalletInheritance, DepositToSmartWallet, DepositTokensToSmartWallet,
    ExecuteInheritance, HeirData, NotificationPreferences, PlatformConfig, SmartWallet,
    TokenAllocation, Treasury, UpdateSmartWalletActivity, UpdateSmartWalletHeirAllocation,
    UpdateSmartWalletInactivityPeriod, UserProfile, WithdrawFromSmartWallet,
    WithdrawTokensFromSmartWallet,
};
use gado::pubkey::Pubkey;
use gado::shares::{heir_share, platform_fee};

const TWO_DAYS: i64 = 2 * 24 * 60 * 60;

fn key(n: u8) -> Pubkey {
    Pubkey::new_from_array([n; 32])
}

fn heir(n: u8, percentage: u8) -> HeirData {
    HeirData { heir_pubkey: key(n), allocation_percentage: percentage }
}

fn quiet() -> NotificationPreferences {
    NotificationPreferences {
        inactivity_warnings: false,
        inheritance_updates: false,
        fee_notifications: false,
    }
}

fn wallet(heirs: Vec<HeirData>) -> Account<SmartWallet> {
    Account {
        key: key(30),
        data: SmartWallet {
            owner: key(1),
            heirs,
            inactivity_period_seconds: TWO_DAYS,
            last_active_time: 1000,
            is_executed: false,
            token_allocations: Vec::new(),
            notification_preferences: quiet(),
            bump: 250,
        },
    }
}

fn profile(is_premium: bool) -> Account<UserProfile> {
    Account {
        key: key(42),
        data: UserProfile {
            user: key(1),
            is_premium,
            total_inheritances_created: 4,
            total_fees_paid: 11,
            created_at: 10,
            total_notifications: 0,
            referral_partner: None,
            bump: 249,
        },
    }
}

fn config(fee_bps: u16) -> Account<PlatformConfig> {
    Account {
        key: key(40),
        data: PlatformConfig {
            admin: key(9),
            platform_fee_bps: fee_bps,
            treasury: key(41),
            total_fees_collected: 7,
            total_inheritances_executed: 3,
            is_paused: false,
            pause_timestamp: 0,
            total_users: 5,
            premium_users: 2,
            total_multi_token_wallets: 1,
            total_inheritance_value: 0,
            bump: 251,
        },
    }
}

fn creation(is_premium: bool) -> CreateSmartWalletInheritance {
    let mut blank = wallet(Vec::new());
    blank.data.owner = key(0);
    blank.data.is_executed = true;
    blank.data.token_allocations = vec![TokenAllocation { token_mint: key(3), allocation_percentage: 5 }];
    CreateSmartWalletInheritance {
        smart_wallet: blank,
        user_profile: profile(is_premium),
        smart_wallet_pda: key(31),
        owner: key(1),
        smart_wallet_bump: 250,
    }
}

fn execution(heirs: Vec<HeirData>, balance: u64, fee_bps: u16) -> ExecuteInheritance {
    ExecuteInheritance {
        smart_wallet: wallet(heirs),
        platform_config: config(fee_bps),
        treasury: Account { key: key(41), data: Treasury { admin: key(9), total_balance: 100, bump: 252 } },
        user_profile: profile(true),
        smart_wallet_pda: AccountInfo { key: key(31), lamports: balance, data: Vec::new() },
        caller: key(77),
    }
}

#[test]
fn fee_of_fifty_basis_points_on_ten_thousand_is_fifty() {
    assert_eq!(platform_fee(10000, 50), 50);
    assert_eq!(platform_fee(10001, 50), 50);
    assert_eq!(platform_fee(199, 50), 0);
    assert_eq!(platform_fee(200, 50), 1);
    assert_eq!(platform_fee(u64::MAX, 10000), u64::MAX);
    assert_eq!(platform_fee(u64::MAX, 200), 368934881474191032);
    assert_eq!(platform_fee(12345, 0), 0);
}

#[test]
fn half_of_an_odd_amount_is_rounded_down() {
    assert_eq!(heir_share(9950, 50), 4975);
    assert_eq!(heir_share(9951, 50), 4975);
    assert_eq!(heir_share(99, 1), 0);
    assert_eq!(heir_share(100, 1), 1);
    assert_eq!(heir_share(u64::MAX, 100), u64::MAX);
    assert_eq!(heir_share(77, 0), 0);
}

#[test]
fn distribution_of_ten_thousand_takes_fifty_and_halves_the_rest() {
    let mut ctx = execution(vec![heir(2, 50), heir(3, 50)], 10000, 50);
    assert_eq!(
        execute_inheritance(&mut ctx, 1001 + TWO_DAYS),
        Ok(vec![
            CoinTransfer { from: key(31), to: key(2), lamports: 4975 },
            CoinTransfer { from: key(31), to: key(3), lamports: 4975 },
            CoinTransfer { from: key(31), to: key(41), lamports: 50 },
        ])
    );
    let mut expected = execution(vec![heir(2, 50), heir(3, 50)], 10000, 50);
    expected.smart_wallet.data.is_executed = true;
    expected.treasury.data.total_balance = 150;
    expected.platform_config.data.total_fees_collected = 57;
    expected.platform_config.data.total_inheritances_executed = 4;
    expected.user_profile.data.total_fees_paid = 61;
    assert_eq!(ctx, expected);
}

#[test]
fn distribution_of_ten_thousand_and_one_leaves_one_unit_behind() {
    let mut ctx = execution(vec![heir(2, 50), heir(3, 50)], 10001, 50);
    let transfers = execute_inheritance(&mut ctx, 1001 + TWO_DAYS).unwrap();
    assert_eq!(
        transfers,
        vec![
            CoinTransfer { from: key(31), to: key(2), lamports: 4975 },
            CoinTransfer { from: key(31), to: key(3), lamports: 4975 },
            CoinTransfer { from: key(31), to: key(41), lamports: 50 },
        ]
    );
    let moved: u64 = transfers.iter().map(|t| t.lamports).sum();
    assert_eq!(10001 - moved, 1);
}

#[test]
fn distribution_without_a_fee_names_the_heirs_only() {
    let mut ctx = execution(vec![heir(2, 30), heir(3, 70)], 100, 50);
    assert_eq!(
        execute_inheritance(&mut ctx, 1001 + TWO_DAYS),
        Ok(vec![
            CoinTransfer { from: key(31), to: key(2), lamports: 30 },
            CoinTransfer { from: key(31), to: key(3), lamports: 70 },
        ])
    );
    assert_eq!(ctx.treasury.data.total_balance, 100);
    assert_eq!(ctx.platform_config.data.total_fees_collected, 7);
    assert_eq!(ctx.platform_config.data.total_inheritances_executed, 4);
}

#[test]
fn distribution_never_pays_the_caller() {
    let mut ctx = execution(vec![heir(2, 100)], 10000, 200);
    let transfers = execute_inheritance(&mut ctx, 1001 + TWO_DAYS).unwrap();
    assert_eq!(
        transfers,
        vec![
            CoinTransfer { from: key(31), to: key(2), lamports: 9800 },
            CoinTransfer { from: key(31), to: key(41), lamports: 200 },
        ]
    );
    assert!(transfers.iter().all(|t| t.to != key(77)));
}

#[test]
fn distribution_at_the_deadline_is_refused_and_changes_nothing() {
    let mut ctx = execution(vec![heir(2, 100)], 10000, 50);
    assert_eq!(execute_inheritance(&mut ctx, 1000 + TWO_DAYS), Err(ErrorCode::OwnerStillActive));
    assert_eq!(ctx, execution(vec![heir(2, 100)], 10000, 50));
}

#[test]
fn platform_distribution_twice_is_already_executed() {
    let mut ctx = execution(vec![heir(2, 100)], 10000, 50);
    assert!(execute_inheritance(&mut ctx, 1001 + TWO_DAYS).is_ok());
    let after = ctx.clone();
    assert_eq!(execute_inheritance(&mut ctx, 1002 + TWO_DAYS), Err(ErrorCode::AlreadyExecuted));
    assert_eq!(ctx, after);
}

#[test]
fn free_owner_creates_a_wallet_for_one_heir() {
    let mut ctx = creation(false);
    assert_eq!(
        create_smart_wallet_inheritance(&mut ctx, vec![heir(2, 100)], TWO_DAYS, 5000),
        Ok(())
    );
    let mut expected = wallet(vec![heir(2, 100)]);
    expected.data.last_active_time = 5000;
    assert_eq!(ctx.smart_wallet, expected);
    assert_eq!(ctx.user_profile.data.total_inheritances_created, 5);
}

#[test]
fn free_owner_is_refused_a_second_heir() {
    let mut ctx = creation(false);
    assert_eq!(
        create_smart_wallet_inheritance(&mut ctx, vec![heir(2, 40), heir(3, 60)], TWO_DAYS, 5000),
        Err(ErrorCode::TooManyHeirs)
    );
    assert_eq!(ctx, creation(false));
}

#[test]
fn free_owner_is_refused_a_period_of_its_own() {
    let mut ctx = creation(false);
    assert_eq!(
        create_smart_wallet_inheritance(&mut ctx, vec![heir(2, 100)], TWO_DAYS - 1, 5000),
        Err(ErrorCode::CustomInactivityNotAllowed)
    );
}

#[test]
fn premium_wallet_with_forty_and_forty_is_refused() {
    let mut ctx = creation(true);
    assert_eq!(
        create_smart_wallet_inheritance(&mut ctx, vec![heir(2, 40), heir(3, 40)], 60, 5000),
        Err(ErrorCode::InvalidAllocation)
    );
    assert_eq!(ctx, creation(true));
}

#[test]
fn premium_wallet_with_forty_and_sixty_is_created() {
    let mut ctx = creation(true);
    assert_eq!(
        create_smart_wallet_inheritance(&mut ctx, vec![heir(2, 40), heir(3, 60)], 60, 5000),
        Ok(())
    );
    assert_eq!(ctx.smart_wallet.data.heirs, vec![heir(2, 40), heir(3, 60)]);
    assert_eq!(ctx.smart_wallet.data.inactivity_period_seconds, 60);
    assert!(ctx.smart_wallet.data.token_allocations.is_empty());
    assert!(!ctx.smart_wallet.data.is_executed);
}

#[test]
fn premium_wallet_is_checked_for_heirs_before_their_number() {
    let mut ctx = creation(true);
    assert_eq!(
        create_smart_wallet_inheritance(&mut ctx, Vec::new(), 60, 5000),
        Err(ErrorCode::NoHeirsProvided)
    );
    let eleven: Vec<HeirData> = (0..11).map(|i| heir(100 + i, 9)).collect();
    assert_eq!(
        create_smart_wallet_inheritance(&mut ctx, eleven, 60, 5000),
        Err(ErrorCode::TooManyHeirs)
    );
    assert_eq!(
        create_smart_wallet_inheritance(&mut ctx, vec![heir(2, 100)], 0, 5000),
        Err(ErrorCode::InvalidInactivityPeriod)
    );
}

#[test]
fn platform_wallet_report_is_for_the_owner() {
    let mut ctx = UpdateSmartWalletActivity { smart_wallet: wallet(vec![heir(2, 100)]), owner: key(1) };
    assert_eq!(update_smart_wallet_activity(&mut ctx, 8888), Ok(()));
    let mut expected = wallet(vec![heir(2, 100)]);
    expected.data.last_active_time = 8888;
    assert_eq!(ctx.smart_wallet, expected);
    ctx.owner = key(2);
    assert_eq!(update_smart_wallet_activity(&mut ctx, 9999), Err(ErrorCode::Unauthorized));
    assert_eq!(ctx.smart_wallet, expected);
}

#[test]
fn period_is_changed_by_premium_owners() {
    let mut ctx = UpdateSmartWalletInactivityPeriod {
        smart_wallet: wallet(vec![heir(2, 100)]),
        user_profile: profile(true),
        owner: key(1),
    };
    assert_eq!(update_smart_wallet_inactivity_period(&mut ctx, 0), Err(ErrorCode::InvalidInactivityPeriod));
    assert_eq!(update_smart_wallet_inactivity_period(&mut ctx, 90), Ok(()));
    assert_eq!(ctx.smart_wallet.data.inactivity_period_seconds, 90);
    assert_eq!(ctx.smart_wallet.data.last_active_time, 1000);
    ctx.user_profile = profile(false);
    assert_eq!(update_smart_wallet_inactivity_period(&mut ctx, 0), Err(ErrorCode::PremiumRequired));
    ctx.owner = key(2);
    assert_eq!(update_smart_wallet_inactivity_period(&mut ctx, 0), Err(ErrorCode::Unauthorized));
    assert_eq!(ctx.smart_wallet.data.inactivity_period_seconds, 90);
}

#[test]
fn heir_is_added_where_the_total_comes_to_a_hundred() {
    let mut ctx = AddSmartWalletHeir {
        smart_wallet: wallet(vec![heir(2, 60)]),
        user_profile: profile(true),
        owner: key(1),
    };
    assert_eq!(add_smart_wallet_heir(&mut ctx, key(3), 30), Err(ErrorCode::InvalidAllocation));
    assert_eq!(add_smart_wallet_heir(&mut ctx, key(3), 41), Err(ErrorCode::InvalidAllocation));
    assert_eq!(ctx.smart_wallet, wallet(vec![heir(2, 60)]));
    assert_eq!(add_smart_wallet_heir(&mut ctx, key(3), 40), Ok(()));
    assert_eq!(ctx.smart_wallet, wallet(vec![heir(2, 60), heir(3, 40)]));
}

#[test]
fn full_wallet_has_no_room_for_another_heir() {
    let mut ctx = AddSmartWalletHeir {
        smart_wallet: wallet(vec![heir(2, 40), heir(3, 60)]),
        user_profile: profile(true),
        owner: key(1),
    };
    for percentage in [1, 50, 100] {
        assert_eq!(
            add_smart_wallet_heir(&mut ctx, key(4), percentage),
            Err(ErrorCode::InvalidAllocation)
        );
    }
    assert_eq!(ctx.smart_wallet, wallet(vec![heir(2, 40), heir(3, 60)]));
}

#[test]
fn added_heir_is_checked_for_its_percentage_and_its_name_first() {
    let mut ctx = AddSmartWalletHeir {
        smart_wallet: wallet(vec![heir(2, 60), heir(3, 40)]),
        user_profile: profile(true),
        owner: key(1),
    };
    assert_eq!(add_smart_wallet_heir(&mut ctx, key(4), 0), Err(ErrorCode::InvalidAllocation));
    assert_eq!(add_smart_wallet_heir(&mut ctx, key(4), 101), Err(ErrorCode::InvalidAllocation));
    assert_eq!(add_smart_wallet_heir(&mut ctx, key(3), 10), Err(ErrorCode::HeirAlreadyExists));
    assert_eq!(add_smart_wallet_heir(&mut ctx, key(2), 10), Err(ErrorCode::HeirAlreadyExists));
    assert_eq!(ctx.smart_wallet, wallet(vec![heir(2, 60), heir(3, 40)]));
}

#[test]
fn heir_is_added_by_premium_owners_up_to_ten() {
    let ten: Vec<HeirData> = (0..10).map(|i| heir(100 + i, 10)).collect();
    let mut ctx = AddSmartWalletHeir {
        smart_wallet: wallet(ten.clone()),
        user_profile: profile(true),
        owner: key(1),
    };
    assert_eq!(add_smart_wallet_heir(&mut ctx, key(3), 25), Err(ErrorCode::MaxHeirsReached));
    assert_eq!(add_smart_wallet_heir(&mut ctx, key(100), 25), Err(ErrorCode::MaxHeirsReached));
    assert_eq!(ctx.smart_wallet, wallet(ten));
    ctx.user_profile = profile(false);
    assert_eq!(add_smart_wallet_heir(&mut ctx, key(3), 0), Err(ErrorCode::PremiumRequired));
    ctx.owner = key(5);
    assert_eq!(add_smart_wallet_heir(&mut ctx, key(3), 0), Err(ErrorCode::Unauthorized));
}

#[test]
fn percentage_is_changed_at_the_first_entry_that_names_the_heir() {
    let mut ctx = UpdateSmartWalletHeirAllocation {
        smart_wallet: wallet(vec![heir(2, 50), heir(3, 20), heir(2, 10)]),
        user_profile: profile(true),
        owner: key(1),
    };
    assert_eq!(update_smart_wallet_heir_allocation(&mut ctx, key(2), 60), Err(ErrorCode::InvalidAllocation));
    assert_eq!(update_smart_wallet_heir_allocation(&mut ctx, key(3), 30), Err(ErrorCode::InvalidAllocation));
    assert_eq!(ctx.smart_wallet, wallet(vec![heir(2, 50), heir(3, 20), heir(2, 10)]));
    assert_eq!(update_smart_wallet_heir_allocation(&mut ctx, key(2), 70), Ok(()));
    assert_eq!(ctx.smart_wallet, wallet(vec![heir(2, 70), heir(3, 20), heir(2, 10)]));
}

#[test]
fn full_wallet_keeps_every_percentage() {
    let mut ctx = UpdateSmartWalletHeirAllocation {
        smart_wallet: wallet(vec![heir(2, 40), heir(3, 60)]),
        user_profile: profile(true),
        owner: key(1),
    };
    assert_eq!(update_smart_wallet_heir_allocation(&mut ctx, key(2), 41), Err(ErrorCode::InvalidAllocation));
    assert_eq!(update_smart_wallet_heir_allocation(&mut ctx, key(3), 59), Err(ErrorCode::InvalidAllocation));
    assert_eq!(update_smart_wallet_heir_allocation(&mut ctx, key(3), 100), Err(ErrorCode::InvalidAllocation));
    assert_eq!(ctx.smart_wallet, wallet(vec![heir(2, 40), heir(3, 60)]));
    assert_eq!(update_smart_wallet_heir_allocation(&mut ctx, key(3), 60), Ok(()));
    assert_eq!(ctx.smart_wallet, wallet(vec![heir(2, 40), heir(3, 60)]));
}

#[test]
fn changed_percentage_is_checked_for_its_range_and_its_heir_first() {
    let mut ctx = UpdateSmartWalletHeirAllocation {
        smart_wallet: wallet(vec![heir(2, 40), heir(3, 60)]),
        user_profile: profile(true),
        owner: key(1),
    };
    assert_eq!(update_smart_wallet_heir_allocation(&mut ctx, key(4), 1), Err(ErrorCode::HeirNotFound));
    assert_eq!(update_smart_wallet_heir_allocation(&mut ctx, key(4), 0), Err(ErrorCode::InvalidAllocation));
    assert_eq!(update_smart_wallet_heir_allocation(&mut ctx, key(2), 101), Err(ErrorCode::InvalidAllocation));
    ctx.user_profile = profile(false);
    assert_eq!(update_smart_wallet_heir_allocation(&mut ctx, key(2), 40), Err(ErrorCode::PremiumRequired));
    ctx.owner = key(5);
    assert_eq!(update_smart_wallet_heir_allocation(&mut ctx, key(2), 40), Err(ErrorCode::Unauthorized));
    assert_eq!(ctx.smart_wallet, wallet(vec![heir(2, 40), heir(3, 60)]));
}

#[test]
fn wallet_stays_within_its_balance_through_every_change() {
    let mut creation = creation(true);
    assert_eq!(
        create_smart_wallet_inheritance(&mut creation, vec![heir(2, 40), heir(3, 60)], 60, 1000),
        Ok(())
    );
    let mut addition = AddSmartWalletHeir {
        smart_wallet: creation.smart_wallet,
        user_profile: profile(true),
        owner: key(1),
    };
    assert_eq!(add_smart_wallet_heir(&mut addition, key(4), 50), Err(ErrorCode::InvalidAllocation));
    let mut ctx = execution(Vec::new(), 10000, 50);
    ctx.smart_wallet = addition.smart_wallet;
    let transfers = execute_inheritance(&mut ctx, 1061).unwrap();
    assert_eq!(
        transfers,
        vec![
            CoinTransfer { from: key(31), to: key(2), lamports: 3980 },
            CoinTransfer { from: key(31), to: key(3), lamports: 5970 },
            CoinTransfer { from: key(31), to: key(41), lamports: 50 },
        ]
    );
    let moved: u64 = transfers.iter().map(|t| t.lamports).sum();
    assert_eq!(moved, 10000);
}

#[test]
fn token_allocations_are_set_up_to_twenty() {
    let mut ctx = AddMultiTokenInheritance {
        smart_wallet: wallet(vec![heir(2, 100)]),
        platform_config: config(50),
        user_profile: profile(true),
        owner: key(1),
    };
    let twenty: Vec<TokenAllocation> =
        (0..20).map(|i| TokenAllocation { token_mint: key(i), allocation_percentage: 5 }).collect();
    let mut twenty_one = twenty.clone();
    twenty_one.push(TokenAllocation { token_mint: key(20), allocation_percentage: 5 });
    assert_eq!(add_multi_token_inheritance(&mut ctx, twenty_one), Err(ErrorCode::TooManyTokens));
    assert_eq!(ctx.smart_wallet, wallet(vec![heir(2, 100)]));
    assert_eq!(ctx.platform_config, config(50));
    assert_eq!(add_multi_token_inheritance(&mut ctx, twenty.clone()), Ok(()));
    assert_eq!(ctx.smart_wallet.data.token_allocations, twenty);
    assert_eq!(ctx.platform_config.data.total_multi_token_wallets, 2);
    assert_eq!(add_multi_token_inheritance(&mut ctx, Vec::new()), Ok(()));
    assert!(ctx.smart_wallet.data.token_allocations.is_empty());
    assert_eq!(ctx.platform_config.data.total_multi_token_wallets, 3);
}

#[test]
fn platform_deposits_are_for_the_owner() {
    let mut coins = DepositToSmartWallet {
        smart_wallet: wallet(vec![heir(2, 100)]),
        smart_wallet_pda: key(31),
        owner: key(1),
    };
    assert_eq!(
        deposit_to_smart_wallet(&coins, 900),
        Ok(CoinTransfer { from: key(1), to: key(31), lamports: 900 })
    );
    coins.owner = key(2);
    assert_eq!(deposit_to_smart_wallet(&coins, 900), Err(ErrorCode::Unauthorized));
    let good = DepositTokensToSmartWallet {
        smart_wallet: wallet(vec![heir(2, 100)]),
        owner_token_account: Account { key: key(20), data: TokenAccount { mint: key(3), owner: key(1) } },
        smart_wallet_token_account: Account {
            key: key(22),
            data: TokenAccount { mint: key(3), owner: key(31) },
        },
        smart_wallet_pda: key(31),
        token_mint: key(3),
        owner: key(1),
    };
    assert_eq!(
        deposit_tokens_to_smart_wallet(&good, 12),
        Ok(TokenTransfer { from: key(20), to: key(22), authority: key(1), amount: 12 })
    );
    let mut ctx = good.clone();
    ctx.owner_token_account.data.owner = key(2);
    assert_eq!(deposit_tokens_to_smart_wallet(&ctx, 12), Err(ErrorCode::Unauthorized));
    let mut ctx = good.clone();
    ctx.smart_wallet_token_account.data.mint = key(4);
    assert_eq!(deposit_tokens_to_smart_wallet(&ctx, 12), Err(ErrorCode::InvalidMint));
    let mut ctx = good.clone();
    ctx.owner_token_account.data.mint = key(4);
    assert_eq!(deposit_tokens_to_smart_wallet(&ctx, 12), Err(ErrorCode::InvalidMint));
}

#[test]
fn coin_withdrawal_needs_the_balance() {
    let mut ctx = WithdrawFromSmartWallet {
        smart_wallet: wallet(vec![heir(2, 100)]),
        smart_wallet_pda: AccountInfo { key: key(31), lamports: 500, data: Vec::new() },
        owner: key(1),
        recipient: key(6),
    };
    assert_eq!(
        withdraw_from_smart_wallet(&ctx, 500),
        Ok(CoinTransfer { from: key(31), to: key(6), lamports: 500 })
    );
    assert_eq!(withdraw_from_smart_wallet(&ctx, 501), Err(ErrorCode::InsufficientBalance));
    ctx.owner = key(2);
    assert_eq!(withdraw_from_smart_wallet(&ctx, 501), Err(ErrorCode::Unauthorized));
}

#[test]
fn token_withdrawal_checks_owner_mints_and_recipient() {
    let good = WithdrawTokensFromSmartWallet {
        smart_wallet: wallet(vec![heir(2, 100)]),
        smart_wallet_token_account: Account {
            key: key(22),
            data: TokenAccount { mint: key(3), owner: key(31) },
        },
        recipient_token_account: Account {
            key: key(23),
            data: TokenAccount { mint: key(3), owner: key(6) },
        },
        smart_wallet_pda: key(31),
        token_mint: key(3),
        owner: key(1),
        recipient: key(6),
    };
    assert_eq!(
        withdraw_tokens_from_smart_wallet(&good, 5),
        Ok(TokenTransfer { from: key(22), to: key(23), authority: key(31), amount: 5 })
    );
    let mut ctx = good.clone();
    ctx.owner = key(2);
    assert_eq!(withdraw_tokens_from_smart_wallet(&ctx, 5), Err(ErrorCode::Unauthorized));
    let mut ctx = good.clone();
    ctx.smart_wallet_token_account.data.mint = key(4);
    assert_eq!(withdraw_tokens_from_smart_wallet(&ctx, 5), Err(ErrorCode::InvalidMint));
    let mut ctx = good.clone();
    ctx.recipient_token_account.data.mint = key(4);
    ctx.recipient_token_account.data.owner = key(7);
    assert_eq!(withdraw_tokens_from_smart_wallet(&ctx, 5), Err(ErrorCode::InvalidMint));
    let mut ctx = good.clone();
    ctx.recipient_token_account.data.owner = key(7);
    assert_eq!(withdraw_tokens_from_smart_wallet(&ctx, 5), Err(ErrorCode::Unauthorized));
}

#[test]
fn platform_wallet_size_has_room_for_heirs_and_allocations() {
    assert_eq!(SmartWallet::SPACE, 1059);
}
