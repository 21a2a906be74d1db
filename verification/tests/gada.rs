use gado::accounts::{Account, AccountInfo, CoinTransfer, TokenAccount, TokenTransfer};
use gado::errors::ErrorCode;
use gado::gada::{
    add_coin_heir, add_token_heir, create_smart_wallet_inheritance, deposit_to_smart_wallet,
    deposit_tokens_to_smart_wallet, execute_inheritance, initialize, update_smart_wallet_activity,
    AddCoinHeir, AddTokenHeir, CoinHeir, CreateSmartWalletInheritance, DepositToSmartWallet,
    DepositTokensToSmartWallet, ExecuteInheritance, HeirData, Initialize, SmartWallet, TokenHeir,
    UpdateSmartWalletActivity,
};
use gado::pubkey::Pubkey;
use gado::wallets::{distribute, find_heir, total_allocation};

const DAY: i64 = 24 * 60 * 60;

fn key(n: u8) -> Pubkey {
    Pubkey::new_from_array([n; 32])
}

fn heir(n: u8, percentage: u8) -> HeirData {
    HeirData { heir_pubkey: key(n), allocation_percentage: percentage }
}

fn blank_wallet() -> SmartWallet {
    SmartWallet {
        owner: key(0),
        heirs: Vec::new(),
        inactivity_period_seconds: 0,
        last_active_time: 0,
        is_executed: false,
        bump: 0,
    }
}

fn wallet(heirs: Vec<HeirData>) -> SmartWallet {
    SmartWallet {
        owner: key(1),
        heirs,
        inactivity_period_seconds: 30 * DAY,
        last_active_time: 1000,
        is_executed: false,
        bump: 250,
    }
}

fn creation() -> CreateSmartWalletInheritance {
    CreateSmartWalletInheritance {
        smart_wallet: Account { key: key(30), data: blank_wallet() },
        smart_wallet_pda: key(31),
        owner: key(1),
        smart_wallet_bump: 250,
    }
}

fn execution(heirs: Vec<HeirData>, balance: u64) -> ExecuteInheritance {
    ExecuteInheritance {
        smart_wallet: Account { key: key(30), data: wallet(heirs) },
        smart_wallet_pda: AccountInfo { key: key(31), lamports: balance, data: Vec::new() },
        caller: key(77),
    }
}

fn blank_token_record() -> TokenHeir {
    TokenHeir {
        owner: key(0),
        heir: key(0),
        token_mint: key(0),
        amount: 0,
        last_active_time: 0,
        is_claimed: true,
        inactivity_period_seconds: 0,
        bump: 0,
    }
}

fn token_creation() -> AddTokenHeir {
    AddTokenHeir {
        token_heir: Account { key: key(10), data: blank_token_record() },
        owner: key(1),
        heir: key(2),
        token_mint: key(3),
        owner_token_account: Account { key: key(20), data: TokenAccount { mint: key(3), owner: key(1) } },
        escrow_token_account: Account {
            key: key(21),
            data: TokenAccount { mint: key(3), owner: key(10) },
        },
        token_heir_bump: 254,
    }
}

#[test]
fn set_up_of_the_first_program_always_succeeds() {
    assert_eq!(initialize(&Initialize {}), Ok(()));
}

#[test]
fn token_record_is_written_and_the_escrow_funded() {
    let mut ctx = token_creation();
    assert_eq!(
        add_token_heir(&mut ctx, 1000, 2 * DAY, 5000),
        Ok(TokenTransfer { from: key(20), to: key(21), authority: key(1), amount: 1000 })
    );
    assert_eq!(
        ctx.token_heir,
        Account {
            key: key(10),
            data: TokenHeir {
                owner: key(1),
                heir: key(2),
                token_mint: key(3),
                amount: 1000,
                last_active_time: 5000,
                is_claimed: false,
                inactivity_period_seconds: 2 * DAY,
                bump: 254,
            },
        }
    );
}

#[test]
fn token_record_with_a_period_of_zero_is_refused() {
    let mut ctx = token_creation();
    assert_eq!(add_token_heir(&mut ctx, 1000, 0, 5000), Err(ErrorCode::InvalidInactivityPeriod));
    assert_eq!(add_token_heir(&mut ctx, 1000, -5, 5000), Err(ErrorCode::InvalidInactivityPeriod));
    assert_eq!(ctx, token_creation());
}

#[test]
fn token_record_from_an_account_of_another_mint_is_refused() {
    let mut ctx = token_creation();
    ctx.owner_token_account.data.mint = key(4);
    ctx.owner_token_account.data.owner = key(9);
    assert_eq!(add_token_heir(&mut ctx, 1000, DAY, 5000), Err(ErrorCode::InvalidMint));
    assert_eq!(ctx.token_heir.data, blank_token_record());
}

#[test]
fn token_record_from_an_account_of_another_owner_is_refused() {
    let mut ctx = token_creation();
    ctx.owner_token_account.data.owner = key(9);
    assert_eq!(add_token_heir(&mut ctx, 1000, DAY, 5000), Err(ErrorCode::Unauthorized));
    assert_eq!(ctx.token_heir.data, blank_token_record());
}

#[test]
fn token_record_of_nothing_is_accepted_by_the_first_program() {
    let mut ctx = token_creation();
    assert_eq!(
        add_token_heir(&mut ctx, 0, 1, 5000),
        Ok(TokenTransfer { from: key(20), to: key(21), authority: key(1), amount: 0 })
    );
}

#[test]
fn coin_record_is_written_and_the_escrow_funded() {
    let blank = CoinHeir {
        owner: key(0),
        heir: key(0),
        amount: 0,
        last_active_time: 0,
        is_claimed: true,
        inactivity_period_seconds: 0,
        bump: 0,
    };
    let mut ctx = AddCoinHeir {
        coin_heir: Account { key: key(11), data: blank },
        owner: key(1),
        heir: key(2),
        coin_heir_bump: 253,
    };
    assert_eq!(
        add_coin_heir(&mut ctx, 0, 0, 5000),
        Err(ErrorCode::InvalidInactivityPeriod)
    );
    assert_eq!(ctx.coin_heir.data, blank);
    assert_eq!(
        add_coin_heir(&mut ctx, 500, 365 * DAY, 5000),
        Ok(CoinTransfer { from: key(1), to: key(11), lamports: 500 })
    );
    assert_eq!(
        ctx.coin_heir.data,
        CoinHeir {
            owner: key(1),
            heir: key(2),
            amount: 500,
            last_active_time: 5000,
            is_claimed: false,
            inactivity_period_seconds: 365 * DAY,
            bump: 253,
        }
    );
}

#[test]
fn allocations_are_added_up() {
    assert_eq!(total_allocation(&Vec::new()), 0);
    assert_eq!(total_allocation(&vec![heir(2, 40), heir(3, 60)]), 100);
    assert_eq!(total_allocation(&vec![heir(2, 255), heir(3, 255), heir(4, 1)]), 511);
}

#[test]
fn wallet_with_forty_and_forty_is_refused() {
    let mut ctx = creation();
    assert_eq!(
        create_smart_wallet_inheritance(&mut ctx, vec![heir(2, 40), heir(3, 40)], DAY, 1000),
        Err(ErrorCode::InvalidAllocation)
    );
    assert_eq!(ctx, creation());
}

#[test]
fn wallet_with_forty_and_sixty_is_created() {
    let mut ctx = creation();
    assert_eq!(
        create_smart_wallet_inheritance(&mut ctx, vec![heir(2, 40), heir(3, 60)], DAY, 1000),
        Ok(())
    );
    assert_eq!(
        ctx.smart_wallet,
        Account {
            key: key(30),
            data: SmartWallet {
                owner: key(1),
                heirs: vec![heir(2, 40), heir(3, 60)],
                inactivity_period_seconds: DAY,
                last_active_time: 1000,
                is_executed: false,
                bump: 250,
            },
        }
    );
}

#[test]
fn wallet_whose_percentages_pass_a_byte_is_refused() {
    let mut ctx = creation();
    assert_eq!(
        create_smart_wallet_inheritance(&mut ctx, vec![heir(2, 200), heir(3, 156)], DAY, 1000),
        Err(ErrorCode::InvalidAllocation)
    );
    assert_eq!(
        create_smart_wallet_inheritance(&mut ctx, vec![heir(2, 101)], DAY, 1000),
        Err(ErrorCode::InvalidAllocation)
    );
}

#[test]
fn wallet_without_heirs_is_refused() {
    let mut ctx = creation();
    assert_eq!(
        create_smart_wallet_inheritance(&mut ctx, Vec::new(), DAY, 1000),
        Err(ErrorCode::NoHeirsProvided)
    );
}

#[test]
fn wallet_with_eleven_heirs_is_refused() {
    let mut ctx = creation();
    let mut heirs: Vec<HeirData> = (0..10).map(|i| heir(100 + i, 9)).collect();
    heirs.push(heir(110, 10));
    assert_eq!(
        create_smart_wallet_inheritance(&mut ctx, heirs, DAY, 1000),
        Err(ErrorCode::TooManyHeirs)
    );
}

#[test]
fn wallet_with_ten_heirs_is_created() {
    let mut ctx = creation();
    let heirs: Vec<HeirData> = (0..10).map(|i| heir(100 + i, 10)).collect();
    assert_eq!(create_smart_wallet_inheritance(&mut ctx, heirs, DAY, 1000), Ok(()));
    assert_eq!(ctx.smart_wallet.data.heirs.len(), 10);
}

#[test]
fn wallet_with_a_period_of_zero_is_refused_first() {
    let mut ctx = creation();
    assert_eq!(
        create_smart_wallet_inheritance(&mut ctx, Vec::new(), 0, 1000),
        Err(ErrorCode::InvalidInactivityPeriod)
    );
}

#[test]
fn wallet_report_by_the_owner_restarts_the_clock() {
    let mut ctx = UpdateSmartWalletActivity {
        smart_wallet: Account { key: key(30), data: wallet(vec![heir(2, 100)]) },
        owner: key(1),
    };
    assert_eq!(update_smart_wallet_activity(&mut ctx, 4242), Ok(()));
    let mut expected = wallet(vec![heir(2, 100)]);
    expected.last_active_time = 4242;
    assert_eq!(ctx.smart_wallet.data, expected);
}

#[test]
fn wallet_report_by_a_stranger_is_unauthorized() {
    let mut ctx = UpdateSmartWalletActivity {
        smart_wallet: Account { key: key(30), data: wallet(vec![heir(2, 100)]) },
        owner: key(2),
    };
    assert_eq!(update_smart_wallet_activity(&mut ctx, 4242), Err(ErrorCode::Unauthorized));
    assert_eq!(ctx.smart_wallet.data, wallet(vec![heir(2, 100)]));
}

#[test]
fn shares_are_rounded_down_and_empty_ones_left_out() {
    let heirs = vec![heir(2, 50), heir(3, 0), heir(4, 49), heir(5, 1)];
    assert_eq!(
        distribute(key(31), &heirs, 150),
        vec![
            CoinTransfer { from: key(31), to: key(2), lamports: 75 },
            CoinTransfer { from: key(31), to: key(4), lamports: 73 },
            CoinTransfer { from: key(31), to: key(5), lamports: 1 },
        ]
    );
    assert_eq!(distribute(key(31), &heirs, 0), Vec::new());
    assert_eq!(
        distribute(key(31), &vec![heir(2, 100)], u64::MAX),
        vec![CoinTransfer { from: key(31), to: key(2), lamports: u64::MAX }]
    );
}

#[test]
fn heirs_are_found_at_their_first_entry() {
    let heirs = vec![heir(2, 50), heir(3, 20), heir(2, 30)];
    assert_eq!(find_heir(&heirs, &key(2)), Some(0));
    assert_eq!(find_heir(&heirs, &key(3)), Some(1));
    assert_eq!(find_heir(&heirs, &key(4)), None);
    assert_eq!(find_heir(&Vec::new(), &key(2)), None);
}

#[test]
fn distribution_before_the_deadline_is_refused() {
    let mut ctx = execution(vec![heir(2, 100)], 1000);
    assert_eq!(execute_inheritance(&mut ctx, 1000 + 30 * DAY), Err(ErrorCode::OwnerStillActive));
    assert_eq!(ctx, execution(vec![heir(2, 100)], 1000));
}

#[test]
fn distribution_splits_the_whole_balance() {
    let mut ctx = execution(vec![heir(2, 40), heir(3, 60)], 1001);
    assert_eq!(
        execute_inheritance(&mut ctx, 1001 + 30 * DAY),
        Ok(vec![
            CoinTransfer { from: key(31), to: key(2), lamports: 400 },
            CoinTransfer { from: key(31), to: key(3), lamports: 600 },
        ])
    );
    assert!(ctx.smart_wallet.data.is_executed);
    assert_eq!(ctx.smart_wallet.data.heirs, vec![heir(2, 40), heir(3, 60)]);
}

#[test]
fn distribution_twice_is_already_executed() {
    let mut ctx = execution(vec![heir(2, 100)], 1000);
    assert!(execute_inheritance(&mut ctx, 1001 + 30 * DAY).is_ok());
    assert_eq!(execute_inheritance(&mut ctx, 1002 + 30 * DAY), Err(ErrorCode::AlreadyExecuted));
}

#[test]
fn distribution_of_an_empty_account_marks_the_wallet() {
    let mut ctx = execution(vec![heir(2, 100)], 0);
    assert_eq!(execute_inheritance(&mut ctx, 1001 + 30 * DAY), Ok(Vec::new()));
    assert!(ctx.smart_wallet.data.is_executed);
}

#[test]
fn coin_deposit_is_for_the_owner_only() {
    let mut ctx = DepositToSmartWallet {
        smart_wallet: Account { key: key(30), data: wallet(vec![heir(2, 100)]) },
        smart_wallet_pda: key(31),
        owner: key(1),
    };
    assert_eq!(
        deposit_to_smart_wallet(&ctx, 900),
        Ok(CoinTransfer { from: key(1), to: key(31), lamports: 900 })
    );
    ctx.owner = key(2);
    assert_eq!(deposit_to_smart_wallet(&ctx, 900), Err(ErrorCode::Unauthorized));
}

#[test]
fn token_deposit_checks_owner_then_mints() {
    let good = DepositTokensToSmartWallet {
        smart_wallet: Account { key: key(30), data: wallet(vec![heir(2, 100)]) },
        owner_token_account: Account { key: key(20), data: TokenAccount { mint: key(3), owner: key(1) } },
        smart_wallet_token_account: Account {
            key: key(22),
            data: TokenAccount { mint: key(3), owner: key(31) },
        },
        smart_wallet_pda: key(31),
        token_mint: key(3),
        owner: key(1),
    };
    assert_eq!(
        deposit_tokens_to_smart_wallet(&good, 12),
        Ok(TokenTransfer { from: key(20), to: key(22), authority: key(1), amount: 12 })
    );
    let mut ctx = good.clone();
    ctx.owner = key(2);
    assert_eq!(deposit_tokens_to_smart_wallet(&ctx, 12), Err(ErrorCode::Unauthorized));
    let mut ctx = good.clone();
    ctx.owner_token_account.data.owner = key(2);
    ctx.owner_token_account.data.mint = key(4);
    assert_eq!(deposit_tokens_to_smart_wallet(&ctx, 12), Err(ErrorCode::Unauthorized));
    let mut ctx = good.clone();
    ctx.owner_token_account.data.mint = key(4);
    assert_eq!(deposit_tokens_to_smart_wallet(&ctx, 12), Err(ErrorCode::InvalidMint));
    let mut ctx = good.clone();
    ctx.smart_wallet_token_account.data.mint = key(4);
    assert_eq!(deposit_tokens_to_smart_wallet(&ctx, 12), Err(ErrorCode::InvalidMint));
}

#[test]
fn wallet_size_has_room_for_ten_heirs() {
    assert_eq!(SmartWallet::SPACE, 392);
}
