use gado::accounts::{Account, CoinTransfer, TokenAccount, TokenTransfer};
use gado::errors::ErrorCode;
use gado::lite::{
    add_sol_heir, add_token_heir, claim_sol_inheritance, claim_token_inheritance, initialize_user,
    update_sol_activity, update_token_activity, AddSolHeir, AddTokenHeir, ClaimSolInheritance,
    ClaimTokenInheritance, InitializeUser, SolHeir, TokenHeir, UpdateSolActivity,
    UpdateTokenActivity, UserProfile,
};
use gado::pubkey::Pubkey;

const DAY: i64 = 24 * 60 * 60;

fn key(n: u8) -> Pubkey {
    Pubkey::new_from_array([n; 32])
}

fn profile() -> Account<UserProfile> {
    Account { key: key(42), data: UserProfile { owner: key(1), total_inheritances: 2, bump: 249 } }
}

fn sol_record() -> Account<SolHeir> {
    Account {
        key: key(11),
        data: SolHeir {
            owner: key(1),
            heir: key(2),
            amount: 777,
            inactivity_period_seconds: 7 * DAY,
            last_activity: 5000,
            is_claimed: false,
            bump: 253,
        },
    }
}

fn token_record() -> Account<TokenHeir> {
    Account {
        key: key(10),
        data: TokenHeir {
            owner: key(1),
            heir: key(2),
            token_mint: key(3),
            amount: 1000,
            inactivity_period_seconds: 7 * DAY,
            last_activity: 5000,
            is_claimed: false,
            bump: 254,
        },
    }
}

fn blank_sol() -> SolHeir {
    SolHeir {
        owner: key(0),
        heir: key(0),
        amount: 0,
        inactivity_period_seconds: 0,
        last_activity: 0,
        is_claimed: true,
        bump: 0,
    }
}

fn blank_token() -> TokenHeir {
    TokenHeir {
        owner: key(0),
        heir: key(0),
        token_mint: key(0),
        amount: 0,
        inactivity_period_seconds: 0,
        last_activity: 0,
        is_claimed: true,
        bump: 0,
    }
}

fn token_creation() -> AddTokenHeir {
    AddTokenHeir {
        token_heir: Account { key: key(10), data: blank_token() },
        user_profile: profile(),
        owner: key(1),
        heir: key(2),
        token_mint: key(3),
        owner_token_account: Account { key: key(20), data: TokenAccount { mint: key(3), owner: key(1) } },
        escrow_token_account: Account {
            key: key(21),
            data: TokenAccount { mint: key(3), owner: key(10) },
        },
        token_heir_bump: 254,
    }
}

fn token_claim() -> ClaimTokenInheritance {
    ClaimTokenInheritance {
        token_heir: token_record(),
        escrow_token_account: Account {
            key: key(21),
            data: TokenAccount { mint: key(3), owner: key(10) },
        },
        heir_token_account: Account { key: key(20), data: TokenAccount { mint: key(3), owner: key(2) } },
        heir: key(2),
    }
}

#[test]
fn new_profile_counts_nothing() {
    let mut ctx = InitializeUser { user_profile: profile(), owner: key(6), user_profile_bump: 200 };
    assert_eq!(initialize_user(&mut ctx), Ok(()));
    assert_eq!(
        ctx.user_profile,
        Account { key: key(42), data: UserProfile { owner: key(6), total_inheritances: 0, bump: 200 } }
    );
}

#[test]
fn coin_escrow_of_nothing_is_refused() {
    let mut ctx = AddSolHeir {
        sol_heir: Account { key: key(11), data: blank_sol() },
        user_profile: profile(),
        owner: key(1),
        heir: key(2),
        sol_heir_bump: 253,
    };
    assert_eq!(add_sol_heir(&mut ctx, 0, 0, 5000), Err(ErrorCode::InvalidAmount));
    assert_eq!(add_sol_heir(&mut ctx, 1, 0, 5000), Err(ErrorCode::InvalidInactivityPeriod));
    assert_eq!(ctx.sol_heir.data, blank_sol());
    assert_eq!(ctx.user_profile, profile());
}

#[test]
fn coin_escrow_is_written_funded_and_counted() {
    let mut ctx = AddSolHeir {
        sol_heir: Account { key: key(11), data: blank_sol() },
        user_profile: profile(),
        owner: key(1),
        heir: key(2),
        sol_heir_bump: 253,
    };
    assert_eq!(
        add_sol_heir(&mut ctx, 777, 7 * DAY, 5000),
        Ok(CoinTransfer { from: key(1), to: key(11), lamports: 777 })
    );
    assert_eq!(ctx.sol_heir, sol_record());
    assert_eq!(ctx.user_profile.data.total_inheritances, 3);
}

#[test]
fn token_escrow_checks_terms_then_owner_then_mint() {
    let mut ctx = token_creation();
    ctx.owner_token_account.data.owner = key(9);
    ctx.owner_token_account.data.mint = key(4);
    assert_eq!(add_token_heir(&mut ctx, 0, 0, 5000), Err(ErrorCode::InvalidAmount));
    assert_eq!(add_token_heir(&mut ctx, 5, -1, 5000), Err(ErrorCode::InvalidInactivityPeriod));
    assert_eq!(add_token_heir(&mut ctx, 5, 1, 5000), Err(ErrorCode::Unauthorized));
    ctx.owner_token_account.data.owner = key(1);
    assert_eq!(add_token_heir(&mut ctx, 5, 1, 5000), Err(ErrorCode::InvalidMint));
    assert_eq!(ctx.token_heir.data, blank_token());
    assert_eq!(ctx.user_profile, profile());
}

#[test]
fn token_escrow_is_written_funded_and_counted() {
    let mut ctx = token_creation();
    assert_eq!(
        add_token_heir(&mut ctx, 1000, 7 * DAY, 5000),
        Ok(TokenTransfer { from: key(20), to: key(21), authority: key(1), amount: 1000 })
    );
    assert_eq!(ctx.token_heir, token_record());
    assert_eq!(ctx.user_profile.data.total_inheritances, 3);
}

#[test]
fn reports_are_for_the_owner() {
    let mut sol = UpdateSolActivity { sol_heir: sol_record(), owner: key(2) };
    assert_eq!(update_sol_activity(&mut sol, 6000), Err(ErrorCode::Unauthorized));
    assert_eq!(sol.sol_heir, sol_record());
    sol.owner = key(1);
    assert_eq!(update_sol_activity(&mut sol, 6000), Ok(()));
    assert_eq!(sol.sol_heir.data.last_activity, 6000);
    let mut token = UpdateTokenActivity { token_heir: token_record(), owner: key(2) };
    assert_eq!(update_token_activity(&mut token, 6000), Err(ErrorCode::Unauthorized));
    assert_eq!(token.token_heir, token_record());
    token.owner = key(1);
    assert_eq!(update_token_activity(&mut token, 6000), Ok(()));
    let mut expected = token_record();
    expected.data.last_activity = 6000;
    assert_eq!(token.token_heir, expected);
}

#[test]
fn coin_inheritance_is_claimed_once_after_the_deadline() {
    let mut ctx = ClaimSolInheritance { sol_heir: sol_record(), heir: key(2) };
    assert_eq!(claim_sol_inheritance(&mut ctx, 5000 + 7 * DAY), Err(ErrorCode::OwnerStillActive));
    assert_eq!(ctx.sol_heir, sol_record());
    assert_eq!(
        claim_sol_inheritance(&mut ctx, 5001 + 7 * DAY),
        Ok(CoinTransfer { from: key(11), to: key(2), lamports: 777 })
    );
    assert!(ctx.sol_heir.data.is_claimed);
    assert_eq!(claim_sol_inheritance(&mut ctx, 5002 + 7 * DAY), Err(ErrorCode::AlreadyClaimed));
}

#[test]
fn coin_inheritance_is_for_the_heir() {
    let mut ctx = ClaimSolInheritance { sol_heir: sol_record(), heir: key(1) };
    assert_eq!(claim_sol_inheritance(&mut ctx, 5001 + 7 * DAY), Err(ErrorCode::Unauthorized));
    assert_eq!(ctx.sol_heir, sol_record());
}

#[test]
fn token_inheritance_is_claimed_once_after_the_deadline() {
    let mut ctx = token_claim();
    assert_eq!(claim_token_inheritance(&mut ctx, 5000 + 7 * DAY), Err(ErrorCode::OwnerStillActive));
    assert_eq!(ctx, token_claim());
    assert_eq!(
        claim_token_inheritance(&mut ctx, 5001 + 7 * DAY),
        Ok(TokenTransfer { from: key(21), to: key(20), authority: key(10), amount: 1000 })
    );
    assert!(ctx.token_heir.data.is_claimed);
    assert_eq!(claim_token_inheritance(&mut ctx, 5002 + 7 * DAY), Err(ErrorCode::AlreadyClaimed));
}

#[test]
fn token_inheritance_checks_the_parties() {
    let late = 5001 + 7 * DAY;
    let mut ctx = token_claim();
    ctx.heir = key(9);
    assert_eq!(claim_token_inheritance(&mut ctx, late), Err(ErrorCode::Unauthorized));
    let mut ctx = token_claim();
    ctx.heir_token_account.data.owner = key(9);
    ctx.heir_token_account.data.mint = key(4);
    assert_eq!(claim_token_inheritance(&mut ctx, late), Err(ErrorCode::Unauthorized));
    let mut ctx = token_claim();
    ctx.heir_token_account.data.mint = key(4);
    assert_eq!(claim_token_inheritance(&mut ctx, late), Err(ErrorCode::InvalidMint));
    let mut ctx = token_claim();
    ctx.escrow_token_account.data.mint = key(4);
    assert_eq!(claim_token_inheritance(&mut ctx, late), Err(ErrorCode::InvalidMint));
    assert_eq!(ctx.token_heir, token_record());
}

#[test]
fn lite_record_sizes_are_those_of_the_stored_layout() {
    assert_eq!(UserProfile::SPACE, 45);
    assert_eq!(SolHeir::SPACE, 98);
    assert_eq!(TokenHeir::SPACE, 130);
}
