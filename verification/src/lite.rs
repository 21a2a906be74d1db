//! The third program, pared down to the switch itself: a profile per owner
//! that counts the owner's records, and heir records with escrow of native
//! coin or of tokens. An escrow of nothing is refused here.

use vstd::prelude::*;
use crate::accounts::{Account, CoinTransfer, TokenAccount, TokenTransfer};
use crate::errors::ErrorCode;
use crate::inactivity::{inactivity_elapsed, owner_gone};
use crate::pubkey::Pubkey;

verus! {

/// One owner's count of records.
#[derive(Clone, Copy, Debug, PartialEq, Eq)]
pub struct UserProfile {
    pub owner: Pubkey,
    pub total_inheritances: u32,
    pub bump: u8,
}

impl UserProfile {
    /// Bytes that the stored record takes.
    pub const SPACE: usize = 8 + 32 + 4 + 1;
}

/// An escrow of native coin, from `owner` for `heir`.
#[derive(Clone, Copy, Debug, PartialEq, Eq)]
pub struct SolHeir {
    pub owner: Pubkey,
    pub heir: Pubkey,
    pub amount: u64,
    pub inactivity_period_seconds: i64,
    pub last_activity: i64,
    pub is_claimed: bool,
    pub bump: u8,
}

impl SolHeir {
    /// Bytes that the stored record takes.
    pub const SPACE: usize = 8 + 32 + 32 + 8 + 8 + 8 + 1 + 1;

    /// Whether the heir's claim is due at `now`.
    pub open spec fn claimable_at(self, now: int) -> bool {
        !self.is_claimed && owner_gone(
            now,
            self.last_activity as int,
            self.inactivity_period_seconds as int,
        )
    }
}

/// An escrow of tokens of one mint, from `owner` for `heir`.
#[derive(Clone, Copy, Debug, PartialEq, Eq)]
pub struct TokenHeir {
    pub owner: Pubkey,
    pub heir: Pubkey,
    pub token_mint: Pubkey,
    pub amount: u64,
    pub inactivity_period_seconds: i64,
    pub last_activity: i64,
    pub is_claimed: bool,
    pub bump: u8,
}

impl TokenHeir {
    /// Bytes that the stored record takes.
    pub const SPACE: usize = 8 + 32 + 32 + 32 + 8 + 8 + 8 + 1 + 1;

    /// Whether the heir's claim is due at `now`.
    pub open spec fn claimable_at(self, now: int) -> bool {
        !self.is_claimed && owner_gone(
            now,
            self.last_activity as int,
            self.inactivity_period_seconds as int,
        )
    }
}

/// Accounts of the creation of a profile.
#[derive(Clone, Copy, Debug, PartialEq, Eq)]
pub struct InitializeUser {
    /// The account that the ledger has made for the new record; all of it is
    /// written.
    pub user_profile: Account<UserProfile>,
    /// The signer of the instruction.
    pub owner: Pubkey,
    /// The bump of the profile's address.
    pub user_profile_bump: u8,
}

/// Accounts of the creation of a coin record.
#[derive(Clone, Copy, Debug, PartialEq, Eq)]
pub struct AddSolHeir {
    /// The account that the ledger has made for the new record; all of it is
    /// written.
    pub sol_heir: Account<SolHeir>,
    pub user_profile: Account<UserProfile>,
    /// The signer of the instruction.
    pub owner: Pubkey,
    pub heir: Pubkey,
    /// The bump of the record's address.
    pub sol_heir_bump: u8,
}

/// Accounts of the creation of a token record.
#[derive(Clone, Copy, Debug, PartialEq, Eq)]
pub struct AddTokenHeir {
    /// The account that the ledger has made for the new record; all of it is
    /// written.
    pub token_heir: Account<TokenHeir>,
    pub user_profile: Account<UserProfile>,
    /// The signer of the instruction.
    pub owner: Pubkey,
    pub heir: Pubkey,
    pub token_mint: Pubkey,
    pub owner_token_account: Account<TokenAccount>,
    pub escrow_token_account: Account<TokenAccount>,
    /// The bump of the record's address.
    pub token_heir_bump: u8,
}

/// Accounts of an activity report on a coin record.
#[derive(Clone, Copy, Debug, PartialEq, Eq)]
pub struct UpdateSolActivity {
    pub sol_heir: Account<SolHeir>,
    /// The signer of the instruction.
    pub owner: Pubkey,
}

/// Accounts of an activity report on a token record.
#[derive(Clone, Copy, Debug, PartialEq, Eq)]
pub struct UpdateTokenActivity {
    pub token_heir: Account<TokenHeir>,
    /// The signer of the instruction.
    pub owner: Pubkey,
}

/// Accounts of a claim on a coin record.
#[derive(Clone, Copy, Debug, PartialEq, Eq)]
pub struct ClaimSolInheritance {
    pub sol_heir: Account<SolHeir>,
    /// The signer of the instruction.
    pub heir: Pubkey,
}

/// Accounts of a claim on a token record.
#[derive(Clone, Copy, Debug, PartialEq, Eq)]
pub struct ClaimTokenInheritance {
    pub token_heir: Account<TokenHeir>,
    pub escrow_token_account: Account<TokenAccount>,
    pub heir_token_account: Account<TokenAccount>,
    /// The signer of the instruction.
    pub heir: Pubkey,
}

/// The profile with one record more to its count.
pub open spec fn counted(profile: Account<UserProfile>) -> Account<UserProfile> {
    Account {
        data: UserProfile {
            total_inheritances: (profile.data.total_inheritances + 1) as u32,
            ..profile.data
        },
        ..profile
    }
}

impl InitializeUser {
    /// The accounts after the creation: the profile names the signer and
    /// counts nothing yet.
    pub open spec fn initialized(self) -> InitializeUser {
        InitializeUser {
            user_profile: Account {
                key: self.user_profile.key,
                data: UserProfile {
                    owner: self.owner,
                    total_inheritances: 0,
                    bump: self.user_profile_bump,
                },
            },
            ..self
        }
    }
}

/// Creates the signer's profile.
pub fn initialize_user(ctx: &mut InitializeUser) -> (r: Result<(), ErrorCode>)
    ensures
        r is Ok,
        *final(ctx) == old(ctx).initialized(),
{
    ctx.user_profile.data = UserProfile {
        owner: ctx.owner,
        total_inheritances: 0,
        bump: ctx.user_profile_bump,
    };
    Ok(())
}

/// Why an amount and an inactivity period are refused for a new record, or
/// `None` where they are accepted: both are positive.
pub open spec fn terms_refusal(amount: u64, inactivity_period_seconds: i64) -> Option<ErrorCode> {
    if amount == 0 {
        Some(ErrorCode::InvalidAmount)
    } else if inactivity_period_seconds <= 0 {
        Some(ErrorCode::InvalidInactivityPeriod)
    } else {
        None
    }
}

impl AddSolHeir {
    /// The record that the creation writes.
    pub open spec fn record(self, amount: u64, inactivity_period_seconds: i64, now: i64) -> SolHeir {
        SolHeir {
            owner: self.owner,
            heir: self.heir,
            amount,
            inactivity_period_seconds,
            last_activity: now,
            is_claimed: false,
            bump: self.sol_heir_bump,
        }
    }

    /// The accounts after the creation: the record is written, at the address
    /// it had, and the profile counts it.
    pub open spec fn created(self, amount: u64, inactivity_period_seconds: i64, now: i64) -> AddSolHeir {
        AddSolHeir {
            sol_heir: Account {
                key: self.sol_heir.key,
                data: self.record(amount, inactivity_period_seconds, now),
            },
            user_profile: counted(self.user_profile),
            ..self
        }
    }

    /// The transfer that funds the escrow: out of the owner's account and into
    /// the record's own.
    pub open spec fn funding(self, amount: u64) -> CoinTransfer {
        CoinTransfer { from: self.owner, to: self.sol_heir.key, lamports: amount }
    }
}

/// Creates a coin record: `amount` of native coin is escrowed for the heir,
/// who may claim it once the owner has been silent for longer than
/// `inactivity_period_seconds`. The clock starts at `now`.
///
/// The profile's count is thirty-two bits wide, and the call asks that it has
/// room for one more where the creation goes through.
pub fn add_sol_heir(ctx: &mut AddSolHeir, amount: u64, inactivity_period_seconds: i64, now: i64) -> (r:
    Result<CoinTransfer, ErrorCode>)
    requires
        terms_refusal(amount, inactivity_period_seconds) is None ==> old(
            ctx,
        ).user_profile.data.total_inheritances < u32::MAX,
    ensures
        r == match terms_refusal(amount, inactivity_period_seconds) {
            Some(e) => Err::<CoinTransfer, ErrorCode>(e),
            None => Ok(old(ctx).funding(amount)),
        },
        *final(ctx) == if r is Ok {
            old(ctx).created(amount, inactivity_period_seconds, now)
        } else {
            *old(ctx)
        },
{
    if amount == 0 {
        return Err(ErrorCode::InvalidAmount);
    }
    if inactivity_period_seconds <= 0 {
        return Err(ErrorCode::InvalidInactivityPeriod);
    }
    ctx.sol_heir.data = SolHeir {
        owner: ctx.owner,
        heir: ctx.heir,
        amount,
        inactivity_period_seconds,
        last_activity: now,
        is_claimed: false,
        bump: ctx.sol_heir_bump,
    };
    ctx.user_profile.data.total_inheritances = ctx.user_profile.data.total_inheritances + 1;
    Ok(CoinTransfer { from: ctx.owner, to: ctx.sol_heir.key, lamports: amount })
}

impl AddTokenHeir {
    /// Why the creation is refused, or `None` where it goes through.
    pub open spec fn refusal(self, amount: u64, inactivity_period_seconds: i64) -> Option<
        ErrorCode,
    > {
        if terms_refusal(amount, inactivity_period_seconds) is Some {
            terms_refusal(amount, inactivity_period_seconds)
        } else if self.owner_token_account.data.owner != self.owner {
            Some(ErrorCode::Unauthorized)
        } else if self.owner_token_account.data.mint != self.token_mint {
            Some(ErrorCode::InvalidMint)
        } else {
            None
        }
    }

    /// The record that the creation writes.
    pub open spec fn record(self, amount: u64, inactivity_period_seconds: i64, now: i64) -> TokenHeir {
        TokenHeir {
            owner: self.owner,
            heir: self.heir,
            token_mint: self.token_mint,
            amount,
            inactivity_period_seconds,
            last_activity: now,
            is_claimed: false,
            bump: self.token_heir_bump,
        }
    }

    /// The accounts after the creation: the record is written, at the address
    /// it had, and the profile counts it.
    pub open spec fn created(self, amount: u64, inactivity_period_seconds: i64, now: i64) -> AddTokenHeir {
        AddTokenHeir {
            token_heir: Account {
                key: self.token_heir.key,
                data: self.record(amount, inactivity_period_seconds, now),
            },
            user_profile: counted(self.user_profile),
            ..self
        }
    }

    /// The transfer that funds the escrow, signed for by the owner.
    pub open spec fn funding(self, amount: u64) -> TokenTransfer {
        TokenTransfer {
            from: self.owner_token_account.key,
            to: self.escrow_token_account.key,
            authority: self.owner,
            amount,
        }
    }
}

/// Creates a token record: `amount` tokens of the mint are escrowed for the
/// heir, who may claim them once the owner has been silent for longer than
/// `inactivity_period_seconds`. The clock starts at `now`.
///
/// The profile's count is thirty-two bits wide, and the call asks that it has
/// room for one more where the creation goes through.
pub fn add_token_heir(
    ctx: &mut AddTokenHeir,
    amount: u64,
    inactivity_period_seconds: i64,
    now: i64,
) -> (r: Result<TokenTransfer, ErrorCode>)
    requires
        old(ctx).refusal(amount, inactivity_period_seconds) is None ==> old(
            ctx,
        ).user_profile.data.total_inheritances < u32::MAX,
    ensures
        r == match old(ctx).refusal(amount, inactivity_period_seconds) {
            Some(e) => Err::<TokenTransfer, ErrorCode>(e),
            None => Ok(old(ctx).funding(amount)),
        },
        *final(ctx) == if r is Ok {
            old(ctx).created(amount, inactivity_period_seconds, now)
        } else {
            *old(ctx)
        },
{
    if amount == 0 {
        return Err(ErrorCode::InvalidAmount);
    }
    if inactivity_period_seconds <= 0 {
        return Err(ErrorCode::InvalidInactivityPeriod);
    }
    if ctx.owner_token_account.data.owner != ctx.owner {
        return Err(ErrorCode::Unauthorized);
    }
    if ctx.owner_token_account.data.mint != ctx.token_mint {
        return Err(ErrorCode::InvalidMint);
    }
    ctx.token_heir.data = TokenHeir {
        owner: ctx.owner,
        heir: ctx.heir,
        token_mint: ctx.token_mint,
        amount,
        inactivity_period_seconds,
        last_activity: now,
        is_claimed: false,
        bump: ctx.token_heir_bump,
    };
    ctx.user_profile.data.total_inheritances = ctx.user_profile.data.total_inheritances + 1;
    Ok(
        TokenTransfer {
            from: ctx.owner_token_account.key,
            to: ctx.escrow_token_account.key,
            authority: ctx.owner,
            amount,
        },
    )
}

impl UpdateSolActivity {
    /// The accounts after a report at `now`: the clock of the record is reset
    /// and nothing else is touched.
    pub open spec fn reported(self, now: i64) -> UpdateSolActivity {
        UpdateSolActivity {
            sol_heir: Account {
                data: SolHeir { last_activity: now, ..self.sol_heir.data },
                ..self.sol_heir
            },
            ..self
        }
    }
}

/// The owner of a coin record reports activity at `now`: the clock of the
/// record restarts. Anyone else is refused and the record stays as it was.
pub fn update_sol_activity(ctx: &mut UpdateSolActivity, now: i64) -> (r: Result<(), ErrorCode>)
    ensures
        r == if old(ctx).sol_heir.data.owner == old(ctx).owner {
            Ok::<(), ErrorCode>(())
        } else {
            Err(ErrorCode::Unauthorized)
        },
        *final(ctx) == if r is Ok {
            old(ctx).reported(now)
        } else {
            *old(ctx)
        },
{
    if ctx.sol_heir.data.owner != ctx.owner {
        return Err(ErrorCode::Unauthorized);
    }
    ctx.sol_heir.data.last_activity = now;
    Ok(())
}

impl UpdateTokenActivity {
    /// The accounts after a report at `now`: the clock of the record is reset
    /// and nothing else is touched.
    pub open spec fn reported(self, now: i64) -> UpdateTokenActivity {
        UpdateTokenActivity {
            token_heir: Account {
                data: TokenHeir { last_activity: now, ..self.token_heir.data },
                ..self.token_heir
            },
            ..self
        }
    }
}

/// The owner of a token record reports activity at `now`: the clock of the
/// record restarts. Anyone else is refused and the record stays as it was.
pub fn update_token_activity(ctx: &mut UpdateTokenActivity, now: i64) -> (r: Result<(), ErrorCode>)
    ensures
        r == if old(ctx).token_heir.data.owner == old(ctx).owner {
            Ok::<(), ErrorCode>(())
        } else {
            Err(ErrorCode::Unauthorized)
        },
        *final(ctx) == if r is Ok {
            old(ctx).reported(now)
        } else {
            *old(ctx)
        },
{
    if ctx.token_heir.data.owner != ctx.owner {
        return Err(ErrorCode::Unauthorized);
    }
    ctx.token_heir.data.last_activity = now;
    Ok(())
}

impl ClaimSolInheritance {
    /// Why a claim at `now` is refused, or `None` where it is granted. The
    /// state of the record is looked at first, then the clock, then the
    /// caller.
    pub open spec fn refusal(self, now: int) -> Option<ErrorCode> {
        if self.sol_heir.data.is_claimed {
            Some(ErrorCode::AlreadyClaimed)
        } else if !self.sol_heir.data.claimable_at(now) {
            Some(ErrorCode::OwnerStillActive)
        } else if self.sol_heir.data.heir != self.heir {
            Some(ErrorCode::Unauthorized)
        } else {
            None
        }
    }

    /// The transfer that pays the heir: the whole escrowed amount, out of the
    /// record's own account and into the heir's.
    pub open spec fn payout(self) -> CoinTransfer {
        CoinTransfer { from: self.sol_heir.key, to: self.heir, lamports: self.sol_heir.data.amount }
    }

    /// The accounts after a granted claim: the record is marked as claimed.
    pub open spec fn claimed(self) -> ClaimSolInheritance {
        ClaimSolInheritance {
            sol_heir: Account {
                data: SolHeir { is_claimed: true, ..self.sol_heir.data },
                ..self.sol_heir
            },
            ..self
        }
    }
}

/// The heir claims a coin record at `now`.
///
/// The claim is granted when the record has not been claimed, the owner
/// counts as gone and the caller is the heir; the record is then marked as
/// claimed and the payout is handed back for the ledger to apply. A refused
/// claim leaves the record as it was.
pub fn claim_sol_inheritance(ctx: &mut ClaimSolInheritance, now: i64) -> (r: Result<
    CoinTransfer,
    ErrorCode,
>)
    ensures
        r == match old(ctx).refusal(now as int) {
            Some(e) => Err::<CoinTransfer, ErrorCode>(e),
            None => Ok(old(ctx).payout()),
        },
        *final(ctx) == if r is Ok {
            old(ctx).claimed()
        } else {
            *old(ctx)
        },
        final(ctx).sol_heir.data.is_claimed == (old(ctx).sol_heir.data.is_claimed || r is Ok),
{
    if ctx.sol_heir.data.is_claimed {
        return Err(ErrorCode::AlreadyClaimed);
    }
    if !inactivity_elapsed(
        now,
        ctx.sol_heir.data.last_activity,
        ctx.sol_heir.data.inactivity_period_seconds,
    ) {
        return Err(ErrorCode::OwnerStillActive);
    }
    if ctx.sol_heir.data.heir != ctx.heir {
        return Err(ErrorCode::Unauthorized);
    }
    let payout = CoinTransfer {
        from: ctx.sol_heir.key,
        to: ctx.heir,
        lamports: ctx.sol_heir.data.amount,
    };
    ctx.sol_heir.data.is_claimed = true;
    Ok(payout)
}

impl ClaimTokenInheritance {
    /// Whether the caller is the heir of the record, the token account to pay
    /// into is the heir's, and both token accounts hold the record's mint.
    pub open spec fn parties_match(self) -> bool {
        &&& self.token_heir.data.heir == self.heir
        &&& self.heir_token_account.data.owner == self.heir
        &&& self.heir_token_account.data.mint == self.token_heir.data.token_mint
        &&& self.escrow_token_account.data.mint == self.token_heir.data.token_mint
    }

    /// Why a claim at `now` is refused, or `None` where it is granted. The
    /// state of the record is looked at first, then the clock, then the
    /// parties in the order in which they are listed here.
    pub open spec fn refusal(self, now: int) -> Option<ErrorCode> {
        let record = self.token_heir.data;
        if record.is_claimed {
            Some(ErrorCode::AlreadyClaimed)
        } else if !record.claimable_at(now) {
            Some(ErrorCode::OwnerStillActive)
        } else if record.heir != self.heir {
            Some(ErrorCode::Unauthorized)
        } else if self.heir_token_account.data.owner != self.heir {
            Some(ErrorCode::Unauthorized)
        } else if self.heir_token_account.data.mint != record.token_mint {
            Some(ErrorCode::InvalidMint)
        } else if self.escrow_token_account.data.mint != record.token_mint {
            Some(ErrorCode::InvalidMint)
        } else {
            None
        }
    }

    /// The transfer that pays the heir: the whole escrowed amount, out of the
    /// escrow and into the heir's token account, signed for by the record.
    pub open spec fn payout(self) -> TokenTransfer {
        TokenTransfer {
            from: self.escrow_token_account.key,
            to: self.heir_token_account.key,
            authority: self.token_heir.key,
            amount: self.token_heir.data.amount,
        }
    }

    /// The accounts after a granted claim: the record is marked as claimed.
    pub open spec fn claimed(self) -> ClaimTokenInheritance {
        ClaimTokenInheritance {
            token_heir: Account {
                data: TokenHeir { is_claimed: true, ..self.token_heir.data },
                ..self.token_heir
            },
            ..self
        }
    }
}

/// The heir claims a token record at `now`.
///
/// The claim is granted when the record has not been claimed, the owner
/// counts as gone and the parties match; the record is then marked as
/// claimed and the payout is handed back for the ledger to apply. A refused
/// claim leaves the record as it was.
pub fn claim_token_inheritance(ctx: &mut ClaimTokenInheritance, now: i64) -> (r: Result<
    TokenTransfer,
    ErrorCode,
>)
    ensures
        r == match old(ctx).refusal(now as int) {
            Some(e) => Err::<TokenTransfer, ErrorCode>(e),
            None => Ok(old(ctx).payout()),
        },
        *final(ctx) == if r is Ok {
            old(ctx).claimed()
        } else {
            *old(ctx)
        },
        final(ctx).token_heir.data.is_claimed == (old(ctx).token_heir.data.is_claimed || r is Ok),
{
    if ctx.token_heir.data.is_claimed {
        return Err(ErrorCode::AlreadyClaimed);
    }
    if !inactivity_elapsed(
        now,
        ctx.token_heir.data.last_activity,
        ctx.token_heir.data.inactivity_period_seconds,
    ) {
        return Err(ErrorCode::OwnerStillActive);
    }
    if ctx.token_heir.data.heir != ctx.heir {
        return Err(ErrorCode::Unauthorized);
    }
    if ctx.heir_token_account.data.owner != ctx.heir {
        return Err(ErrorCode::Unauthorized);
    }
    if ctx.heir_token_account.data.mint != ctx.token_heir.data.token_mint {
        return Err(ErrorCode::InvalidMint);
    }
    if ctx.escrow_token_account.data.mint != ctx.token_heir.data.token_mint {
        return Err(ErrorCode::InvalidMint);
    }
    let payout = TokenTransfer {
        from: ctx.escrow_token_account.key,
        to: ctx.heir_token_account.key,
        authority: ctx.token_heir.key,
        amount: ctx.token_heir.data.amount,
    };
    ctx.token_heir.data.is_claimed = true;
    Ok(payout)
}

/// A record is paid out at most once: after a granted claim every further
/// claim is refused as already claimed, whoever makes it and whenever.
pub proof fn lemma_sol_claim_is_final(ctx: ClaimSolInheritance, now: int, again: ClaimSolInheritance, later: int)
    requires
        ctx.refusal(now) is None,
        again.sol_heir == ctx.claimed().sol_heir,
    ensures
        again.refusal(later) == Some(ErrorCode::AlreadyClaimed),
{
}

/// A record is paid out at most once: after a granted claim every further
/// claim is refused as already claimed, whoever makes it and whenever.
pub proof fn lemma_token_claim_is_final(
    ctx: ClaimTokenInheritance,
    now: int,
    again: ClaimTokenInheritance,
    later: int,
)
    requires
        ctx.refusal(now) is None,
        again.token_heir == ctx.claimed().token_heir,
    ensures
        again.refusal(later) == Some(ErrorCode::AlreadyClaimed),
{
}

/// On a record that has not been claimed, the heir's claim is granted exactly
/// when strictly more than the inactivity period has passed since the
/// owner's last report. Up to and including the last second of the period a
/// claim is refused because the owner is still active, whoever asks.
pub proof fn lemma_sol_claim_deadline(ctx: ClaimSolInheritance, now: int)
    requires
        !ctx.sol_heir.data.is_claimed,
    ensures
        ctx.sol_heir.data.heir == ctx.heir ==> (ctx.refusal(now) is None <==> now
            - ctx.sol_heir.data.last_activity > ctx.sol_heir.data.inactivity_period_seconds),
        now - ctx.sol_heir.data.last_activity <= ctx.sol_heir.data.inactivity_period_seconds
            ==> ctx.refusal(now) == Some(ErrorCode::OwnerStillActive),
{
}

/// On a record that has not been claimed, and with matching parties, a claim
/// is granted exactly when strictly more than the inactivity period has
/// passed since the owner's last report. Up to and including the last second
/// of the period it is refused because the owner is still active, whoever
/// asks.
pub proof fn lemma_token_claim_deadline(ctx: ClaimTokenInheritance, now: int)
    requires
        !ctx.token_heir.data.is_claimed,
    ensures
        ctx.parties_match() ==> (ctx.refusal(now) is None <==> now
            - ctx.token_heir.data.last_activity > ctx.token_heir.data.inactivity_period_seconds),
        now - ctx.token_heir.data.last_activity <= ctx.token_heir.data.inactivity_period_seconds
            ==> ctx.refusal(now) == Some(ErrorCode::OwnerStillActive),
{
}

} // verus!
