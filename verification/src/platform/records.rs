//! Creating heir records on the platform: as in the first program, but the
//! owner's plan decides which inactivity periods may be chosen, and the
//! owner's profile counts what is created.

use vstd::prelude::*;
use crate::accounts::{Account, CoinTransfer, TokenAccount, TokenTransfer};
use crate::errors::ErrorCode;
use crate::heirs::{CoinHeir, TokenHeir};
use crate::platform::state::{UserProfile, INACTIVITY_PERIOD_SECONDS};
use crate::pubkey::Pubkey;

verus! {

/// Accounts of the creation of a token record.
#[derive(Clone, Copy, Debug, PartialEq, Eq)]
pub struct AddTokenHeir {
    /// The account that the ledger has made for the new record; all of it is
    /// written.
    pub token_heir: Account<TokenHeir>,
    pub user_profile: Account<UserProfile>,
    /// The signer of the instruction.
    pub owner: Pubkey,
    pub heir: Pubkey,
    pub token_mint: Pubkey,
    pub owner_token_account: Account<TokenAccount>,
    pub escrow_token_account: Account<TokenAccount>,
    /// The bump of the record's address.
    pub token_heir_bump: u8,
}

/// Accounts of the creation of a coin record.
#[derive(Clone, Copy, Debug, PartialEq, Eq)]
pub struct AddCoinHeir {
    /// The account that the ledger has made for the new record; all of it is
    /// written.
    pub coin_heir: Account<CoinHeir>,
    pub user_profile: Account<UserProfile>,
    /// The signer of the instruction.
    pub owner: Pubkey,
    pub heir: Pubkey,
    /// The bump of the record's address.
    pub coin_heir_bump: u8,
}

/// The profile with one creation more to its count.
pub open spec fn counted(profile: Account<UserProfile>) -> Account<UserProfile> {
    Account {
        data: UserProfile {
            total_inheritances_created: (profile.data.total_inheritances_created + 1) as u32,
            ..profile.data
        },
        ..profile
    }
}

impl AddTokenHeir {
    /// Why the creation is refused, or `None` where it goes through.
    pub open spec fn refusal(self, inactivity_period_seconds: i64) -> Option<ErrorCode> {
        if inactivity_period_seconds <= 0 {
            Some(ErrorCode::InvalidInactivityPeriod)
        } else if !self.user_profile.data.allows_period(inactivity_period_seconds) {
            Some(ErrorCode::CustomInactivityNotAllowed)
        } else if self.owner_token_account.data.mint != self.token_mint {
            Some(ErrorCode::InvalidMint)
        } else if self.owner_token_account.data.owner != self.owner {
            Some(ErrorCode::Unauthorized)
        } else {
            None
        }
    }

    /// The record that the creation writes.
    pub open spec fn record(self, amount: u64, inactivity_period_seconds: i64, now: i64) -> TokenHeir {
        TokenHeir {
            owner: self.owner,
            heir: self.heir,
            token_mint: self.token_mint,
            amount,
            last_active_time: now,
            is_claimed: false,
            inactivity_period_seconds,
            bump: self.token_heir_bump,
        }
    }

    /// The accounts after the creation: the record is written, at the address
    /// it had, and the profile counts it.
    pub open spec fn created(self, amount: u64, inactivity_period_seconds: i64, now: i64) -> AddTokenHeir {
        AddTokenHeir {
            token_heir: Account {
                key: self.token_heir.key,
                data: self.record(amount, inactivity_period_seconds, now),
            },
            user_profile: counted(self.user_profile),
            ..self
        }
    }

    /// The transfer that funds the escrow, signed for by the owner.
    pub open spec fn funding(self, amount: u64) -> TokenTransfer {
        TokenTransfer {
            from: self.owner_token_account.key,
            to: self.escrow_token_account.key,
            authority: self.owner,
            amount,
        }
    }
}

/// Creates a token record: `amount` tokens of the mint are escrowed for the
/// heir, who may claim them once the owner has been silent for longer than
/// `inactivity_period_seconds`. The clock starts at `now`.
///
/// The profile's count is thirty-two bits wide, and the call asks that it has
/// room for one more where the creation goes through.
pub fn add_token_heir(
    ctx: &mut AddTokenHeir,
    amount: u64,
    inactivity_period_seconds: i64,
    now: i64,
) -> (r: Result<TokenTransfer, ErrorCode>)
    requires
        old(ctx).refusal(inactivity_period_seconds) is None ==> old(
            ctx,
        ).user_profile.data.total_inheritances_created < u32::MAX,
    ensures
        r == match old(ctx).refusal(inactivity_period_seconds) {
            Some(e) => Err::<TokenTransfer, ErrorCode>(e),
            None => Ok(old(ctx).funding(amount)),
        },
        *final(ctx) == if r is Ok {
            old(ctx).created(amount, inactivity_period_seconds, now)
        } else {
            *old(ctx)
        },
{
    if inactivity_period_seconds <= 0 {
        return Err(ErrorCode::InvalidInactivityPeriod);
    }
    if !ctx.user_profile.data.is_premium && inactivity_period_seconds != INACTIVITY_PERIOD_SECONDS {
        return Err(ErrorCode::CustomInactivityNotAllowed);
    }
    if ctx.owner_token_account.data.mint != ctx.token_mint {
        return Err(ErrorCode::InvalidMint);
    }
    if ctx.owner_token_account.data.owner != ctx.owner {
        return Err(ErrorCode::Unauthorized);
    }
    ctx.token_heir.data = TokenHeir {
        owner: ctx.owner,
        heir: ctx.heir,
        token_mint: ctx.token_mint,
        amount,
        last_active_time: now,
        is_claimed: false,
        inactivity_period_seconds,
        bump: ctx.token_heir_bump,
    };
    ctx.user_profile.data.total_inheritances_created =
        ctx.user_profile.data.total_inheritances_created + 1;
    Ok(
        TokenTransfer {
            from: ctx.owner_token_account.key,
            to: ctx.escrow_token_account.key,
            authority: ctx.owner,
            amount,
        },
    )
}

impl AddCoinHeir {
    /// Why the creation is refused, or `None` where it goes through.
    pub open spec fn refusal(self, inactivity_period_seconds: i64) -> Option<ErrorCode> {
        if inactivity_period_seconds <= 0 {
            Some(ErrorCode::InvalidInactivityPeriod)
        } else if !self.user_profile.data.allows_period(inactivity_period_seconds) {
            Some(ErrorCode::CustomInactivityNotAllowed)
        } else {
            None
        }
    }

    /// The record that the creation writes.
    pub open spec fn record(self, amount: u64, inactivity_period_seconds: i64, now: i64) -> CoinHeir {
        CoinHeir {
            owner: self.owner,
            heir: self.heir,
            amount,
            last_active_time: now,
            is_claimed: false,
            inactivity_period_seconds,
            bump: self.coin_heir_bump,
        }
    }

    /// The accounts after the creation: the record is written, at the address
    /// it had, and the profile counts it.
    pub open spec fn created(self, amount: u64, inactivity_period_seconds: i64, now: i64) -> AddCoinHeir {
        AddCoinHeir {
            coin_heir: Account {
                key: self.coin_heir.key,
                data: self.record(amount, inactivity_period_seconds, now),
            },
            user_profile: counted(self.user_profile),
            ..self
        }
    }

    /// The transfer that funds the escrow: out of the owner's account and into
    /// the record's own.
    pub open spec fn funding(self, amount: u64) -> CoinTransfer {
        CoinTransfer { from: self.owner, to: self.coin_heir.key, lamports: amount }
    }
}

/// Creates a coin record: `amount` of native coin is escrowed for the heir,
/// who may claim it once the owner has been silent for longer than
/// `inactivity_period_seconds`. The clock starts at `now`.
///
/// The profile's count is thirty-two bits wide, and the call asks that it has
/// room for one more where the creation goes through.
pub fn add_coin_heir(
    ctx: &mut AddCoinHeir,
    amount: u64,
    inactivity_period_seconds: i64,
    now: i64,
) -> (r: Result<CoinTransfer, ErrorCode>)
    requires
        old(ctx).refusal(inactivity_period_seconds) is None ==> old(
            ctx,
        ).user_profile.data.total_inheritances_created < u32::MAX,
    ensures
        r == match old(ctx).refusal(inactivity_period_seconds) {
            Some(e) => Err::<CoinTransfer, ErrorCode>(e),
            None => Ok(old(ctx).funding(amount)),
        },
        *final(ctx) == if r is Ok {
            old(ctx).created(amount, inactivity_period_seconds, now)
        } else {
            *old(ctx)
        },
{
    if inactivity_period_seconds <= 0 {
        return Err(ErrorCode::InvalidInactivityPeriod);
    }
    if !ctx.user_profile.data.is_premium && inactivity_period_seconds != INACTIVITY_PERIOD_SECONDS {
        return Err(ErrorCode::CustomInactivityNotAllowed);
    }
    ctx.coin_heir.data = CoinHeir {
        owner: ctx.owner,
        heir: ctx.heir,
        amount,
        last_active_time: now,
        is_claimed: false,
        inactivity_period_seconds,
        bump: ctx.coin_heir_bump,
    };
    ctx.user_profile.data.total_inheritances_created =
        ctx.user_profile.data.total_inheritances_created + 1;
    Ok(CoinTransfer { from: ctx.owner, to: ctx.coin_heir.key, lamports: amount })
}

} // verus!
