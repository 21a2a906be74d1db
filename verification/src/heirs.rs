//! Heir records: one escrow of tokens or of native coin per owner and heir,
//! the owner's activity reports, and the heir's claim.
//!
//! A record is in one of two states. While `is_claimed` is false the owner may
//! report activity, which restarts the clock, and the heir may claim once the
//! owner counts as gone. A successful claim sets `is_claimed`, and nothing
//! clears it again.

use vstd::prelude::*;
use crate::accounts::{Account, CoinTransfer, TokenAccount, TokenTransfer};
use crate::errors::ErrorCode;
use crate::inactivity::{inactivity_elapsed, owner_gone};
use crate::pubkey::Pubkey;

verus! {

/// An escrow of tokens of one mint, from `owner` for `heir`.
#[derive(Clone, Copy, Debug, PartialEq, Eq)]
pub struct TokenHeir {
    pub owner: Pubkey,
    pub heir: Pubkey,
    pub token_mint: Pubkey,
    pub amount: u64,
    pub last_active_time: i64,
    pub is_claimed: bool,
    pub inactivity_period_seconds: i64,
    pub bump: u8,
}

impl TokenHeir {
    /// Bytes that the stored record takes.
    pub const SPACE: usize = 8 + 32 + 32 + 32 + 8 + 8 + 1 + 8 + 1;

    /// Whether the heir's claim is due at `now`.
    pub open spec fn claimable_at(self, now: int) -> bool {
        !self.is_claimed && owner_gone(
            now,
            self.last_active_time as int,
            self.inactivity_period_seconds as int,
        )
    }
}

/// An escrow of native coin, from `owner` for `heir`.
#[derive(Clone, Copy, Debug, PartialEq, Eq)]
pub struct CoinHeir {
    pub owner: Pubkey,
    pub heir: Pubkey,
    pub amount: u64,
    pub last_active_time: i64,
    pub is_claimed: bool,
    pub inactivity_period_seconds: i64,
    pub bump: u8,
}

impl CoinHeir {
    /// Bytes that the stored record takes.
    pub const SPACE: usize = 8 + 32 + 32 + 8 + 8 + 1 + 8 + 1;

    /// Whether the heir's claim is due at `now`.
    pub open spec fn claimable_at(self, now: int) -> bool {
        !self.is_claimed && owner_gone(
            now,
            self.last_active_time as int,
            self.inactivity_period_seconds as int,
        )
    }
}

/// Accounts of an activity report on a token record.
#[derive(Clone, Copy, Debug, PartialEq, Eq)]
pub struct UpdateActivity {
    pub token_heir: Account<TokenHeir>,
    /// The signer of the instruction.
    pub owner: Pubkey,
}

/// Accounts of an activity report on a coin record.
#[derive(Clone, Copy, Debug, PartialEq, Eq)]
pub struct UpdateCoinActivity {
    pub coin_heir: Account<CoinHeir>,
    /// The signer of the instruction.
    pub owner: Pubkey,
}

/// Accounts of a claim on a token record.
#[derive(Clone, Copy, Debug, PartialEq, Eq)]
pub struct ClaimHeirTokenAssets {
    pub token_heir: Account<TokenHeir>,
    /// The signer of the instruction.
    pub heir: Pubkey,
    pub heir_token_account: Account<TokenAccount>,
    pub escrow_token_account: Account<TokenAccount>,
    pub token_mint: Pubkey,
}

/// Accounts of a claim on a coin record.
#[derive(Clone, Copy, Debug, PartialEq, Eq)]
pub struct ClaimHeirCoinAssets {
    pub coin_heir: Account<CoinHeir>,
    pub owner_account: Pubkey,
    /// The signer of the instruction.
    pub heir_account: Pubkey,
}

impl UpdateActivity {
    /// The accounts after a report at `now`: the clock of the record is reset
    /// and nothing else is touched.
    pub open spec fn reported(self, now: i64) -> UpdateActivity {
        UpdateActivity {
            token_heir: Account {
                data: TokenHeir { last_active_time: now, ..self.token_heir.data },
                ..self.token_heir
            },
            ..self
        }
    }
}

/// The owner of a token record reports activity at `now`: the clock of the
/// record restarts. Anyone else is refused and the record stays as it was.
pub fn update_activity(ctx: &mut UpdateActivity, now: i64) -> (r: Result<(), ErrorCode>)
    ensures
        r == if old(ctx).token_heir.data.owner == old(ctx).owner {
            Ok::<(), ErrorCode>(())
        } else {
            Err(ErrorCode::Unauthorized)
        },
        *final(ctx) == if r is Ok {
            old(ctx).reported(now)
        } else {
            *old(ctx)
        },
{
    if ctx.token_heir.data.owner != ctx.owner {
        return Err(ErrorCode::Unauthorized);
    }
    ctx.token_heir.data.last_active_time = now;
    Ok(())
}

impl UpdateCoinActivity {
    /// The accounts after a report at `now`: the clock of the record is reset
    /// and nothing else is touched.
    pub open spec fn reported(self, now: i64) -> UpdateCoinActivity {
        UpdateCoinActivity {
            coin_heir: Account {
                data: CoinHeir { last_active_time: now, ..self.coin_heir.data },
                ..self.coin_heir
            },
            ..self
        }
    }
}

/// The owner of a coin record reports activity at `now`: the clock of the
/// record restarts. Anyone else is refused and the record stays as it was.
pub fn update_coin_activity(ctx: &mut UpdateCoinActivity, now: i64) -> (r: Result<(), ErrorCode>)
    ensures
        r == if old(ctx).coin_heir.data.owner == old(ctx).owner {
            Ok::<(), ErrorCode>(())
        } else {
            Err(ErrorCode::Unauthorized)
        },
        *final(ctx) == if r is Ok {
            old(ctx).reported(now)
        } else {
            *old(ctx)
        },
{
    if ctx.coin_heir.data.owner != ctx.owner {
        return Err(ErrorCode::Unauthorized);
    }
    ctx.coin_heir.data.last_active_time = now;
    Ok(())
}

impl ClaimHeirTokenAssets {
    /// Whether the caller is the heir of the record and the two token accounts
    /// are the heir's own and the record's escrow, both of the record's mint.
    pub open spec fn parties_match(self) -> bool {
        &&& self.heir == self.token_heir.data.heir
        &&& self.heir_token_account.data.owner == self.heir
        &&& self.heir_token_account.data.mint == self.token_heir.data.token_mint
        &&& self.escrow_token_account.data.mint == self.token_heir.data.token_mint
        &&& self.escrow_token_account.data.owner == self.token_heir.key
    }

    /// Why a claim at `now` is refused, or `None` where it is granted. The
    /// state of the record is looked at first, then the clock, then the
    /// parties in the order in which they are listed here.
    pub open spec fn refusal(self, now: int) -> Option<ErrorCode> {
        let record = self.token_heir.data;
        if record.is_claimed {
            Some(ErrorCode::AlreadyClaimed)
        } else if !record.claimable_at(now) {
            Some(ErrorCode::OwnerStillActive)
        } else if self.heir != record.heir {
            Some(ErrorCode::Unauthorized)
        } else if self.heir_token_account.data.owner != self.heir {
            Some(ErrorCode::Unauthorized)
        } else if self.heir_token_account.data.mint != record.token_mint {
            Some(ErrorCode::InvalidMint)
        } else if self.escrow_token_account.data.mint != record.token_mint {
            Some(ErrorCode::InvalidMint)
        } else if self.escrow_token_account.data.owner != self.token_heir.key {
            Some(ErrorCode::Unauthorized)
        } else {
            None
        }
    }

    /// The transfer that pays the heir: the whole escrowed amount, out of the
    /// escrow and into the heir's token account, signed for by the record.
    pub open spec fn payout(self) -> TokenTransfer {
        TokenTransfer {
            from: self.escrow_token_account.key,
            to: self.heir_token_account.key,
            authority: self.token_heir.key,
            amount: self.token_heir.data.amount,
        }
    }

    /// The accounts after a granted claim: the record is marked as claimed.
    pub open spec fn claimed(self) -> ClaimHeirTokenAssets {
        ClaimHeirTokenAssets {
            token_heir: Account {
                data: TokenHeir { is_claimed: true, ..self.token_heir.data },
                ..self.token_heir
            },
            ..self
        }
    }
}

impl ClaimHeirCoinAssets {
    /// Whether the caller is the heir of the record and the owner handed in
    /// is the record's owner.
    pub open spec fn parties_match(self) -> bool {
        &&& self.heir_account == self.coin_heir.data.heir
        &&& self.owner_account == self.coin_heir.data.owner
    }

    /// Why a claim at `now` is refused, or `None` where it is granted. The
    /// state of the record is looked at first, then the clock, then the
    /// parties.
    pub open spec fn refusal(self, now: int) -> Option<ErrorCode> {
        let record = self.coin_heir.data;
        if record.is_claimed {
            Some(ErrorCode::AlreadyClaimed)
        } else if !record.claimable_at(now) {
            Some(ErrorCode::OwnerStillActive)
        } else if !self.parties_match() {
            Some(ErrorCode::Unauthorized)
        } else {
            None
        }
    }

    /// The transfer that pays the heir: the whole escrowed amount, out of the
    /// record's own account and into the heir's.
    pub open spec fn payout(self) -> CoinTransfer {
        CoinTransfer {
            from: self.coin_heir.key,
            to: self.heir_account,
            lamports: self.coin_heir.data.amount,
        }
    }

    /// The accounts after a granted claim: the record is marked as claimed.
    pub open spec fn claimed(self) -> ClaimHeirCoinAssets {
        ClaimHeirCoinAssets {
            coin_heir: Account {
                data: CoinHeir { is_claimed: true, ..self.coin_heir.data },
                ..self.coin_heir
            },
            ..self
        }
    }
}

/// The heir claims a token record at `now`.
///
/// The claim is granted when the record has not been claimed, the owner
/// counts as gone and the parties match; the record is then marked as
/// claimed and the payout is handed back for the ledger to apply. A refused
/// claim leaves the record as it was.
pub fn claim_heir_token_assets(ctx: &mut ClaimHeirTokenAssets, now: i64) -> (r: Result<
    TokenTransfer,
    ErrorCode,
>)
    ensures
        r == match old(ctx).refusal(now as int) {
            Some(e) => Err::<TokenTransfer, ErrorCode>(e),
            None => Ok(old(ctx).payout()),
        },
        *final(ctx) == if r is Ok {
            old(ctx).claimed()
        } else {
            *old(ctx)
        },
        final(ctx).token_heir.data.is_claimed == (old(ctx).token_heir.data.is_claimed || r is Ok),
{
    if ctx.token_heir.data.is_claimed {
        return Err(ErrorCode::AlreadyClaimed);
    }
    if !inactivity_elapsed(
        now,
        ctx.token_heir.data.last_active_time,
        ctx.token_heir.data.inactivity_period_seconds,
    ) {
        return Err(ErrorCode::OwnerStillActive);
    }
    if ctx.heir != ctx.token_heir.data.heir {
        return Err(ErrorCode::Unauthorized);
    }
    if ctx.heir_token_account.data.owner != ctx.heir {
        return Err(ErrorCode::Unauthorized);
    }
    if ctx.heir_token_account.data.mint != ctx.token_heir.data.token_mint {
        return Err(ErrorCode::InvalidMint);
    }
    if ctx.escrow_token_account.data.mint != ctx.token_heir.data.token_mint {
        return Err(ErrorCode::InvalidMint);
    }
    if ctx.escrow_token_account.data.owner != ctx.token_heir.key {
        return Err(ErrorCode::Unauthorized);
    }
    let payout = TokenTransfer {
        from: ctx.escrow_token_account.key,
        to: ctx.heir_token_account.key,
        authority: ctx.token_heir.key,
        amount: ctx.token_heir.data.amount,
    };
    ctx.token_heir.data.is_claimed = true;
    Ok(payout)
}

/// The heir claims a coin record at `now`.
///
/// The claim is granted when the record has not been claimed, the owner
/// counts as gone and the parties match; the record is then marked as
/// claimed and the payout is handed back for the ledger to apply. A refused
/// claim leaves the record as it was.
pub fn claim_heir_coin_assets(ctx: &mut ClaimHeirCoinAssets, now: i64) -> (r: Result<
    CoinTransfer,
    ErrorCode,
>)
    ensures
        r == match old(ctx).refusal(now as int) {
            Some(e) => Err::<CoinTransfer, ErrorCode>(e),
            None => Ok(old(ctx).payout()),
        },
        *final(ctx) == if r is Ok {
            old(ctx).claimed()
        } else {
            *old(ctx)
        },
        final(ctx).coin_heir.data.is_claimed == (old(ctx).coin_heir.data.is_claimed || r is Ok),
{
    if ctx.coin_heir.data.is_claimed {
        return Err(ErrorCode::AlreadyClaimed);
    }
    if !inactivity_elapsed(
        now,
        ctx.coin_heir.data.last_active_time,
        ctx.coin_heir.data.inactivity_period_seconds,
    ) {
        return Err(ErrorCode::OwnerStillActive);
    }
    if ctx.heir_account != ctx.coin_heir.data.heir {
        return Err(ErrorCode::Unauthorized);
    }
    if ctx.owner_account != ctx.coin_heir.data.owner {
        return Err(ErrorCode::Unauthorized);
    }
    let payout = CoinTransfer {
        from: ctx.coin_heir.key,
        to: ctx.heir_account,
        lamports: ctx.coin_heir.data.amount,
    };
    ctx.coin_heir.data.is_claimed = true;
    Ok(payout)
}

/// A record is paid out at most once: after a granted claim every further
/// claim is refused as already claimed, whoever makes it and whenever.
pub proof fn lemma_token_claim_is_final(ctx: ClaimHeirTokenAssets, now: int, again: ClaimHeirTokenAssets, later: int)
    requires
        ctx.refusal(now) is None,
        again.token_heir == ctx.claimed().token_heir,
    ensures
        again.refusal(later) == Some(ErrorCode::AlreadyClaimed),
{
}

/// A record is paid out at most once: after a granted claim every further
/// claim is refused as already claimed, whoever makes it and whenever.
pub proof fn lemma_coin_claim_is_final(ctx: ClaimHeirCoinAssets, now: int, again: ClaimHeirCoinAssets, later: int)
    requires
        ctx.refusal(now) is None,
        again.coin_heir == ctx.claimed().coin_heir,
    ensures
        again.refusal(later) == Some(ErrorCode::AlreadyClaimed),
{
}

/// On a record that has not been claimed, and with matching parties, a claim
/// is granted exactly when strictly more than the inactivity period has
/// passed since the owner's last report. Up to and including the last second
/// of the period it is refused because the owner is still active, whoever
/// asks.
pub proof fn lemma_token_claim_deadline(ctx: ClaimHeirTokenAssets, now: int)
    requires
        !ctx.token_heir.data.is_claimed,
    ensures
        ctx.parties_match() ==> (ctx.refusal(now) is None <==> now
            - ctx.token_heir.data.last_active_time > ctx.token_heir.data.inactivity_period_seconds),
        now - ctx.token_heir.data.last_active_time
            <= ctx.token_heir.data.inactivity_period_seconds ==> ctx.refusal(now) == Some(
            ErrorCode::OwnerStillActive,
        ),
{
}

/// On a record that has not been claimed, and with matching parties, a claim
/// is granted exactly when strictly more than the inactivity period has
/// passed since the owner's last report. Up to and including the last second
/// of the period it is refused because the owner is still active, whoever
/// asks.
pub proof fn lemma_coin_claim_deadline(ctx: ClaimHeirCoinAssets, now: int)
    requires
        !ctx.coin_heir.data.is_claimed,
    ensures
        ctx.parties_match() ==> (ctx.refusal(now) is None <==> now
            - ctx.coin_heir.data.last_active_time > ctx.coin_heir.data.inactivity_period_seconds),
        now - ctx.coin_heir.data.last_active_time
            <= ctx.coin_heir.data.inactivity_period_seconds ==> ctx.refusal(now) == Some(
            ErrorCode::OwnerStillActive,
        ),
{
}

/// A report restarts the clock and does nothing else to the state of a
/// record: a claimed record stays claimed, an unclaimed one unclaimed, and
/// for the whole period after the report no claim on it is due.
pub proof fn lemma_token_report_defers_claim(ctx: UpdateActivity, now: i64, later: int)
    requires
        later <= now + ctx.token_heir.data.inactivity_period_seconds,
    ensures
        ctx.reported(now).token_heir.data.is_claimed == ctx.token_heir.data.is_claimed,
        !ctx.reported(now).token_heir.data.claimable_at(later),
{
}

/// A report restarts the clock and does nothing else to the state of a
/// record: a claimed record stays claimed, an unclaimed one unclaimed, and
/// for the whole period after the report no claim on it is due.
pub proof fn lemma_coin_report_defers_claim(ctx: UpdateCoinActivity, now: i64, later: int)
    requires
        later <= now + ctx.coin_heir.data.inactivity_period_seconds,
    ensures
        ctx.reported(now).coin_heir.data.is_claimed == ctx.coin_heir.data.is_claimed,
        !ctx.reported(now).coin_heir.data.claimable_at(later),
{
}

} // verus!
