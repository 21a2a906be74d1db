//! The distribution of a smart wallet on the platform.
//!
//! Once the owner counts as gone, anyone may ask for the distribution. The
//! platform's fee is taken out of the balance of the wallet's account first,
//! rounded down; what is left is split among the heirs by their percentages,
//! each share rounded down. What rounding leaves over stays in the wallet's
//! account.

use vstd::prelude::*;
use crate::accounts::{Account, CoinTransfer};
use crate::errors::ErrorCode;
use crate::inactivity::inactivity_elapsed;
use crate::platform::state::{PlatformConfig, SmartWallet, Treasury, UserProfile};
use crate::platform::wallet::ExecuteInheritance;
use crate::shares::{fee_of, lemma_fee_bounds, platform_fee};
use crate::wallets::{
    distribute,
    lamports_total,
    lemma_full_allocation_in_range,
    lemma_full_allocation_loss,
    payouts,
};

verus! {

impl ExecuteInheritance {
    /// Why a distribution at `now` is refused, or `None` where it goes
    /// through. Who asks does not matter.
    pub open spec fn refusal(self, now: int) -> Option<ErrorCode> {
        if self.smart_wallet.data.is_executed {
            Some(ErrorCode::AlreadyExecuted)
        } else if !self.smart_wallet.data.executable_at(now) {
            Some(ErrorCode::OwnerStillActive)
        } else {
            None
        }
    }

    /// The platform's fee on the balance of the wallet's account.
    pub open spec fn fee(self) -> int {
        fee_of(
            self.smart_wallet_pda.lamports as int,
            self.platform_config.data.platform_fee_bps as int,
        )
    }

    /// What is left of the balance for the heirs once the fee is taken.
    pub open spec fn distributable(self) -> int {
        self.smart_wallet_pda.lamports - self.fee()
    }

    /// The transfers of the distribution, all out of the wallet's account:
    /// first the heirs' shares of what is left after the fee, in the order of
    /// the wallet's list, then the fee into the treasury, if there is one.
    pub open spec fn distribution(self) -> Seq<CoinTransfer> {
        let shares = payouts(
            self.smart_wallet_pda.key,
            self.smart_wallet.data.heirs@,
            self.distributable(),
        );
        if self.fee() > 0 {
            shares.push(
                CoinTransfer {
                    from: self.smart_wallet_pda.key,
                    to: self.treasury.key,
                    lamports: self.fee() as u64,
                },
            )
        } else {
            shares
        }
    }

    /// Whether the running totals, which are sixty-four bits wide, have room
    /// for this distribution and its fee.
    pub open spec fn totals_have_room(self) -> bool {
        &&& self.treasury.data.total_balance + self.fee() <= u64::MAX
        &&& self.platform_config.data.total_fees_collected + self.fee() <= u64::MAX
        &&& self.platform_config.data.total_inheritances_executed < u64::MAX
        &&& self.user_profile.data.total_fees_paid + self.fee() <= u64::MAX
    }

    /// The accounts after the distribution: the wallet is marked as executed,
    /// the treasury's count and the totals of the platform and of the owner
    /// are up by the fee, and the platform counts one distribution more.
    pub open spec fn executed(self) -> ExecuteInheritance {
        ExecuteInheritance {
            smart_wallet: Account {
                data: SmartWallet { is_executed: true, ..self.smart_wallet.data },
                ..self.smart_wallet
            },
            platform_config: Account {
                data: PlatformConfig {
                    total_fees_collected: (self.platform_config.data.total_fees_collected
                        + self.fee()) as u64,
                    total_inheritances_executed: (
                    self.platform_config.data.total_inheritances_executed + 1) as u64,
                    ..self.platform_config.data
                },
                ..self.platform_config
            },
            treasury: Account {
                data: Treasury {
                    total_balance: (self.treasury.data.total_balance + self.fee()) as u64,
                    ..self.treasury.data
                },
                ..self.treasury
            },
            user_profile: Account {
                data: UserProfile {
                    total_fees_paid: (self.user_profile.data.total_fees_paid + self.fee()) as u64,
                    ..self.user_profile.data
                },
                ..self.user_profile
            },
            ..self
        }
    }
}

/// Distributes a smart wallet at `now`, on anyone's call. The transfers are
/// handed back for the ledger to apply; they name the heirs of the wallet and
/// the treasury, never the caller.
///
/// The call asks for a wallet as the platform writes them and for a fee of
/// no more than the whole, and that the running totals have room where the
/// distribution goes through.
pub fn execute_inheritance(ctx: &mut ExecuteInheritance, now: i64) -> (r: Result<
    Vec<CoinTransfer>,
    ErrorCode,
>)
    requires
        old(ctx).smart_wallet.data.wf(),
        old(ctx).platform_config.data.fee_within_whole(),
        old(ctx).refusal(now as int) is None ==> old(ctx).totals_have_room(),
    ensures
        match r {
            Ok(transfers) => old(ctx).refusal(now as int) is None && transfers@ == old(
                ctx,
            ).distribution(),
            Err(e) => old(ctx).refusal(now as int) == Some(e),
        },
        *final(ctx) == if r is Ok {
            old(ctx).executed()
        } else {
            *old(ctx)
        },
        final(ctx).smart_wallet.data.is_executed == (old(ctx).smart_wallet.data.is_executed
            || r is Ok),
        final(ctx).smart_wallet.data.wf(),
        final(ctx).platform_config.data.platform_fee_bps == old(
            ctx,
        ).platform_config.data.platform_fee_bps,
{
    if ctx.smart_wallet.data.is_executed {
        return Err(ErrorCode::AlreadyExecuted);
    }
    if !inactivity_elapsed(
        now,
        ctx.smart_wallet.data.last_active_time,
        ctx.smart_wallet.data.inactivity_period_seconds,
    ) {
        return Err(ErrorCode::OwnerStillActive);
    }
    let balance: u64 = ctx.smart_wallet_pda.lamports;
    let fee: u64 = platform_fee(balance, ctx.platform_config.data.platform_fee_bps);
    let distributable: u64 = balance - fee;
    proof {
        lemma_full_allocation_in_range(ctx.smart_wallet.data.heirs@);
    }
    let mut transfers = distribute(
        ctx.smart_wallet_pda.key,
        &ctx.smart_wallet.data.heirs,
        distributable,
    );
    if fee > 0 {
        transfers.push(
            CoinTransfer { from: ctx.smart_wallet_pda.key, to: ctx.treasury.key, lamports: fee },
        );
    }
    ctx.treasury.data.total_balance = ctx.treasury.data.total_balance + fee;
    ctx.smart_wallet.data.is_executed = true;
    ctx.platform_config.data.total_fees_collected = ctx.platform_config.data.total_fees_collected
        + fee;
    ctx.platform_config.data.total_inheritances_executed =
        ctx.platform_config.data.total_inheritances_executed + 1;
    ctx.user_profile.data.total_fees_paid = ctx.user_profile.data.total_fees_paid + fee;
    Ok(transfers)
}

/// A wallet is distributed at most once: after a distribution every further
/// one is refused as already executed, whoever asks and whenever.
pub proof fn lemma_execution_is_final(ctx: ExecuteInheritance, now: int, again: ExecuteInheritance, later: int)
    requires
        ctx.refusal(now) is None,
        again.smart_wallet == ctx.executed().smart_wallet,
    ensures
        again.refusal(later) == Some(ErrorCode::AlreadyExecuted),
{
}

/// A wallet that has not been distributed is distributed exactly when
/// strictly more than the inactivity period has passed since the owner's last
/// report; up to and including the last second of the period the request is
/// refused because the owner is still active.
pub proof fn lemma_execution_deadline(ctx: ExecuteInheritance, now: int)
    requires
        !ctx.smart_wallet.data.is_executed,
    ensures
        ctx.refusal(now) is None <==> now - ctx.smart_wallet.data.last_active_time
            > ctx.smart_wallet.data.inactivity_period_seconds,
        ctx.refusal(now) is Some ==> ctx.refusal(now) == Some(ErrorCode::OwnerStillActive),
{
}

/// The fee and what is left for the heirs make up the balance, and neither
/// is negative.
pub proof fn lemma_fee_and_distributable(ctx: ExecuteInheritance)
    requires
        ctx.platform_config.data.fee_within_whole(),
    ensures
        0 <= ctx.fee() <= ctx.smart_wallet_pda.lamports,
        0 <= ctx.distributable() <= ctx.smart_wallet_pda.lamports,
        ctx.fee() + ctx.distributable() == ctx.smart_wallet_pda.lamports,
{
    lemma_fee_bounds(
        ctx.smart_wallet_pda.lamports as int,
        ctx.platform_config.data.platform_fee_bps as int,
    );
}

/// A distribution with its fee never moves more than the balance of the
/// wallet's account, and what rounding leaves behind in it is less than one
/// unit for each heir.
pub proof fn lemma_distribution_within_balance(ctx: ExecuteInheritance)
    requires
        ctx.smart_wallet.data.wf(),
        ctx.platform_config.data.fee_within_whole(),
    ensures
        lamports_total(ctx.distribution()) <= ctx.smart_wallet_pda.lamports,
        ctx.smart_wallet_pda.lamports - lamports_total(ctx.distribution())
            < ctx.smart_wallet.data.heirs@.len(),
{
    lemma_fee_and_distributable(ctx);
    let shares = payouts(
        ctx.smart_wallet_pda.key,
        ctx.smart_wallet.data.heirs@,
        ctx.distributable(),
    );
    lemma_full_allocation_loss(
        ctx.smart_wallet_pda.key,
        ctx.smart_wallet.data.heirs@,
        ctx.distributable(),
    );
    if ctx.fee() > 0 {
        let t = CoinTransfer {
            from: ctx.smart_wallet_pda.key,
            to: ctx.treasury.key,
            lamports: ctx.fee() as u64,
        };
        assert(shares.push(t).drop_last() == shares);
    }
}

} // verus!
