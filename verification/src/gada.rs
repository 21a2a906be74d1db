//! The first program: heir records with escrow, batches, and smart wallets
//! whose balance is split among up to ten heirs. It takes no fee and knows no
//! subscriptions.

use vstd::prelude::*;
use crate::accounts::{Account, AccountInfo, CoinTransfer, TokenAccount, TokenTransfer};
use crate::errors::ErrorCode;
pub use crate::heirs::{CoinHeir, TokenHeir};
use crate::inactivity::{inactivity_elapsed, owner_gone};
use crate::pubkey::Pubkey;
use crate::shares::FULL_ALLOCATION;
use crate::wallets::{
    allocation_total,
    distribute,
    lamports_total,
    lemma_full_allocation_in_range,
    lemma_full_allocation_loss,
    payouts,
    total_allocation,
    MAX_HEIRS,
};

pub use crate::wallets::HeirData;

pub use crate::batch::{
    batch_transfer_coins,
    batch_transfer_tokens,
    BatchTransferCoins,
    BatchTransferTokens,
};
pub use crate::heirs::{
    claim_heir_coin_assets,
    claim_heir_token_assets,
    update_activity,
    update_coin_activity,
    ClaimHeirCoinAssets,
    ClaimHeirTokenAssets,
    UpdateActivity,
    UpdateCoinActivity,
};

verus! {

/// Accounts of the program's set-up, which needs none.
#[derive(Clone, Copy, Debug, PartialEq, Eq)]
pub struct Initialize {}

/// Accounts of the creation of a token record.
#[derive(Clone, Copy, Debug, PartialEq, Eq)]
pub struct AddTokenHeir {
    /// The account that the ledger has made for the new record; all of it is
    /// written.
    pub token_heir: Account<TokenHeir>,
    /// The signer of the instruction.
    pub owner: Pubkey,
    pub heir: Pubkey,
    pub token_mint: Pubkey,
    pub owner_token_account: Account<TokenAccount>,
    pub escrow_token_account: Account<TokenAccount>,
    /// The bump of the record's address.
    pub token_heir_bump: u8,
}

/// Accounts of the creation of a coin record.
#[derive(Clone, Copy, Debug, PartialEq, Eq)]
pub struct AddCoinHeir {
    /// The account that the ledger has made for the new record; all of it is
    /// written.
    pub coin_heir: Account<CoinHeir>,
    /// The signer of the instruction.
    pub owner: Pubkey,
    pub heir: Pubkey,
    /// The bump of the record's address.
    pub coin_heir_bump: u8,
}

/// A wallet of one owner for several heirs. The assets are not in the record
/// but in an account of their own, which the program signs for.
#[derive(Clone, Debug, PartialEq, Eq)]
pub struct SmartWallet {
    pub owner: Pubkey,
    pub heirs: Vec<HeirData>,
    pub inactivity_period_seconds: i64,
    pub last_active_time: i64,
    pub is_executed: bool,
    pub bump: u8,
}

impl SmartWallet {
    /// Bytes that the stored record takes, with room for ten heirs.
    pub const SPACE: usize = 8 + 32 + 4 + (32 + 1) * 10 + 8 + 8 + 1 + 1;

    /// What holds of every wallet that was created: it names one to ten
    /// heirs, whose percentages add up to a hundred.
    pub open spec fn wf(self) -> bool {
        &&& 0 < self.heirs@.len() <= MAX_HEIRS
        &&& allocation_total(self.heirs@) == FULL_ALLOCATION
    }

    /// Whether the wallet is due for distribution at `now`.
    pub open spec fn executable_at(self, now: int) -> bool {
        !self.is_executed && owner_gone(
            now,
            self.last_active_time as int,
            self.inactivity_period_seconds as int,
        )
    }
}

/// Accounts of the creation of a smart wallet.
#[derive(Clone, Debug, PartialEq, Eq)]
pub struct CreateSmartWalletInheritance {
    /// The account that the ledger has made for the new record; all of it is
    /// written.
    pub smart_wallet: Account<SmartWallet>,
    /// The account that will hold the wallet's assets.
    pub smart_wallet_pda: Pubkey,
    /// The signer of the instruction.
    pub owner: Pubkey,
    /// The bump of the record's address.
    pub smart_wallet_bump: u8,
}

/// Accounts of an activity report on a smart wallet.
#[derive(Clone, Debug, PartialEq, Eq)]
pub struct UpdateSmartWalletActivity {
    pub smart_wallet: Account<SmartWallet>,
    /// The signer of the instruction.
    pub owner: Pubkey,
}

/// Accounts of the distribution of a smart wallet.
#[derive(Clone, Debug, PartialEq, Eq)]
pub struct ExecuteInheritance {
    pub smart_wallet: Account<SmartWallet>,
    /// The account that holds the wallet's assets.
    pub smart_wallet_pda: AccountInfo,
    /// The signer of the instruction, who may be anyone.
    pub caller: Pubkey,
}

/// Accounts of a deposit of coin into a smart wallet.
#[derive(Clone, Debug, PartialEq, Eq)]
pub struct DepositToSmartWallet {
    pub smart_wallet: Account<SmartWallet>,
    /// The account that holds the wallet's assets.
    pub smart_wallet_pda: Pubkey,
    /// The signer of the instruction.
    pub owner: Pubkey,
}

/// Accounts of a deposit of tokens into a smart wallet.
#[derive(Clone, Debug, PartialEq, Eq)]
pub struct DepositTokensToSmartWallet {
    pub smart_wallet: Account<SmartWallet>,
    pub owner_token_account: Account<TokenAccount>,
    pub smart_wallet_token_account: Account<TokenAccount>,
    /// The account that holds the wallet's assets.
    pub smart_wallet_pda: Pubkey,
    pub token_mint: Pubkey,
    /// The signer of the instruction.
    pub owner: Pubkey,
}

/// Sets the program up. There is nothing to set up, so this always succeeds.
pub fn initialize(_ctx: &Initialize) -> (r: Result<(), ErrorCode>)
    ensures
        r is Ok,
{
    Ok(())
}

impl AddTokenHeir {
    /// Why the creation is refused, or `None` where it goes through.
    pub open spec fn refusal(self, inactivity_period_seconds: i64) -> Option<ErrorCode> {
        if inactivity_period_seconds <= 0 {
            Some(ErrorCode::InvalidInactivityPeriod)
        } else if self.owner_token_account.data.mint != self.token_mint {
            Some(ErrorCode::InvalidMint)
        } else if self.owner_token_account.data.owner != self.owner {
            Some(ErrorCode::Unauthorized)
        } else {
            None
        }
    }

    /// The record that the creation writes.
    pub open spec fn record(self, amount: u64, inactivity_period_seconds: i64, now: i64) -> TokenHeir {
        TokenHeir {
            owner: self.owner,
            heir: self.heir,
            token_mint: self.token_mint,
            amount,
            last_active_time: now,
            is_claimed: false,
            inactivity_period_seconds,
            bump: self.token_heir_bump,
        }
    }

    /// The accounts after the creation: the record is written, at the address
    /// it had.
    pub open spec fn created(self, amount: u64, inactivity_period_seconds: i64, now: i64) -> AddTokenHeir {
        AddTokenHeir {
            token_heir: Account {
                key: self.token_heir.key,
                data: self.record(amount, inactivity_period_seconds, now),
            },
            ..self
        }
    }

    /// The transfer that funds the escrow, signed for by the owner.
    pub open spec fn funding(self, amount: u64) -> TokenTransfer {
        TokenTransfer {
            from: self.owner_token_account.key,
            to: self.escrow_token_account.key,
            authority: self.owner,
            amount,
        }
    }
}

/// Creates a token record: `amount` tokens of the mint are escrowed for the
/// heir, who may claim them once the owner has been silent for longer than
/// `inactivity_period_seconds`. The clock starts at `now`.
pub fn add_token_heir(
    ctx: &mut AddTokenHeir,
    amount: u64,
    inactivity_period_seconds: i64,
    now: i64,
) -> (r: Result<TokenTransfer, ErrorCode>)
    ensures
        r == match old(ctx).refusal(inactivity_period_seconds) {
            Some(e) => Err::<TokenTransfer, ErrorCode>(e),
            None => Ok(old(ctx).funding(amount)),
        },
        *final(ctx) == if r is Ok {
            old(ctx).created(amount, inactivity_period_seconds, now)
        } else {
            *old(ctx)
        },
{
    if inactivity_period_seconds <= 0 {
        return Err(ErrorCode::InvalidInactivityPeriod);
    }
    if ctx.owner_token_account.data.mint != ctx.token_mint {
        return Err(ErrorCode::InvalidMint);
    }
    if ctx.owner_token_account.data.owner != ctx.owner {
        return Err(ErrorCode::Unauthorized);
    }
    ctx.token_heir.data = TokenHeir {
        owner: ctx.owner,
        heir: ctx.heir,
        token_mint: ctx.token_mint,
        amount,
        last_active_time: now,
        is_claimed: false,
        inactivity_period_seconds,
        bump: ctx.token_heir_bump,
    };
    Ok(
        TokenTransfer {
            from: ctx.owner_token_account.key,
            to: ctx.escrow_token_account.key,
            authority: ctx.owner,
            amount,
        },
    )
}

impl AddCoinHeir {
    /// The record that the creation writes.
    pub open spec fn record(self, amount: u64, inactivity_period_seconds: i64, now: i64) -> CoinHeir {
        CoinHeir {
            owner: self.owner,
            heir: self.heir,
            amount,
            last_active_time: now,
            is_claimed: false,
            inactivity_period_seconds,
            bump: self.coin_heir_bump,
        }
    }

    /// The accounts after the creation: the record is written, at the address
    /// it had.
    pub open spec fn created(self, amount: u64, inactivity_period_seconds: i64, now: i64) -> AddCoinHeir {
        AddCoinHeir {
            coin_heir: Account {
                key: self.coin_heir.key,
                data: self.record(amount, inactivity_period_seconds, now),
            },
            ..self
        }
    }

    /// The transfer that funds the escrow: out of the owner's account and into
    /// the record's own.
    pub open spec fn funding(self, amount: u64) -> CoinTransfer {
        CoinTransfer { from: self.owner, to: self.coin_heir.key, lamports: amount }
    }
}

/// Creates a coin record: `amount` of native coin is escrowed for the heir,
/// who may claim it once the owner has been silent for longer than
/// `inactivity_period_seconds`. The clock starts at `now`.
pub fn add_coin_heir(
    ctx: &mut AddCoinHeir,
    amount: u64,
    inactivity_period_seconds: i64,
    now: i64,
) -> (r: Result<CoinTransfer, ErrorCode>)
    ensures
        r == if inactivity_period_seconds <= 0 {
            Err::<CoinTransfer, ErrorCode>(ErrorCode::InvalidInactivityPeriod)
        } else {
            Ok(old(ctx).funding(amount))
        },
        *final(ctx) == if r is Ok {
            old(ctx).created(amount, inactivity_period_seconds, now)
        } else {
            *old(ctx)
        },
{
    if inactivity_period_seconds <= 0 {
        return Err(ErrorCode::InvalidInactivityPeriod);
    }
    ctx.coin_heir.data = CoinHeir {
        owner: ctx.owner,
        heir: ctx.heir,
        amount,
        last_active_time: now,
        is_claimed: false,
        inactivity_period_seconds,
        bump: ctx.coin_heir_bump,
    };
    Ok(CoinTransfer { from: ctx.owner, to: ctx.coin_heir.key, lamports: amount })
}

/// Why a list of heirs and an inactivity period are refused for a new wallet,
/// or `None` where they are accepted: the period is positive, there are one to
/// ten heirs, and their percentages add up to a hundred.
pub open spec fn wallet_refusal(heirs: Seq<HeirData>, inactivity_period_seconds: i64) -> Option<
    ErrorCode,
> {
    if inactivity_period_seconds <= 0 {
        Some(ErrorCode::InvalidInactivityPeriod)
    } else if heirs.len() > MAX_HEIRS {
        Some(ErrorCode::TooManyHeirs)
    } else if heirs.len() == 0 {
        Some(ErrorCode::NoHeirsProvided)
    } else if allocation_total(heirs) != FULL_ALLOCATION {
        Some(ErrorCode::InvalidAllocation)
    } else {
        None
    }
}

impl CreateSmartWalletInheritance {
    /// The accounts after the creation: the record is written, at the address
    /// it had.
    pub open spec fn created(
        self,
        heirs: Vec<HeirData>,
        inactivity_period_seconds: i64,
        now: i64,
    ) -> CreateSmartWalletInheritance {
        CreateSmartWalletInheritance {
            smart_wallet: Account {
                key: self.smart_wallet.key,
                data: SmartWallet {
                    owner: self.owner,
                    heirs,
                    inactivity_period_seconds,
                    last_active_time: now,
                    is_executed: false,
                    bump: self.smart_wallet_bump,
                },
            },
            ..self
        }
    }
}

/// Creates a smart wallet for `heirs`. The clock starts at `now`.
pub fn create_smart_wallet_inheritance(
    ctx: &mut CreateSmartWalletInheritance,
    heirs: Vec<HeirData>,
    inactivity_period_seconds: i64,
    now: i64,
) -> (r: Result<(), ErrorCode>)
    ensures
        r == match wallet_refusal(heirs@, inactivity_period_seconds) {
            Some(e) => Err::<(), ErrorCode>(e),
            None => Ok(()),
        },
        *final(ctx) == if r is Ok {
            old(ctx).created(heirs, inactivity_period_seconds, now)
        } else {
            *old(ctx)
        },
        r is Ok ==> final(ctx).smart_wallet.data.wf(),
{
    if inactivity_period_seconds <= 0 {
        return Err(ErrorCode::InvalidInactivityPeriod);
    }
    if heirs.len() > MAX_HEIRS {
        return Err(ErrorCode::TooManyHeirs);
    }
    if heirs.len() == 0 {
        return Err(ErrorCode::NoHeirsProvided);
    }
    if total_allocation(&heirs) != 100 {
        return Err(ErrorCode::InvalidAllocation);
    }
    ctx.smart_wallet.data = SmartWallet {
        owner: ctx.owner,
        heirs,
        inactivity_period_seconds,
        last_active_time: now,
        is_executed: false,
        bump: ctx.smart_wallet_bump,
    };
    Ok(())
}

/// The owner of a smart wallet reports activity at `now`: the clock of the
/// wallet restarts. Anyone else is refused and the wallet stays as it was.
pub fn update_smart_wallet_activity(ctx: &mut UpdateSmartWalletActivity, now: i64) -> (r: Result<
    (),
    ErrorCode,
>)
    ensures
        r == if old(ctx).smart_wallet.data.owner == old(ctx).owner {
            Ok::<(), ErrorCode>(())
        } else {
            Err(ErrorCode::Unauthorized)
        },
        *final(ctx) == if r is Ok {
            old(ctx).reported(now)
        } else {
            *old(ctx)
        },
{
    if ctx.smart_wallet.data.owner != ctx.owner {
        return Err(ErrorCode::Unauthorized);
    }
    ctx.smart_wallet.data.last_active_time = now;
    Ok(())
}

impl UpdateSmartWalletActivity {
    /// The accounts after a report at `now`: the clock of the wallet is reset
    /// and nothing else is touched.
    pub open spec fn reported(self, now: i64) -> UpdateSmartWalletActivity {
        UpdateSmartWalletActivity {
            smart_wallet: Account {
                data: SmartWallet { last_active_time: now, ..self.smart_wallet.data },
                ..self.smart_wallet
            },
            ..self
        }
    }
}

impl ExecuteInheritance {
    /// Why a distribution at `now` is refused, or `None` where it goes
    /// through. Who asks does not matter.
    pub open spec fn refusal(self, now: int) -> Option<ErrorCode> {
        if self.smart_wallet.data.is_executed {
            Some(ErrorCode::AlreadyExecuted)
        } else if !self.smart_wallet.data.executable_at(now) {
            Some(ErrorCode::OwnerStillActive)
        } else {
            None
        }
    }

    /// The payouts of the distribution: the whole balance of the wallet's
    /// account, split among the heirs that the wallet names.
    pub open spec fn distribution(self) -> Seq<CoinTransfer> {
        payouts(
            self.smart_wallet_pda.key,
            self.smart_wallet.data.heirs@,
            self.smart_wallet_pda.lamports as int,
        )
    }

    /// The accounts after the distribution: the wallet is marked as executed.
    pub open spec fn executed(self) -> ExecuteInheritance {
        ExecuteInheritance {
            smart_wallet: Account {
                data: SmartWallet { is_executed: true, ..self.smart_wallet.data },
                ..self.smart_wallet
            },
            ..self
        }
    }
}

/// Distributes a smart wallet at `now`, on anyone's call: once the owner
/// counts as gone, the balance of the wallet's account is split among the
/// heirs and the wallet is marked as executed. The payouts are handed back
/// for the ledger to apply; they name the heirs of the wallet and never the
/// caller.
pub fn execute_inheritance(ctx: &mut ExecuteInheritance, now: i64) -> (r: Result<
    Vec<CoinTransfer>,
    ErrorCode,
>)
    requires
        old(ctx).smart_wallet.data.wf(),
    ensures
        match r {
            Ok(transfers) => old(ctx).refusal(now as int) is None && transfers@ == old(
                ctx,
            ).distribution(),
            Err(e) => old(ctx).refusal(now as int) == Some(e),
        },
        *final(ctx) == if r is Ok {
            old(ctx).executed()
        } else {
            *old(ctx)
        },
        final(ctx).smart_wallet.data.is_executed == (old(ctx).smart_wallet.data.is_executed
            || r is Ok),
        final(ctx).smart_wallet.data.wf(),
{
    if ctx.smart_wallet.data.is_executed {
        return Err(ErrorCode::AlreadyExecuted);
    }
    if !inactivity_elapsed(
        now,
        ctx.smart_wallet.data.last_active_time,
        ctx.smart_wallet.data.inactivity_period_seconds,
    ) {
        return Err(ErrorCode::OwnerStillActive);
    }
    proof {
        lemma_full_allocation_in_range(ctx.smart_wallet.data.heirs@);
    }
    let transfers = distribute(
        ctx.smart_wallet_pda.key,
        &ctx.smart_wallet.data.heirs,
        ctx.smart_wallet_pda.lamports,
    );
    ctx.smart_wallet.data.is_executed = true;
    Ok(transfers)
}

/// The owner deposits `amount` of native coin into the wallet's account.
/// Nothing is recorded; the transfer is handed back for the ledger to apply.
pub fn deposit_to_smart_wallet(ctx: &DepositToSmartWallet, amount: u64) -> (r: Result<
    CoinTransfer,
    ErrorCode,
>)
    ensures
        r == if ctx.smart_wallet.data.owner == ctx.owner {
            Ok::<CoinTransfer, ErrorCode>(
                CoinTransfer { from: ctx.owner, to: ctx.smart_wallet_pda, lamports: amount },
            )
        } else {
            Err(ErrorCode::Unauthorized)
        },
{
    if ctx.smart_wallet.data.owner != ctx.owner {
        return Err(ErrorCode::Unauthorized);
    }
    Ok(CoinTransfer { from: ctx.owner, to: ctx.smart_wallet_pda, lamports: amount })
}

impl DepositTokensToSmartWallet {
    /// Why the deposit is refused, or `None` where it goes through: the
    /// signer owns the wallet and the token account to pay from, and both
    /// token accounts hold the mint named.
    pub open spec fn refusal(self) -> Option<ErrorCode> {
        if self.smart_wallet.data.owner != self.owner {
            Some(ErrorCode::Unauthorized)
        } else if self.owner_token_account.data.owner != self.owner {
            Some(ErrorCode::Unauthorized)
        } else if self.owner_token_account.data.mint != self.token_mint {
            Some(ErrorCode::InvalidMint)
        } else if self.smart_wallet_token_account.data.mint != self.token_mint {
            Some(ErrorCode::InvalidMint)
        } else {
            None
        }
    }

    /// The transfer of the deposit, signed for by the owner.
    pub open spec fn deposit(self, amount: u64) -> TokenTransfer {
        TokenTransfer {
            from: self.owner_token_account.key,
            to: self.smart_wallet_token_account.key,
            authority: self.owner,
            amount,
        }
    }
}

/// The owner deposits `amount` tokens into the wallet's token account.
/// Nothing is recorded; the transfer is handed back for the ledger to apply.
pub fn deposit_tokens_to_smart_wallet(ctx: &DepositTokensToSmartWallet, amount: u64) -> (r: Result<
    TokenTransfer,
    ErrorCode,
>)
    ensures
        r == match ctx.refusal() {
            Some(e) => Err::<TokenTransfer, ErrorCode>(e),
            None => Ok(ctx.deposit(amount)),
        },
{
    if ctx.smart_wallet.data.owner != ctx.owner {
        return Err(ErrorCode::Unauthorized);
    }
    if ctx.owner_token_account.data.owner != ctx.owner {
        return Err(ErrorCode::Unauthorized);
    }
    if ctx.owner_token_account.data.mint != ctx.token_mint {
        return Err(ErrorCode::InvalidMint);
    }
    if ctx.smart_wallet_token_account.data.mint != ctx.token_mint {
        return Err(ErrorCode::InvalidMint);
    }
    Ok(
        TokenTransfer {
            from: ctx.owner_token_account.key,
            to: ctx.smart_wallet_token_account.key,
            authority: ctx.owner,
            amount,
        },
    )
}

/// No wallet is created with percentages that do not add up to a hundred;
/// where nothing else is wrong with the request, that is the reason given.
pub proof fn lemma_allocation_must_be_full(heirs: Seq<HeirData>, inactivity_period_seconds: i64)
    requires
        allocation_total(heirs) != FULL_ALLOCATION,
    ensures
        wallet_refusal(heirs, inactivity_period_seconds) is Some,
        inactivity_period_seconds > 0 && 0 < heirs.len() <= MAX_HEIRS ==> wallet_refusal(
            heirs,
            inactivity_period_seconds,
        ) == Some(ErrorCode::InvalidAllocation),
{
}

/// A wallet is distributed at most once: after a distribution every further
/// one is refused as already executed, whoever asks and whenever.
pub proof fn lemma_execution_is_final(ctx: ExecuteInheritance, now: int, again: ExecuteInheritance, later: int)
    requires
        ctx.refusal(now) is None,
        again.smart_wallet == ctx.executed().smart_wallet,
    ensures
        again.refusal(later) == Some(ErrorCode::AlreadyExecuted),
{
}

/// A wallet that has not been distributed is distributed exactly when
/// strictly more than the inactivity period has passed since the owner's last
/// report; up to and including the last second of the period the request is
/// refused because the owner is still active.
pub proof fn lemma_execution_deadline(ctx: ExecuteInheritance, now: int)
    requires
        !ctx.smart_wallet.data.is_executed,
    ensures
        ctx.refusal(now) is None <==> now - ctx.smart_wallet.data.last_active_time
            > ctx.smart_wallet.data.inactivity_period_seconds,
        ctx.refusal(now) is Some ==> ctx.refusal(now) == Some(ErrorCode::OwnerStillActive),
{
}

/// A distribution never pays out more than the balance of the wallet's
/// account, and what rounding leaves behind in it is less than one unit for
/// each heir.
pub proof fn lemma_distribution_within_balance(ctx: ExecuteInheritance)
    requires
        ctx.smart_wallet.data.wf(),
    ensures
        lamports_total(ctx.distribution()) <= ctx.smart_wallet_pda.lamports,
        ctx.smart_wallet_pda.lamports - lamports_total(ctx.distribution())
            < ctx.smart_wallet.data.heirs@.len(),
{
    lemma_full_allocation_loss(
        ctx.smart_wallet_pda.key,
        ctx.smart_wallet.data.heirs@,
        ctx.smart_wallet_pda.lamports as int,
    );
}

} // verus!
