//! Smart wallets on the platform: creation within the limits of the owner's
//! plan, changes to the heirs and the period for premium owners, deposits and
//! withdrawals, and the distribution, out of which the platform takes its
//! fee.

use vstd::prelude::*;
use crate::accounts::{Account, AccountInfo, TokenAccount};
use crate::errors::ErrorCode;
use crate::platform::records::counted;
use crate::platform::state::{
    NotificationPreferences,
    PlatformConfig,
    SmartWallet,
    SmartWalletView,
    TokenAllocation,
    Treasury,
    UserProfile,
    FREE_USER_MAX_HEIRS,
    INACTIVITY_PERIOD_SECONDS,
    MAX_SUPPORTED_TOKENS,
    PREMIUM_USER_MAX_HEIRS,
};
use crate::pubkey::Pubkey;
use crate::shares::FULL_ALLOCATION;
use crate::wallets::{
    allocation_total,
    find_heir,
    first_entry_of,
    lemma_allocation_total_bounds,
    lemma_allocation_total_push,
    lemma_allocation_total_update,
    lemma_first_entry_exists,
    names_heir,
    total_allocation,
    HeirData,
    MAX_HEIRS,
};

verus! {

/// Accounts of the creation of a smart wallet.
#[derive(Clone, Debug, PartialEq, Eq)]
pub struct CreateSmartWalletInheritance {
    /// The account that the ledger has made for the new record; all of it is
    /// written.
    pub smart_wallet: Account<SmartWallet>,
    pub user_profile: Account<UserProfile>,
    /// The account that will hold the wallet's assets.
    pub smart_wallet_pda: Pubkey,
    /// The signer of the instruction.
    pub owner: Pubkey,
    /// The bump of the record's address.
    pub smart_wallet_bump: u8,
}

/// Accounts of an activity report on a smart wallet.
#[derive(Clone, Debug, PartialEq, Eq)]
pub struct UpdateSmartWalletActivity {
    pub smart_wallet: Account<SmartWallet>,
    /// The signer of the instruction.
    pub owner: Pubkey,
}

/// Accounts of a change of a wallet's inactivity period.
#[derive(Clone, Debug, PartialEq, Eq)]
pub struct UpdateSmartWalletInactivityPeriod {
    pub smart_wallet: Account<SmartWallet>,
    pub user_profile: Account<UserProfile>,
    /// The signer of the instruction.
    pub owner: Pubkey,
}

/// Accounts of the addition of an heir to a wallet.
#[derive(Clone, Debug, PartialEq, Eq)]
pub struct AddSmartWalletHeir {
    pub smart_wallet: Account<SmartWallet>,
    pub user_profile: Account<UserProfile>,
    /// The signer of the instruction.
    pub owner: Pubkey,
}

/// Accounts of a change of an heir's percentage.
#[derive(Clone, Debug, PartialEq, Eq)]
pub struct UpdateSmartWalletHeirAllocation {
    pub smart_wallet: Account<SmartWallet>,
    pub user_profile: Account<UserProfile>,
    /// The signer of the instruction.
    pub owner: Pubkey,
}

/// Accounts of the distribution of a smart wallet.
#[derive(Clone, Debug, PartialEq, Eq)]
pub struct ExecuteInheritance {
    pub smart_wallet: Account<SmartWallet>,
    pub platform_config: Account<PlatformConfig>,
    pub treasury: Account<Treasury>,
    pub user_profile: Account<UserProfile>,
    /// The account that holds the wallet's assets.
    pub smart_wallet_pda: AccountInfo,
    /// The signer of the instruction, who may be anyone.
    pub caller: Pubkey,
}

/// Accounts of a deposit of coin into a smart wallet.
#[derive(Clone, Debug, PartialEq, Eq)]
pub struct DepositToSmartWallet {
    pub smart_wallet: Account<SmartWallet>,
    /// The account that holds the wallet's assets.
    pub smart_wallet_pda: Pubkey,
    /// The signer of the instruction.
    pub owner: Pubkey,
}

/// Accounts of a deposit of tokens into a smart wallet.
#[derive(Clone, Debug, PartialEq, Eq)]
pub struct DepositTokensToSmartWallet {
    pub smart_wallet: Account<SmartWallet>,
    pub owner_token_account: Account<TokenAccount>,
    pub smart_wallet_token_account: Account<TokenAccount>,
    /// The account that holds the wallet's assets.
    pub smart_wallet_pda: Pubkey,
    pub token_mint: Pubkey,
    /// The signer of the instruction.
    pub owner: Pubkey,
}

/// Accounts of a withdrawal of coin from a smart wallet.
#[derive(Clone, Debug, PartialEq, Eq)]
pub struct WithdrawFromSmartWallet {
    pub smart_wallet: Account<SmartWallet>,
    /// The account that holds the wallet's assets.
    pub smart_wallet_pda: AccountInfo,
    /// The signer of the instruction.
    pub owner: Pubkey,
    pub recipient: Pubkey,
}

/// Accounts of a withdrawal of tokens from a smart wallet.
#[derive(Clone, Debug, PartialEq, Eq)]
pub struct WithdrawTokensFromSmartWallet {
    pub smart_wallet: Account<SmartWallet>,
    pub smart_wallet_token_account: Account<TokenAccount>,
    pub recipient_token_account: Account<TokenAccount>,
    /// The account that holds the wallet's assets.
    pub smart_wallet_pda: Pubkey,
    pub token_mint: Pubkey,
    /// The signer of the instruction.
    pub owner: Pubkey,
    pub recipient: Pubkey,
}

/// Accounts of the setting of a wallet's token allocations.
#[derive(Clone, Debug, PartialEq, Eq)]
pub struct AddMultiTokenInheritance {
    pub smart_wallet: Account<SmartWallet>,
    pub platform_config: Account<PlatformConfig>,
    pub user_profile: Account<UserProfile>,
    /// The signer of the instruction.
    pub owner: Pubkey,
}

impl CreateSmartWalletInheritance {
    /// Why a list of heirs and an inactivity period are refused for a new
    /// wallet, or `None` where they are accepted: the period is positive and
    /// one that the owner's plan allows, there is at least one heir and no
    /// more than the plan allows, and the percentages add up to a hundred.
    pub open spec fn refusal(self, heirs: Seq<HeirData>, inactivity_period_seconds: i64) -> Option<
        ErrorCode,
    > {
        if inactivity_period_seconds <= 0 {
            Some(ErrorCode::InvalidInactivityPeriod)
        } else if heirs.len() == 0 {
            Some(ErrorCode::NoHeirsProvided)
        } else if heirs.len() > self.user_profile.data.max_heirs() {
            Some(ErrorCode::TooManyHeirs)
        } else if !self.user_profile.data.allows_period(inactivity_period_seconds) {
            Some(ErrorCode::CustomInactivityNotAllowed)
        } else if allocation_total(heirs) != FULL_ALLOCATION {
            Some(ErrorCode::InvalidAllocation)
        } else {
            None
        }
    }

    /// The wallet that the creation writes: it has no token allocations, and
    /// no notification is asked for.
    pub open spec fn new_wallet(
        self,
        heirs: Seq<HeirData>,
        inactivity_period_seconds: i64,
        now: i64,
    ) -> SmartWalletView {
        SmartWalletView {
            owner: self.owner,
            heirs,
            inactivity_period_seconds,
            last_active_time: now,
            is_executed: false,
            token_allocations: Seq::empty(),
            notification_preferences: NotificationPreferences {
                inactivity_warnings: false,
                inheritance_updates: false,
                fee_notifications: false,
            },
            bump: self.smart_wallet_bump,
        }
    }

    /// The accounts after the creation: the wallet is written, at the address
    /// it had, and the profile counts it.
    pub open spec fn created(self, wallet: SmartWallet) -> CreateSmartWalletInheritance {
        CreateSmartWalletInheritance {
            smart_wallet: Account { key: self.smart_wallet.key, data: wallet },
            user_profile: counted(self.user_profile),
            ..self
        }
    }
}

/// No wallet is created with percentages that do not add up to a hundred;
/// where nothing else is wrong with the request, that is the reason given.
pub proof fn lemma_allocation_must_be_full(
    ctx: CreateSmartWalletInheritance,
    heirs: Seq<HeirData>,
    inactivity_period_seconds: i64,
)
    requires
        allocation_total(heirs) != FULL_ALLOCATION,
    ensures
        ctx.refusal(heirs, inactivity_period_seconds) is Some,
        inactivity_period_seconds > 0 && 0 < heirs.len() <= ctx.user_profile.data.max_heirs()
            && ctx.user_profile.data.allows_period(inactivity_period_seconds) ==> ctx.refusal(
            heirs,
            inactivity_period_seconds,
        ) == Some(ErrorCode::InvalidAllocation),
{
}

/// Creates a smart wallet for `heirs`. The clock starts at `now`.
///
/// The profile's count is thirty-two bits wide, and the call asks that it has
/// room for one more where the creation goes through.
pub fn create_smart_wallet_inheritance(
    ctx: &mut CreateSmartWalletInheritance,
    heirs: Vec<HeirData>,
    inactivity_period_seconds: i64,
    now: i64,
) -> (r: Result<(), ErrorCode>)
    requires
        old(ctx).refusal(heirs@, inactivity_period_seconds) is None ==> old(
            ctx,
        ).user_profile.data.total_inheritances_created < u32::MAX,
    ensures
        r == match old(ctx).refusal(heirs@, inactivity_period_seconds) {
            Some(e) => Err::<(), ErrorCode>(e),
            None => Ok(()),
        },
        r is Err ==> *final(ctx) == *old(ctx),
        r is Ok ==> *final(ctx) == old(ctx).created(final(ctx).smart_wallet.data),
        r is Ok ==> final(ctx).smart_wallet.data@ == old(ctx).new_wallet(
            heirs@,
            inactivity_period_seconds,
            now,
        ),
        r is Ok ==> final(ctx).smart_wallet.data.wf(),
{
    if inactivity_period_seconds <= 0 {
        return Err(ErrorCode::InvalidInactivityPeriod);
    }
    if heirs.len() == 0 {
        return Err(ErrorCode::NoHeirsProvided);
    }
    let max_heirs: u8 = if ctx.user_profile.data.is_premium {
        PREMIUM_USER_MAX_HEIRS
    } else {
        FREE_USER_MAX_HEIRS
    };
    if heirs.len() > max_heirs as usize {
        return Err(ErrorCode::TooManyHeirs);
    }
    if !ctx.user_profile.data.is_premium && inactivity_period_seconds != INACTIVITY_PERIOD_SECONDS {
        return Err(ErrorCode::CustomInactivityNotAllowed);
    }
    if total_allocation(&heirs) != 100 {
        return Err(ErrorCode::InvalidAllocation);
    }
    ctx.smart_wallet.data = SmartWallet {
        owner: ctx.owner,
        heirs,
        inactivity_period_seconds,
        last_active_time: now,
        is_executed: false,
        token_allocations: Vec::new(),
        notification_preferences: NotificationPreferences::default(),
        bump: ctx.smart_wallet_bump,
    };
    ctx.user_profile.data.total_inheritances_created =
        ctx.user_profile.data.total_inheritances_created + 1;
    Ok(())
}

impl UpdateSmartWalletActivity {
    /// The accounts after a report at `now`: the clock of the wallet is reset
    /// and nothing else is touched.
    pub open spec fn reported(self, now: i64) -> UpdateSmartWalletActivity {
        UpdateSmartWalletActivity {
            smart_wallet: Account {
                data: SmartWallet { last_active_time: now, ..self.smart_wallet.data },
                ..self.smart_wallet
            },
            ..self
        }
    }
}

/// The owner of a smart wallet reports activity at `now`: the clock of the
/// wallet restarts. Anyone else is refused and the wallet stays as it was.
pub fn update_smart_wallet_activity(ctx: &mut UpdateSmartWalletActivity, now: i64) -> (r: Result<
    (),
    ErrorCode,
>)
    ensures
        r == if old(ctx).smart_wallet.data.owner == old(ctx).owner {
            Ok::<(), ErrorCode>(())
        } else {
            Err(ErrorCode::Unauthorized)
        },
        *final(ctx) == if r is Ok {
            old(ctx).reported(now)
        } else {
            *old(ctx)
        },
{
    if ctx.smart_wallet.data.owner != ctx.owner {
        return Err(ErrorCode::Unauthorized);
    }
    ctx.smart_wallet.data.last_active_time = now;
    Ok(())
}

impl UpdateSmartWalletInactivityPeriod {
    /// Why the new period is refused, or `None` where it is set.
    pub open spec fn refusal(self, new_inactivity_period_seconds: i64) -> Option<ErrorCode> {
        if self.smart_wallet.data.owner != self.owner {
            Some(ErrorCode::Unauthorized)
        } else if !self.user_profile.data.is_premium {
            Some(ErrorCode::PremiumRequired)
        } else if new_inactivity_period_seconds <= 0 {
            Some(ErrorCode::InvalidInactivityPeriod)
        } else {
            None
        }
    }

    /// The accounts after the change: the wallet has the new period; its
    /// clock is not restarted.
    pub open spec fn updated(self, new_inactivity_period_seconds: i64) -> UpdateSmartWalletInactivityPeriod {
        UpdateSmartWalletInactivityPeriod {
            smart_wallet: Account {
                data: SmartWallet {
                    inactivity_period_seconds: new_inactivity_period_seconds,
                    ..self.smart_wallet.data
                },
                ..self.smart_wallet
            },
            ..self
        }
    }
}

/// A premium owner sets the inactivity period of the wallet.
pub fn update_smart_wallet_inactivity_period(
    ctx: &mut UpdateSmartWalletInactivityPeriod,
    new_inactivity_period_seconds: i64,
) -> (r: Result<(), ErrorCode>)
    ensures
        r == match old(ctx).refusal(new_inactivity_period_seconds) {
            Some(e) => Err::<(), ErrorCode>(e),
            None => Ok(()),
        },
        *final(ctx) == if r is Ok {
            old(ctx).updated(new_inactivity_period_seconds)
        } else {
            *old(ctx)
        },
{
    if ctx.smart_wallet.data.owner != ctx.owner {
        return Err(ErrorCode::Unauthorized);
    }
    if !ctx.user_profile.data.is_premium {
        return Err(ErrorCode::PremiumRequired);
    }
    if new_inactivity_period_seconds <= 0 {
        return Err(ErrorCode::InvalidInactivityPeriod);
    }
    ctx.smart_wallet.data.inactivity_period_seconds = new_inactivity_period_seconds;
    Ok(())
}

/// Whether a percentage may be given to a single heir: one to a hundred.
pub open spec fn single_allocation_in_range(allocation_percentage: u8) -> bool {
    0 < allocation_percentage <= FULL_ALLOCATION
}

impl AddSmartWalletHeir {
    /// Why the heir is refused, or `None` where it is added.
    pub open spec fn refusal(self, heir_pubkey: Pubkey, allocation_percentage: u8) -> Option<
        ErrorCode,
    > {
        if self.smart_wallet.data.owner != self.owner {
            Some(ErrorCode::Unauthorized)
        } else if !self.user_profile.data.is_premium {
            Some(ErrorCode::PremiumRequired)
        } else if !single_allocation_in_range(allocation_percentage) {
            Some(ErrorCode::InvalidAllocation)
        } else if self.smart_wallet.data.heirs@.len() >= MAX_HEIRS {
            Some(ErrorCode::MaxHeirsReached)
        } else if names_heir(self.smart_wallet.data.heirs@, heir_pubkey) {
            Some(ErrorCode::HeirAlreadyExists)
        } else if allocation_total(self.with_heir(heir_pubkey, allocation_percentage))
            != FULL_ALLOCATION {
            Some(ErrorCode::InvalidAllocation)
        } else {
            None
        }
    }

    /// The wallet's list with the heir added at its end.
    pub open spec fn with_heir(self, heir_pubkey: Pubkey, allocation_percentage: u8) -> Seq<
        HeirData,
    > {
        self.smart_wallet.data.heirs@.push(HeirData { heir_pubkey, allocation_percentage })
    }

    /// The accounts with the wallet given in place of the one they had.
    pub open spec fn with_wallet(self, wallet: SmartWallet) -> AddSmartWalletHeir {
        AddSmartWalletHeir {
            smart_wallet: Account { key: self.smart_wallet.key, data: wallet },
            ..self
        }
    }
}

/// A premium owner adds an heir to the wallet, at the end of its list. The
/// percentages of the other heirs stay as they are, and those of the longer
/// list have to add up to a hundred: a wallet whose percentages do so
/// already has no room for another heir, and the request is refused.
pub fn add_smart_wallet_heir(
    ctx: &mut AddSmartWalletHeir,
    heir_pubkey: Pubkey,
    allocation_percentage: u8,
) -> (r: Result<(), ErrorCode>)
    ensures
        r == match old(ctx).refusal(heir_pubkey, allocation_percentage) {
            Some(e) => Err::<(), ErrorCode>(e),
            None => Ok(()),
        },
        r is Err ==> *final(ctx) == *old(ctx),
        r is Ok ==> *final(ctx) == old(ctx).with_wallet(final(ctx).smart_wallet.data),
        r is Ok ==> final(ctx).smart_wallet.data@ == (SmartWalletView {
            heirs: old(ctx).with_heir(heir_pubkey, allocation_percentage),
            ..old(ctx).smart_wallet.data@
        }),
        r is Ok ==> allocation_total(final(ctx).smart_wallet.data.heirs@) == FULL_ALLOCATION,
        old(ctx).smart_wallet.data.wf() ==> final(ctx).smart_wallet.data.wf(),
{
    if ctx.smart_wallet.data.owner != ctx.owner {
        return Err(ErrorCode::Unauthorized);
    }
    if !ctx.user_profile.data.is_premium {
        return Err(ErrorCode::PremiumRequired);
    }
    if allocation_percentage == 0 || allocation_percentage > 100 {
        return Err(ErrorCode::InvalidAllocation);
    }
    if ctx.smart_wallet.data.heirs.len() >= MAX_HEIRS {
        return Err(ErrorCode::MaxHeirsReached);
    }
    if find_heir(&ctx.smart_wallet.data.heirs, &heir_pubkey).is_some() {
        return Err(ErrorCode::HeirAlreadyExists);
    }
    proof {
        lemma_allocation_total_push(
            ctx.smart_wallet.data.heirs@,
            HeirData { heir_pubkey, allocation_percentage },
        );
    }
    let total: u128 = total_allocation(&ctx.smart_wallet.data.heirs);
    if total != 100 - allocation_percentage as u128 {
        return Err(ErrorCode::InvalidAllocation);
    }
    ctx.smart_wallet.data.heirs.push(HeirData { heir_pubkey, allocation_percentage });
    Ok(())
}

impl UpdateSmartWalletHeirAllocation {
    /// Why the change is refused, or `None` where it is made.
    pub open spec fn refusal(self, heir_pubkey: Pubkey, new_allocation_percentage: u8) -> Option<
        ErrorCode,
    > {
        if self.smart_wallet.data.owner != self.owner {
            Some(ErrorCode::Unauthorized)
        } else if !self.user_profile.data.is_premium {
            Some(ErrorCode::PremiumRequired)
        } else if !single_allocation_in_range(new_allocation_percentage) {
            Some(ErrorCode::InvalidAllocation)
        } else if !names_heir(self.smart_wallet.data.heirs@, heir_pubkey) {
            Some(ErrorCode::HeirNotFound)
        } else if allocation_total(self.with_allocation(heir_pubkey, new_allocation_percentage))
            != FULL_ALLOCATION {
            Some(ErrorCode::InvalidAllocation)
        } else {
            None
        }
    }

    /// The wallet's list with the new percentage at the first entry that
    /// names the heir.
    pub open spec fn with_allocation(self, heir_pubkey: Pubkey, new_allocation_percentage: u8) -> Seq<
        HeirData,
    > {
        self.smart_wallet.data.heirs@.update(
            first_entry_of(self.smart_wallet.data.heirs@, heir_pubkey),
            HeirData { heir_pubkey, allocation_percentage: new_allocation_percentage },
        )
    }

    /// The accounts with the wallet given in place of the one they had.
    pub open spec fn with_wallet(self, wallet: SmartWallet) -> UpdateSmartWalletHeirAllocation {
        UpdateSmartWalletHeirAllocation {
            smart_wallet: Account { key: self.smart_wallet.key, data: wallet },
            ..self
        }
    }
}

/// A premium owner changes the percentage of an heir of the wallet: of the
/// first entry of the list that names the heir. The percentages of the other
/// heirs stay as they are, and those of the changed list have to add up to a
/// hundred: on a wallet whose percentages do so already, any other
/// percentage than the one the heir has is refused.
pub fn update_smart_wallet_heir_allocation(
    ctx: &mut UpdateSmartWalletHeirAllocation,
    heir_pubkey: Pubkey,
    new_allocation_percentage: u8,
) -> (r: Result<(), ErrorCode>)
    ensures
        r == match old(ctx).refusal(heir_pubkey, new_allocation_percentage) {
            Some(e) => Err::<(), ErrorCode>(e),
            None => Ok(()),
        },
        r is Err ==> *final(ctx) == *old(ctx),
        r is Ok ==> *final(ctx) == old(ctx).with_wallet(final(ctx).smart_wallet.data),
        r is Ok ==> final(ctx).smart_wallet.data@ == (SmartWalletView {
            heirs: old(ctx).with_allocation(heir_pubkey, new_allocation_percentage),
            ..old(ctx).smart_wallet.data@
        }),
        r is Ok ==> allocation_total(final(ctx).smart_wallet.data.heirs@) == FULL_ALLOCATION,
        old(ctx).smart_wallet.data.wf() ==> final(ctx).smart_wallet.data.wf(),
{
    if ctx.smart_wallet.data.owner != ctx.owner {
        return Err(ErrorCode::Unauthorized);
    }
    if !ctx.user_profile.data.is_premium {
        return Err(ErrorCode::PremiumRequired);
    }
    if new_allocation_percentage == 0 || new_allocation_percentage > 100 {
        return Err(ErrorCode::InvalidAllocation);
    }
    match find_heir(&ctx.smart_wallet.data.heirs, &heir_pubkey) {
        None => Err(ErrorCode::HeirNotFound),
        Some(i) => {
            proof {
                lemma_allocation_total_update(
                    ctx.smart_wallet.data.heirs@,
                    i as int,
                    HeirData { heir_pubkey, allocation_percentage: new_allocation_percentage },
                );
                lemma_allocation_total_bounds(ctx.smart_wallet.data.heirs@);
            }
            let total: u128 = total_allocation(&ctx.smart_wallet.data.heirs);
            let others: u128 = total - ctx.smart_wallet.data.heirs[i].allocation_percentage as u128;
            if others != 100 - new_allocation_percentage as u128 {
                return Err(ErrorCode::InvalidAllocation);
            }
            ctx.smart_wallet.data.heirs.set(
                i,
                HeirData { heir_pubkey, allocation_percentage: new_allocation_percentage },
            );
            Ok(())
        },
    }
}

/// A wallet as the platform writes it takes no further heir: whatever the
/// heir and its percentage, the request is refused and the list stays as it
/// is.
pub proof fn lemma_full_wallet_takes_no_heir(
    ctx: AddSmartWalletHeir,
    heir_pubkey: Pubkey,
    allocation_percentage: u8,
)
    requires
        ctx.smart_wallet.data.wf(),
    ensures
        ctx.refusal(heir_pubkey, allocation_percentage) is Some,
{
    lemma_allocation_total_push(
        ctx.smart_wallet.data.heirs@,
        HeirData { heir_pubkey, allocation_percentage },
    );
}

/// On a wallet as the platform writes it, the only percentage that an heir
/// may be given is the one it has.
pub proof fn lemma_full_wallet_keeps_percentages(
    ctx: UpdateSmartWalletHeirAllocation,
    heir_pubkey: Pubkey,
    new_allocation_percentage: u8,
)
    requires
        ctx.smart_wallet.data.wf(),
        ctx.refusal(heir_pubkey, new_allocation_percentage) is None,
    ensures
        ctx.with_allocation(heir_pubkey, new_allocation_percentage)
            == ctx.smart_wallet.data.heirs@,
{
    let heirs = ctx.smart_wallet.data.heirs@;
    let i = first_entry_of(heirs, heir_pubkey);
    let witness = choose|k: int| 0 <= k < heirs.len() && (#[trigger] heirs[k]).heir_pubkey == heir_pubkey;
    lemma_first_entry_exists(heirs, heir_pubkey, witness);
    lemma_allocation_total_update(
        heirs,
        i,
        HeirData { heir_pubkey, allocation_percentage: new_allocation_percentage },
    );
    assert(heirs[i] == HeirData { heir_pubkey, allocation_percentage: new_allocation_percentage });
    assert(ctx.with_allocation(heir_pubkey, new_allocation_percentage) =~= heirs);
}

impl AddMultiTokenInheritance {
    /// The accounts after the setting: the wallet has the allocations given
    /// in place of those it had, and the platform counts one more wallet with
    /// token allocations.
    pub open spec fn allocated(self, token_allocations: Vec<TokenAllocation>) -> AddMultiTokenInheritance {
        AddMultiTokenInheritance {
            smart_wallet: Account {
                data: SmartWallet { token_allocations, ..self.smart_wallet.data },
                ..self.smart_wallet
            },
            platform_config: Account {
                data: PlatformConfig {
                    total_multi_token_wallets: (self.platform_config.data.total_multi_token_wallets
                        + 1) as u64,
                    ..self.platform_config.data
                },
                ..self.platform_config
            },
            ..self
        }
    }
}

/// Sets the token allocations of a wallet, twenty at most.
///
/// The platform's count is sixty-four bits wide, and the call asks that it
/// has room for one more where the allocations are accepted.
pub fn add_multi_token_inheritance(
    ctx: &mut AddMultiTokenInheritance,
    token_allocations: Vec<TokenAllocation>,
) -> (r: Result<(), ErrorCode>)
    requires
        token_allocations@.len() <= MAX_SUPPORTED_TOKENS ==> old(
            ctx,
        ).platform_config.data.total_multi_token_wallets < u64::MAX,
    ensures
        r == if token_allocations@.len() <= MAX_SUPPORTED_TOKENS {
            Ok::<(), ErrorCode>(())
        } else {
            Err(ErrorCode::TooManyTokens)
        },
        *final(ctx) == if r is Ok {
            old(ctx).allocated(token_allocations)
        } else {
            *old(ctx)
        },
        old(ctx).smart_wallet.data.wf() ==> final(ctx).smart_wallet.data.wf(),
{
    if token_allocations.len() > MAX_SUPPORTED_TOKENS as usize {
        return Err(ErrorCode::TooManyTokens);
    }
    ctx.smart_wallet.data.token_allocations = token_allocations;
    ctx.platform_config.data.total_multi_token_wallets =
        ctx.platform_config.data.total_multi_token_wallets + 1;
    Ok(())
}

} // verus!
