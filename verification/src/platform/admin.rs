//! What the platform's admin does: set the platform up, set the fee, withdraw
//! from the treasury, pause, hand the office on, and sign up partners. Every
//! one of these but the set-up is refused to anyone but the admin that the
//! record names.

use vstd::prelude::*;
use vstd::utf8::encode_utf8;
use crate::accounts::{Account, CoinTransfer};
use crate::errors::ErrorCode;
use crate::platform::state::{
    Notification,
    NotificationType,
    PartnerConfig,
    PlatformConfig,
    Treasury,
    UserProfile,
    DEFAULT_PLATFORM_FEE_BPS,
    MAX_PARTNER_FEE_SHARE_BPS,
    MAX_PARTNER_NAME_LEN,
    MAX_PLATFORM_FEE_BPS,
};
use crate::pubkey::Pubkey;

verus! {

/// Accounts of the platform's set-up.
#[derive(Clone, Copy, Debug, PartialEq, Eq)]
pub struct Initialize {
    /// The account that the ledger has made for the new record; all of it is
    /// written.
    pub platform_config: Account<PlatformConfig>,
    /// The account that the ledger has made for the new record; all of it is
    /// written.
    pub treasury: Account<Treasury>,
    /// The signer of the instruction, who becomes the admin.
    pub admin: Pubkey,
    /// The bump of the settings' address.
    pub platform_config_bump: u8,
    /// The bump of the treasury's address.
    pub treasury_bump: u8,
}

/// Accounts of a change of the platform fee.
#[derive(Clone, Copy, Debug, PartialEq, Eq)]
pub struct UpdatePlatformConfig {
    pub platform_config: Account<PlatformConfig>,
    /// The signer of the instruction.
    pub admin: Pubkey,
}

/// Accounts of a withdrawal from the treasury.
#[derive(Clone, Copy, Debug, PartialEq, Eq)]
pub struct WithdrawTreasury {
    pub treasury: Account<Treasury>,
    /// The signer of the instruction, who is paid.
    pub admin: Pubkey,
}

/// Accounts of a pause or its end.
#[derive(Clone, Copy, Debug, PartialEq, Eq)]
pub struct EmergencyControl {
    pub platform_config: Account<PlatformConfig>,
    /// The signer of the instruction.
    pub admin: Pubkey,
}

/// Accounts of a change of admin.
#[derive(Clone, Copy, Debug, PartialEq, Eq)]
pub struct TransferAdmin {
    pub platform_config: Account<PlatformConfig>,
    pub treasury: Account<Treasury>,
    /// The signer of the instruction, the admin so far.
    pub admin: Pubkey,
}

/// Accounts of a partner's sign-up.
#[derive(Clone, Debug, PartialEq, Eq)]
pub struct CreatePartner {
    /// The account that the ledger has made for the new record; all of it is
    /// written.
    pub partner_config: Account<PartnerConfig>,
    pub platform_config: Account<PlatformConfig>,
    pub partner_authority: Pubkey,
    /// The signer of the instruction.
    pub admin: Pubkey,
    /// The bump of the partner record's address.
    pub partner_config_bump: u8,
}

/// Accounts of a notification.
#[derive(Clone, Debug, PartialEq, Eq)]
pub struct LogNotification {
    /// The account that the ledger has made for the notification.
    pub notification: Account<Notification>,
    pub user_profile: Account<UserProfile>,
    /// The signer of the instruction.
    pub user: Pubkey,
}

/// Accounts of a look at the platform's totals.
#[derive(Clone, Copy, Debug, PartialEq, Eq)]
pub struct GetAnalytics {
    pub platform_config: Account<PlatformConfig>,
    pub treasury: Account<Treasury>,
}

impl Initialize {
    /// The accounts after the set-up: the signer is the admin of both
    /// records, the fee is the default one, nothing is paused and every total
    /// is zero.
    pub open spec fn initialized(self) -> Initialize {
        Initialize {
            platform_config: Account {
                key: self.platform_config.key,
                data: PlatformConfig {
                    admin: self.admin,
                    platform_fee_bps: DEFAULT_PLATFORM_FEE_BPS,
                    treasury: self.treasury.key,
                    total_fees_collected: 0,
                    total_inheritances_executed: 0,
                    is_paused: false,
                    pause_timestamp: 0,
                    total_users: 0,
                    premium_users: 0,
                    total_multi_token_wallets: 0,
                    total_inheritance_value: 0,
                    bump: self.platform_config_bump,
                },
            },
            treasury: Account {
                key: self.treasury.key,
                data: Treasury { admin: self.admin, total_balance: 0, bump: self.treasury_bump },
            },
            ..self
        }
    }
}

/// Sets the platform up: writes the settings and the treasury's record.
pub fn initialize(ctx: &mut Initialize) -> (r: Result<(), ErrorCode>)
    ensures
        r is Ok,
        *final(ctx) == old(ctx).initialized(),
        final(ctx).platform_config.data.wf(),
{
    ctx.platform_config.data = PlatformConfig {
        admin: ctx.admin,
        platform_fee_bps: DEFAULT_PLATFORM_FEE_BPS,
        treasury: ctx.treasury.key,
        total_fees_collected: 0,
        total_inheritances_executed: 0,
        is_paused: false,
        pause_timestamp: 0,
        total_users: 0,
        premium_users: 0,
        total_multi_token_wallets: 0,
        total_inheritance_value: 0,
        bump: ctx.platform_config_bump,
    };
    ctx.treasury.data = Treasury { admin: ctx.admin, total_balance: 0, bump: ctx.treasury_bump };
    Ok(())
}

impl UpdatePlatformConfig {
    /// Why the new fee is refused, or `None` where it is set.
    pub open spec fn refusal(self, new_fee_bps: u16) -> Option<ErrorCode> {
        if self.platform_config.data.admin != self.admin {
            Some(ErrorCode::UnauthorizedAdmin)
        } else if new_fee_bps > MAX_PLATFORM_FEE_BPS {
            Some(ErrorCode::FeeTooHigh)
        } else {
            None
        }
    }

    /// The accounts after the change: the fee is the new one.
    pub open spec fn updated(self, new_fee_bps: u16) -> UpdatePlatformConfig {
        UpdatePlatformConfig {
            platform_config: Account {
                data: PlatformConfig { platform_fee_bps: new_fee_bps, ..self.platform_config.data },
                ..self.platform_config
            },
            ..self
        }
    }
}

/// The admin sets the platform fee, to two percent at most.
pub fn update_platform_config(ctx: &mut UpdatePlatformConfig, new_fee_bps: u16) -> (r: Result<
    (),
    ErrorCode,
>)
    ensures
        r == match old(ctx).refusal(new_fee_bps) {
            Some(e) => Err::<(), ErrorCode>(e),
            None => Ok(()),
        },
        *final(ctx) == if r is Ok {
            old(ctx).updated(new_fee_bps)
        } else {
            *old(ctx)
        },
        old(ctx).platform_config.data.wf() ==> final(ctx).platform_config.data.wf(),
{
    if ctx.platform_config.data.admin != ctx.admin {
        return Err(ErrorCode::UnauthorizedAdmin);
    }
    if new_fee_bps > MAX_PLATFORM_FEE_BPS {
        return Err(ErrorCode::FeeTooHigh);
    }
    ctx.platform_config.data.platform_fee_bps = new_fee_bps;
    Ok(())
}

impl WithdrawTreasury {
    /// Why the withdrawal is refused, or `None` where it goes through.
    pub open spec fn refusal(self, amount: u64) -> Option<ErrorCode> {
        if self.treasury.data.admin != self.admin {
            Some(ErrorCode::UnauthorizedAdmin)
        } else if amount > self.treasury.data.total_balance {
            Some(ErrorCode::InsufficientTreasuryBalance)
        } else {
            None
        }
    }

    /// The accounts after the withdrawal: the treasury's count is down by the
    /// amount.
    pub open spec fn withdrawn(self, amount: u64) -> WithdrawTreasury {
        WithdrawTreasury {
            treasury: Account {
                data: Treasury {
                    total_balance: (self.treasury.data.total_balance - amount) as u64,
                    ..self.treasury.data
                },
                ..self.treasury
            },
            ..self
        }
    }
}

/// The admin withdraws `amount` of the collected fees. The transfer out of
/// the treasury's account is handed back for the ledger to apply.
pub fn withdraw_treasury(ctx: &mut WithdrawTreasury, amount: u64) -> (r: Result<
    CoinTransfer,
    ErrorCode,
>)
    ensures
        r == match old(ctx).refusal(amount) {
            Some(e) => Err::<CoinTransfer, ErrorCode>(e),
            None => Ok(
                CoinTransfer { from: old(ctx).treasury.key, to: old(ctx).admin, lamports: amount },
            ),
        },
        *final(ctx) == if r is Ok {
            old(ctx).withdrawn(amount)
        } else {
            *old(ctx)
        },
{
    if ctx.treasury.data.admin != ctx.admin {
        return Err(ErrorCode::UnauthorizedAdmin);
    }
    if amount > ctx.treasury.data.total_balance {
        return Err(ErrorCode::InsufficientTreasuryBalance);
    }
    ctx.treasury.data.total_balance = ctx.treasury.data.total_balance - amount;
    Ok(CoinTransfer { from: ctx.treasury.key, to: ctx.admin, lamports: amount })
}

impl EmergencyControl {
    /// The accounts after the switch: a pause is stamped with its time, the
    /// end of one clears the stamp.
    pub open spec fn switched(self, paused: bool, now: i64) -> EmergencyControl {
        EmergencyControl {
            platform_config: Account {
                data: PlatformConfig {
                    is_paused: paused,
                    pause_timestamp: if paused {
                        now
                    } else {
                        0
                    },
                    ..self.platform_config.data
                },
                ..self.platform_config
            },
            ..self
        }
    }
}

/// The admin pauses the platform at `now`, or ends the pause.
pub fn emergency_pause(ctx: &mut EmergencyControl, paused: bool, now: i64) -> (r: Result<
    (),
    ErrorCode,
>)
    ensures
        r == if old(ctx).platform_config.data.admin == old(ctx).admin {
            Ok::<(), ErrorCode>(())
        } else {
            Err(ErrorCode::UnauthorizedAdmin)
        },
        *final(ctx) == if r is Ok {
            old(ctx).switched(paused, now)
        } else {
            *old(ctx)
        },
{
    if ctx.platform_config.data.admin != ctx.admin {
        return Err(ErrorCode::UnauthorizedAdmin);
    }
    ctx.platform_config.data.is_paused = paused;
    ctx.platform_config.data.pause_timestamp = if paused {
        now
    } else {
        0
    };
    Ok(())
}

impl TransferAdmin {
    /// Whether the signer is the admin of both records.
    pub open spec fn authorized(self) -> bool {
        self.platform_config.data.admin == self.admin && self.treasury.data.admin == self.admin
    }

    /// The accounts after the hand-over: both records name the new admin.
    pub open spec fn transferred(self, new_admin: Pubkey) -> TransferAdmin {
        TransferAdmin {
            platform_config: Account {
                data: PlatformConfig { admin: new_admin, ..self.platform_config.data },
                ..self.platform_config
            },
            treasury: Account {
                data: Treasury { admin: new_admin, ..self.treasury.data },
                ..self.treasury
            },
            ..self
        }
    }
}

/// The admin hands the office on to `new_admin`, for the settings and the
/// treasury at once.
pub fn transfer_admin(ctx: &mut TransferAdmin, new_admin: Pubkey) -> (r: Result<(), ErrorCode>)
    ensures
        r == if old(ctx).authorized() {
            Ok::<(), ErrorCode>(())
        } else {
            Err(ErrorCode::UnauthorizedAdmin)
        },
        *final(ctx) == if r is Ok {
            old(ctx).transferred(new_admin)
        } else {
            *old(ctx)
        },
{
    if ctx.platform_config.data.admin != ctx.admin {
        return Err(ErrorCode::UnauthorizedAdmin);
    }
    if ctx.treasury.data.admin != ctx.admin {
        return Err(ErrorCode::UnauthorizedAdmin);
    }
    ctx.platform_config.data.admin = new_admin;
    ctx.treasury.data.admin = new_admin;
    Ok(())
}

impl CreatePartner {
    /// Why the sign-up is refused, or `None` where it goes through: the
    /// partner's share is one half at most, and its name thirty-two bytes.
    pub open spec fn refusal(self, partner_name: Seq<char>, fee_share_bps: u16) -> Option<
        ErrorCode,
    > {
        if self.platform_config.data.admin != self.admin {
            Some(ErrorCode::UnauthorizedAdmin)
        } else if fee_share_bps > MAX_PARTNER_FEE_SHARE_BPS {
            Some(ErrorCode::InvalidFeeShare)
        } else if encode_utf8(partner_name).len() > MAX_PARTNER_NAME_LEN {
            Some(ErrorCode::PartnerNameTooLong)
        } else {
            None
        }
    }

    /// The accounts after the sign-up: the partner is active and has earned
    /// nothing yet.
    pub open spec fn created(
        self,
        partner_name: String,
        fee_share_bps: u16,
        custom_branding: bool,
        now: i64,
    ) -> CreatePartner {
        CreatePartner {
            partner_config: Account {
                key: self.partner_config.key,
                data: PartnerConfig {
                    admin: self.admin,
                    partner_authority: self.partner_authority,
                    name: partner_name,
                    fee_share_bps,
                    custom_branding,
                    total_referrals: 0,
                    total_fees_earned: 0,
                    is_active: true,
                    created_at: now,
                    bump: self.partner_config_bump,
                },
            },
            ..self
        }
    }
}

/// The admin signs a partner up at `now`.
pub fn create_partner(
    ctx: &mut CreatePartner,
    partner_name: String,
    fee_share_bps: u16,
    custom_branding: bool,
    now: i64,
) -> (r: Result<(), ErrorCode>)
    ensures
        r == match old(ctx).refusal(partner_name@, fee_share_bps) {
            Some(e) => Err::<(), ErrorCode>(e),
            None => Ok(()),
        },
        *final(ctx) == if r is Ok {
            old(ctx).created(partner_name, fee_share_bps, custom_branding, now)
        } else {
            *old(ctx)
        },
{
    if ctx.platform_config.data.admin != ctx.admin {
        return Err(ErrorCode::UnauthorizedAdmin);
    }
    if fee_share_bps > MAX_PARTNER_FEE_SHARE_BPS {
        return Err(ErrorCode::InvalidFeeShare);
    }
    if partner_name.as_str().as_bytes().len() > MAX_PARTNER_NAME_LEN {
        return Err(ErrorCode::PartnerNameTooLong);
    }
    ctx.partner_config.data = PartnerConfig {
        admin: ctx.admin,
        partner_authority: ctx.partner_authority,
        name: partner_name,
        fee_share_bps,
        custom_branding,
        total_referrals: 0,
        total_fees_earned: 0,
        is_active: true,
        created_at: now,
        bump: ctx.partner_config_bump,
    };
    Ok(())
}

impl LogNotification {
    /// The accounts after the notification is written: it is unread, and the
    /// record's bump is the one it had.
    pub open spec fn logged(
        self,
        timestamp: i64,
        message: String,
        notification_type: NotificationType,
    ) -> LogNotification {
        LogNotification {
            notification: Account {
                key: self.notification.key,
                data: Notification {
                    user: self.user,
                    notification_type,
                    message,
                    timestamp,
                    is_read: false,
                    bump: self.notification.data.bump,
                },
            },
            ..self
        }
    }
}

/// Writes a notification for the signer. Nothing is checked of it.
pub fn log_notification(
    ctx: &mut LogNotification,
    timestamp: i64,
    message: String,
    notification_type: NotificationType,
) -> (r: Result<(), ErrorCode>)
    ensures
        r is Ok,
        *final(ctx) == old(ctx).logged(timestamp, message, notification_type),
{
    ctx.notification.data.user = ctx.user;
    ctx.notification.data.message = message;
    ctx.notification.data.notification_type = notification_type;
    ctx.notification.data.timestamp = timestamp;
    ctx.notification.data.is_read = false;
    Ok(())
}

} // verus!
