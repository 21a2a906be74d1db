//! The records of the platform.

use vstd::prelude::*;
use crate::inactivity::owner_gone;
use crate::pubkey::Pubkey;
use crate::shares::{BPS_DENOMINATOR, FULL_ALLOCATION};
use crate::wallets::{allocation_total, HeirData, MAX_HEIRS};

verus! {

/// The inactivity period of owners on the free plan: two days.
pub const INACTIVITY_PERIOD_SECONDS: i64 = 2 * 24 * 60 * 60;

/// The platform fee that a new platform starts with, in basis points.
pub const DEFAULT_PLATFORM_FEE_BPS: u16 = 50;

/// The highest platform fee that the admin may set, in basis points.
pub const MAX_PLATFORM_FEE_BPS: u16 = 200;

/// Most heirs of a wallet on the free plan.
pub const FREE_USER_MAX_HEIRS: u8 = 1;

/// Most heirs of a wallet on the premium plan.
pub const PREMIUM_USER_MAX_HEIRS: u8 = 10;

/// Most token allocations of one wallet.
pub const MAX_SUPPORTED_TOKENS: u8 = 20;

/// The highest share of the fees that a partner may be given, in basis points.
pub const MAX_PARTNER_FEE_SHARE_BPS: u16 = 5000;

/// Most bytes of a partner's name.
pub const MAX_PARTNER_NAME_LEN: usize = 32;

/// The percentage of a wallet's holdings of one mint that is passed on.
#[derive(Clone, Copy, Debug, PartialEq, Eq)]
pub struct TokenAllocation {
    pub token_mint: Pubkey,
    pub allocation_percentage: u8,
}

/// What an owner wants to be told about.
#[derive(Clone, Copy, Debug, PartialEq, Eq)]
pub struct NotificationPreferences {
    pub inactivity_warnings: bool,
    pub inheritance_updates: bool,
    pub fee_notifications: bool,
}

impl Default for NotificationPreferences {
    fn default() -> (preferences: NotificationPreferences)
        ensures
            preferences == (NotificationPreferences {
                inactivity_warnings: false,
                inheritance_updates: false,
                fee_notifications: false,
            }),
    {
        NotificationPreferences {
            inactivity_warnings: false,
            inheritance_updates: false,
            fee_notifications: false,
        }
    }
}

/// A wallet of one owner for several heirs. The assets are not in the record
/// but in an account of their own, which the program signs for.
#[derive(Clone, Debug, PartialEq, Eq)]
pub struct SmartWallet {
    pub owner: Pubkey,
    pub heirs: Vec<HeirData>,
    pub inactivity_period_seconds: i64,
    pub last_active_time: i64,
    pub is_executed: bool,
    pub token_allocations: Vec<TokenAllocation>,
    pub notification_preferences: NotificationPreferences,
    pub bump: u8,
}

/// A smart wallet as a value: its lists are sequences.
pub struct SmartWalletView {
    pub owner: Pubkey,
    pub heirs: Seq<HeirData>,
    pub inactivity_period_seconds: i64,
    pub last_active_time: i64,
    pub is_executed: bool,
    pub token_allocations: Seq<TokenAllocation>,
    pub notification_preferences: NotificationPreferences,
    pub bump: u8,
}

impl View for SmartWallet {
    type V = SmartWalletView;

    open spec fn view(&self) -> SmartWalletView {
        SmartWalletView {
            owner: self.owner,
            heirs: self.heirs@,
            inactivity_period_seconds: self.inactivity_period_seconds,
            last_active_time: self.last_active_time,
            is_executed: self.is_executed,
            token_allocations: self.token_allocations@,
            notification_preferences: self.notification_preferences,
            bump: self.bump,
        }
    }
}

impl SmartWallet {
    /// Bytes that the stored record takes, with room for ten heirs and twenty
    /// token allocations.
    pub const SPACE: usize = 8 + 32 + 4 + (32 + 1) * 10 + 8 + 8 + 1 + 4 + (32 + 1) * 20 + 1 + 1 + 1
        + 1;

    /// What holds of every wallet that the platform has written: it names one
    /// to ten heirs, whose percentages add up to a hundred, and at most
    /// twenty token allocations.
    pub open spec fn wf(self) -> bool {
        &&& 0 < self.heirs@.len() <= MAX_HEIRS
        &&& allocation_total(self.heirs@) == FULL_ALLOCATION
        &&& self.token_allocations@.len() <= MAX_SUPPORTED_TOKENS
    }

    /// Whether the wallet is due for distribution at `now`.
    pub open spec fn executable_at(self, now: int) -> bool {
        !self.is_executed && owner_gone(
            now,
            self.last_active_time as int,
            self.inactivity_period_seconds as int,
        )
    }
}

/// The platform's settings and running totals. There is one such record.
#[derive(Clone, Copy, Debug, PartialEq, Eq)]
pub struct PlatformConfig {
    pub admin: Pubkey,
    pub platform_fee_bps: u16,
    pub treasury: Pubkey,
    pub total_fees_collected: u64,
    pub total_inheritances_executed: u64,
    pub is_paused: bool,
    pub pause_timestamp: i64,
    pub total_users: u64,
    pub premium_users: u64,
    pub total_multi_token_wallets: u64,
    pub total_inheritance_value: u64,
    pub bump: u8,
}

impl PlatformConfig {
    /// Bytes that the stored record takes.
    pub const SPACE: usize = 8 + 32 + 2 + 32 + 8 + 8 + 1 + 8 + 8 + 8 + 8 + 8 + 1;

    /// What holds of the settings that the platform has written: the fee is
    /// within the cap.
    pub open spec fn wf(self) -> bool {
        self.platform_fee_bps <= MAX_PLATFORM_FEE_BPS
    }

    /// Whether the fee is no more than the whole of a balance, so that
    /// something of it, if nothing else, is left once the fee is taken.
    pub open spec fn fee_within_whole(self) -> bool {
        self.platform_fee_bps <= BPS_DENOMINATOR
    }
}

/// The account that collects the platform's fees, with a count of what it
/// holds. The count mirrors the account's balance; it is not the balance.
#[derive(Clone, Copy, Debug, PartialEq, Eq)]
pub struct Treasury {
    pub admin: Pubkey,
    pub total_balance: u64,
    pub bump: u8,
}

impl Treasury {
    /// Bytes that the stored record takes.
    pub const SPACE: usize = 8 + 32 + 8 + 1;
}

/// One owner's plan and running totals.
#[derive(Clone, Copy, Debug, PartialEq, Eq)]
pub struct UserProfile {
    pub user: Pubkey,
    pub is_premium: bool,
    pub total_inheritances_created: u32,
    pub total_fees_paid: u64,
    pub created_at: i64,
    pub total_notifications: u32,
    pub referral_partner: Option<Pubkey>,
    pub bump: u8,
}

impl UserProfile {
    /// Bytes that the stored record takes.
    pub const SPACE: usize = 8 + 32 + 1 + 4 + 8 + 8 + 4 + 1 + 32 + 1;

    /// Most heirs that a wallet of this owner may be created with.
    pub open spec fn max_heirs(self) -> int {
        if self.is_premium {
            PREMIUM_USER_MAX_HEIRS as int
        } else {
            FREE_USER_MAX_HEIRS as int
        }
    }

    /// Whether this owner may use `inactivity_period_seconds`: the free plan
    /// has one period, two days.
    pub open spec fn allows_period(self, inactivity_period_seconds: i64) -> bool {
        self.is_premium || inactivity_period_seconds == INACTIVITY_PERIOD_SECONDS
    }
}

/// A partner who brings owners to the platform under its own name.
#[derive(Clone, Debug, PartialEq, Eq)]
pub struct PartnerConfig {
    pub admin: Pubkey,
    pub partner_authority: Pubkey,
    pub name: String,
    pub fee_share_bps: u16,
    pub custom_branding: bool,
    pub total_referrals: u32,
    pub total_fees_earned: u64,
    pub is_active: bool,
    pub created_at: i64,
    pub bump: u8,
}

impl PartnerConfig {
    /// Bytes that the stored record takes.
    pub const SPACE: usize = 8 + 32 + 32 + 4 + 32 + 2 + 1 + 4 + 8 + 1 + 8 + 1;
}

/// What a notification is about.
#[derive(Clone, Copy, Debug, PartialEq, Eq, Structural)]
pub enum NotificationType {
    InheritanceTriggered,
    InactivityWarning,
    FeeCollection,
    SystemMaintenance,
    SecurityAlert,
}

/// A message for an owner.
#[derive(Clone, Debug, PartialEq, Eq)]
pub struct Notification {
    pub user: Pubkey,
    pub notification_type: NotificationType,
    pub message: String,
    pub timestamp: i64,
    pub is_read: bool,
    pub bump: u8,
}

impl Notification {
    /// Bytes that the stored record takes.
    pub const SPACE: usize = 8 + 32 + 1 + 4 + 200 + 8 + 1 + 1;
}

} // verus!
