//! Owners' profiles: the plan an owner is on, and what the owner has created
//! and paid so far.

use vstd::prelude::*;
use crate::accounts::Account;
use crate::errors::ErrorCode;
use crate::platform::state::{PlatformConfig, UserProfile};
use crate::pubkey::Pubkey;

verus! {

/// Accounts of the creation of a profile.
#[derive(Clone, Copy, Debug, PartialEq, Eq)]
pub struct InitializeUserProfile {
    /// The account that the ledger has made for the new record; all of it is
    /// written.
    pub user_profile: Account<UserProfile>,
    pub platform_config: Account<PlatformConfig>,
    /// The signer of the instruction.
    pub user: Pubkey,
    /// The bump of the profile's address.
    pub user_profile_bump: u8,
}

/// Accounts of a change to the premium plan.
#[derive(Clone, Copy, Debug, PartialEq, Eq)]
pub struct UpgradeToPremium {
    pub user_profile: Account<UserProfile>,
    /// The signer of the instruction.
    pub user: Pubkey,
}

impl InitializeUserProfile {
    /// The accounts after the creation: the profile is new, and the platform
    /// counts one owner more, and one premium owner more where the plan is
    /// premium.
    pub open spec fn initialized(self, is_premium: bool, now: i64) -> InitializeUserProfile {
        InitializeUserProfile {
            user_profile: Account {
                key: self.user_profile.key,
                data: UserProfile {
                    user: self.user,
                    is_premium,
                    total_inheritances_created: 0,
                    total_fees_paid: 0,
                    created_at: now,
                    total_notifications: 0,
                    referral_partner: None,
                    bump: self.user_profile_bump,
                },
            },
            platform_config: Account {
                data: PlatformConfig {
                    total_users: (self.platform_config.data.total_users + 1) as u64,
                    premium_users: if is_premium {
                        (self.platform_config.data.premium_users + 1) as u64
                    } else {
                        self.platform_config.data.premium_users
                    },
                    ..self.platform_config.data
                },
                ..self.platform_config
            },
            ..self
        }
    }
}

/// Creates the signer's profile at `now`, on the plan given.
///
/// The platform's counts of owners are sixty-four bits wide, and the call
/// asks that they have room for one more.
pub fn initialize_user_profile(ctx: &mut InitializeUserProfile, is_premium: bool, now: i64) -> (r:
    Result<(), ErrorCode>)
    requires
        old(ctx).platform_config.data.total_users < u64::MAX,
        is_premium ==> old(ctx).platform_config.data.premium_users < u64::MAX,
    ensures
        r is Ok,
        *final(ctx) == old(ctx).initialized(is_premium, now),
{
    ctx.user_profile.data = UserProfile {
        user: ctx.user,
        is_premium,
        total_inheritances_created: 0,
        total_fees_paid: 0,
        created_at: now,
        total_notifications: 0,
        referral_partner: None,
        bump: ctx.user_profile_bump,
    };
    ctx.platform_config.data.total_users = ctx.platform_config.data.total_users + 1;
    if is_premium {
        ctx.platform_config.data.premium_users = ctx.platform_config.data.premium_users + 1;
    }
    Ok(())
}

impl UpgradeToPremium {
    /// The accounts after the change: the profile is on the premium plan.
    pub open spec fn upgraded(self) -> UpgradeToPremium {
        UpgradeToPremium {
            user_profile: Account {
                data: UserProfile { is_premium: true, ..self.user_profile.data },
                ..self.user_profile
            },
            ..self
        }
    }
}

/// Puts the signer's own profile on the premium plan.
pub fn upgrade_to_premium(ctx: &mut UpgradeToPremium) -> (r: Result<(), ErrorCode>)
    ensures
        r == if old(ctx).user_profile.data.user == old(ctx).user {
            Ok::<(), ErrorCode>(())
        } else {
            Err(ErrorCode::Unauthorized)
        },
        *final(ctx) == if r is Ok {
            old(ctx).upgraded()
        } else {
            *old(ctx)
        },
{
    if ctx.user_profile.data.user != ctx.user {
        return Err(ErrorCode::Unauthorized);
    }
    ctx.user_profile.data.is_premium = true;
    Ok(())
}

} // verus!
