//! The second program: the first one's records and batches, with a platform
//! around them. Owners have a profile and a plan, free or premium; the
//! platform takes a fee in basis points out of every distributed wallet and
//! collects it in a treasury that its admin may withdraw from.

pub mod admin;
pub mod distribution;
pub mod funds;
pub mod profiles;
pub mod records;
pub mod state;
pub mod wallet;

pub use crate::batch::{
    batch_transfer_coins,
    batch_transfer_tokens,
    BatchTransferCoins,
    BatchTransferTokens,
};
pub use crate::heirs::{
    claim_heir_coin_assets,
    claim_heir_token_assets,
    update_activity,
    update_coin_activity,
    ClaimHeirCoinAssets,
    ClaimHeirTokenAssets,
    CoinHeir,
    TokenHeir,
    UpdateActivity,
    UpdateCoinActivity,
};
pub use crate::wallets::HeirData;
pub use state::{
    Notification,
    NotificationPreferences,
    NotificationType,
    PartnerConfig,
    PlatformConfig,
    SmartWallet,
    TokenAllocation,
    Treasury,
    UserProfile,
};
pub use admin::{
    create_partner,
    emergency_pause,
    initialize,
    log_notification,
    transfer_admin,
    update_platform_config,
    withdraw_treasury,
    CreatePartner,
    EmergencyControl,
    GetAnalytics,
    Initialize,
    LogNotification,
    TransferAdmin,
    UpdatePlatformConfig,
    WithdrawTreasury,
};
pub use profiles::{
    initialize_user_profile,
    upgrade_to_premium,
    InitializeUserProfile,
    UpgradeToPremium,
};
pub use records::{add_coin_heir, add_token_heir, AddCoinHeir, AddTokenHeir};
pub use distribution::execute_inheritance;
pub use wallet::{
    add_multi_token_inheritance,
    add_smart_wallet_heir,
    create_smart_wallet_inheritance,
    update_smart_wallet_activity,
    update_smart_wallet_heir_allocation,
    update_smart_wallet_inactivity_period,
    AddMultiTokenInheritance,
    AddSmartWalletHeir,
    CreateSmartWalletInheritance,
    DepositToSmartWallet,
    DepositTokensToSmartWallet,
    ExecuteInheritance,
    UpdateSmartWalletActivity,
    UpdateSmartWalletHeirAllocation,
    UpdateSmartWalletInactivityPeriod,
    WithdrawFromSmartWallet,
    WithdrawTokensFromSmartWallet,
};
pub use funds::{
    deposit_to_smart_wallet,
    deposit_tokens_to_smart_wallet,
    withdraw_from_smart_wallet,
    withdraw_tokens_from_smart_wallet,
};
