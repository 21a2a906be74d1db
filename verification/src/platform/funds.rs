//! Deposits into a smart wallet's accounts and withdrawals from them, by the
//! wallet's owner. Neither is recorded in the wallet; each hands back the
//! transfer for the ledger to apply.

use vstd::prelude::*;
use crate::accounts::{CoinTransfer, TokenTransfer};
use crate::errors::ErrorCode;
use crate::platform::wallet::{
    DepositToSmartWallet,
    DepositTokensToSmartWallet,
    WithdrawFromSmartWallet,
    WithdrawTokensFromSmartWallet,
};

verus! {

/// The owner deposits `amount` of native coin into the wallet's account.
pub fn deposit_to_smart_wallet(ctx: &DepositToSmartWallet, amount: u64) -> (r: Result<
    CoinTransfer,
    ErrorCode,
>)
    ensures
        r == if ctx.smart_wallet.data.owner == ctx.owner {
            Ok::<CoinTransfer, ErrorCode>(
                CoinTransfer { from: ctx.owner, to: ctx.smart_wallet_pda, lamports: amount },
            )
        } else {
            Err(ErrorCode::Unauthorized)
        },
{
    if ctx.smart_wallet.data.owner != ctx.owner {
        return Err(ErrorCode::Unauthorized);
    }
    Ok(CoinTransfer { from: ctx.owner, to: ctx.smart_wallet_pda, lamports: amount })
}

impl DepositTokensToSmartWallet {
    /// Why the deposit is refused, or `None` where it goes through: the
    /// signer owns the wallet and the token account to pay from, and both
    /// token accounts hold the mint named.
    pub open spec fn refusal(self) -> Option<ErrorCode> {
        if self.smart_wallet.data.owner != self.owner {
            Some(ErrorCode::Unauthorized)
        } else if self.owner_token_account.data.owner != self.owner {
            Some(ErrorCode::Unauthorized)
        } else if self.owner_token_account.data.mint != self.token_mint {
            Some(ErrorCode::InvalidMint)
        } else if self.smart_wallet_token_account.data.mint != self.token_mint {
            Some(ErrorCode::InvalidMint)
        } else {
            None
        }
    }

    /// The transfer of the deposit, signed for by the owner.
    pub open spec fn deposit(self, amount: u64) -> TokenTransfer {
        TokenTransfer {
            from: self.owner_token_account.key,
            to: self.smart_wallet_token_account.key,
            authority: self.owner,
            amount,
        }
    }
}

/// The owner deposits `amount` tokens into the wallet's token account.
pub fn deposit_tokens_to_smart_wallet(ctx: &DepositTokensToSmartWallet, amount: u64) -> (r: Result<
    TokenTransfer,
    ErrorCode,
>)
    ensures
        r == match ctx.refusal() {
            Some(e) => Err::<TokenTransfer, ErrorCode>(e),
            None => Ok(ctx.deposit(amount)),
        },
{
    if ctx.smart_wallet.data.owner != ctx.owner {
        return Err(ErrorCode::Unauthorized);
    }
    if ctx.owner_token_account.data.owner != ctx.owner {
        return Err(ErrorCode::Unauthorized);
    }
    if ctx.owner_token_account.data.mint != ctx.token_mint {
        return Err(ErrorCode::InvalidMint);
    }
    if ctx.smart_wallet_token_account.data.mint != ctx.token_mint {
        return Err(ErrorCode::InvalidMint);
    }
    Ok(
        TokenTransfer {
            from: ctx.owner_token_account.key,
            to: ctx.smart_wallet_token_account.key,
            authority: ctx.owner,
            amount,
        },
    )
}

impl WithdrawFromSmartWallet {
    /// Why the withdrawal is refused, or `None` where it goes through: the
    /// signer owns the wallet, and the wallet's account holds the amount.
    pub open spec fn refusal(self, amount: u64) -> Option<ErrorCode> {
        if self.smart_wallet.data.owner != self.owner {
            Some(ErrorCode::Unauthorized)
        } else if self.smart_wallet_pda.lamports < amount {
            Some(ErrorCode::InsufficientBalance)
        } else {
            None
        }
    }

    /// The transfer of the withdrawal, out of the wallet's account.
    pub open spec fn withdrawal(self, amount: u64) -> CoinTransfer {
        CoinTransfer { from: self.smart_wallet_pda.key, to: self.recipient, lamports: amount }
    }
}

/// The owner withdraws `amount` of native coin from the wallet's account to
/// a recipient of the owner's choice.
pub fn withdraw_from_smart_wallet(ctx: &WithdrawFromSmartWallet, amount: u64) -> (r: Result<
    CoinTransfer,
    ErrorCode,
>)
    ensures
        r == match ctx.refusal(amount) {
            Some(e) => Err::<CoinTransfer, ErrorCode>(e),
            None => Ok(ctx.withdrawal(amount)),
        },
{
    if ctx.smart_wallet.data.owner != ctx.owner {
        return Err(ErrorCode::Unauthorized);
    }
    if ctx.smart_wallet_pda.lamports < amount {
        return Err(ErrorCode::InsufficientBalance);
    }
    Ok(CoinTransfer { from: ctx.smart_wallet_pda.key, to: ctx.recipient, lamports: amount })
}

impl WithdrawTokensFromSmartWallet {
    /// Why the withdrawal is refused, or `None` where it goes through: the
    /// signer owns the wallet, both token accounts hold the mint named, and
    /// the recipient owns the one to pay into.
    pub open spec fn refusal(self) -> Option<ErrorCode> {
        if self.smart_wallet.data.owner != self.owner {
            Some(ErrorCode::Unauthorized)
        } else if self.smart_wallet_token_account.data.mint != self.token_mint {
            Some(ErrorCode::InvalidMint)
        } else if self.recipient_token_account.data.mint != self.token_mint {
            Some(ErrorCode::InvalidMint)
        } else if self.recipient_token_account.data.owner != self.recipient {
            Some(ErrorCode::Unauthorized)
        } else {
            None
        }
    }

    /// The transfer of the withdrawal, signed for by the wallet's account.
    pub open spec fn withdrawal(self, amount: u64) -> TokenTransfer {
        TokenTransfer {
            from: self.smart_wallet_token_account.key,
            to: self.recipient_token_account.key,
            authority: self.smart_wallet_pda,
            amount,
        }
    }
}

/// The owner withdraws `amount` tokens from the wallet's token account to a
/// token account of a recipient of the owner's choice.
pub fn withdraw_tokens_from_smart_wallet(ctx: &WithdrawTokensFromSmartWallet, amount: u64) -> (r:
    Result<TokenTransfer, ErrorCode>)
    ensures
        r == match ctx.refusal() {
            Some(e) => Err::<TokenTransfer, ErrorCode>(e),
            None => Ok(ctx.withdrawal(amount)),
        },
{
    if ctx.smart_wallet.data.owner != ctx.owner {
        return Err(ErrorCode::Unauthorized);
    }
    if ctx.smart_wallet_token_account.data.mint != ctx.token_mint {
        return Err(ErrorCode::InvalidMint);
    }
    if ctx.recipient_token_account.data.mint != ctx.token_mint {
        return Err(ErrorCode::InvalidMint);
    }
    if ctx.recipient_token_account.data.owner != ctx.recipient {
        return Err(ErrorCode::Unauthorized);
    }
    Ok(
        TokenTransfer {
            from: ctx.smart_wallet_token_account.key,
            to: ctx.recipient_token_account.key,
            authority: ctx.smart_wallet_pda,
            amount,
        },
    )
}

} // verus!
