//! Batches: up to ten transfers out of one account in one instruction.
//!
//! A batch is walked in order. An entry with amount zero is passed over. Every
//! other entry is checked against the account handed in at the same position,
//! and the walk stops at the first entry that fails its check. What is handed
//! back is the list of transfers up to there and, where the walk stopped, the
//! reason. The ledger applies the list and then fails the instruction with
//! that reason, so that a batch with a bad entry moves nothing.

use vstd::prelude::*;
use crate::accounts::{
    packed_mint,
    packed_owner,
    token_account_unpacks,
    unpack_token_account,
    Account,
    AccountInfo,
    CoinTransfer,
    TokenAccount,
    TokenTransfer,
};
use crate::errors::ErrorCode;
use crate::pubkey::Pubkey;

verus! {

/// Most entries that a batch may have.
pub const MAX_BATCH_TRANSFERS: usize = 10;

/// Accounts of a batch of token transfers.
#[derive(Clone, Copy, Debug, PartialEq, Eq)]
pub struct BatchTransferTokens {
    pub from_token_account: Account<TokenAccount>,
    /// The signer of the instruction.
    pub authority: Pubkey,
}

/// Accounts of a batch of coin transfers.
#[derive(Clone, Copy, Debug, PartialEq, Eq)]
pub struct BatchTransferCoins {
    /// The signer of the instruction, who pays.
    pub from_account: Pubkey,
}

/// What a batch of coin transfers comes to.
#[derive(Clone, Debug, PartialEq, Eq)]
pub struct CoinBatch {
    /// The transfers to apply, in order.
    pub transfers: Vec<CoinTransfer>,
    /// Why the instruction fails once they are applied, if it does.
    pub failure: Option<ErrorCode>,
}

/// Why a batch of token transfers stops.
#[derive(Debug, PartialEq, Eq)]
pub enum TokenBatchError {
    /// An entry failed a check of this crate.
    Refused(ErrorCode),
    /// The account handed in for an entry does not unpack as a token account;
    /// the value is the error of the unpacking.
    Undecodable(anchor_lang::error::Error),
}

/// `TokenBatchError` without the outside error's contents.
pub enum TokenBatchRefusal {
    Refused(ErrorCode),
    Undecodable,
}

impl View for TokenBatchError {
    type V = TokenBatchRefusal;

    open spec fn view(&self) -> TokenBatchRefusal {
        match self {
            TokenBatchError::Refused(e) => TokenBatchRefusal::Refused(*e),
            TokenBatchError::Undecodable(_) => TokenBatchRefusal::Undecodable,
        }
    }
}

/// What a batch of token transfers comes to.
#[derive(Debug, PartialEq, Eq)]
pub struct TokenBatch {
    /// The transfers to apply, in order.
    pub transfers: Vec<TokenTransfer>,
    /// Why the instruction fails once they are applied, if it does.
    pub failure: Option<TokenBatchError>,
}

impl TokenBatch {
    /// The reason for which the batch stops, without the outside error's
    /// contents.
    pub open spec fn refusal(self) -> Option<TokenBatchRefusal> {
        match self.failure {
            Some(e) => Some(e@),
            None => None,
        }
    }
}

/// Why entry `i` of a coin batch fails its check, if it does: an entry that
/// moves something needs an account at its position, and that account must be
/// the recipient.
pub open spec fn coin_entry_refusal(
    accounts: Seq<AccountInfo>,
    recipients: Seq<Pubkey>,
    amounts: Seq<u64>,
    i: int,
) -> Option<ErrorCode> {
    if amounts[i] == 0 {
        None
    } else if i >= accounts.len() {
        Some(ErrorCode::InsufficientAccounts)
    } else if accounts[i].key != recipients[i] {
        Some(ErrorCode::Unauthorized)
    } else {
        None
    }
}

/// The walk over the first `n` entries of a coin batch: the transfers it has
/// gathered and the reason for which it stopped, if it did.
pub open spec fn coin_batch_upto(
    ctx: BatchTransferCoins,
    accounts: Seq<AccountInfo>,
    recipients: Seq<Pubkey>,
    amounts: Seq<u64>,
    n: int,
) -> (Seq<CoinTransfer>, Option<ErrorCode>)
    decreases n,
{
    if n <= 0 {
        (Seq::empty(), None)
    } else {
        let (done, stopped) = coin_batch_upto(ctx, accounts, recipients, amounts, n - 1);
        if stopped is Some {
            (done, stopped)
        } else if coin_entry_refusal(accounts, recipients, amounts, n - 1) is Some {
            (done, coin_entry_refusal(accounts, recipients, amounts, n - 1))
        } else if amounts[n - 1] == 0 {
            (done, None)
        } else {
            (
                done.push(
                    CoinTransfer {
                        from: ctx.from_account,
                        to: accounts[n - 1].key,
                        lamports: amounts[n - 1],
                    },
                ),
                None,
            )
        }
    }
}

/// What a coin batch comes to: nothing and a refusal where it has more than
/// ten entries or not as many amounts as recipients, else the walk over all
/// of it.
pub open spec fn coin_batch(
    ctx: BatchTransferCoins,
    accounts: Seq<AccountInfo>,
    recipients: Seq<Pubkey>,
    amounts: Seq<u64>,
) -> (Seq<CoinTransfer>, Option<ErrorCode>) {
    if recipients.len() > MAX_BATCH_TRANSFERS {
        (Seq::empty(), Some(ErrorCode::TooManyTransfers))
    } else if recipients.len() != amounts.len() {
        (Seq::empty(), Some(ErrorCode::MismatchedArrays))
    } else {
        coin_batch_upto(ctx, accounts, recipients, amounts, amounts.len() as int)
    }
}

/// A walk that has stopped stays stopped: more entries change nothing.
pub proof fn lemma_coin_batch_stays_stopped(
    ctx: BatchTransferCoins,
    accounts: Seq<AccountInfo>,
    recipients: Seq<Pubkey>,
    amounts: Seq<u64>,
    k: int,
    n: int,
)
    requires
        0 <= k <= n,
        coin_batch_upto(ctx, accounts, recipients, amounts, k).1 is Some,
    ensures
        coin_batch_upto(ctx, accounts, recipients, amounts, n) == coin_batch_upto(
            ctx,
            accounts,
            recipients,
            amounts,
            k,
        ),
    decreases n - k,
{
    if k < n {
        lemma_coin_batch_stays_stopped(ctx, accounts, recipients, amounts, k, n - 1);
    }
}

/// A walk gathers at most one transfer per entry, and every transfer it
/// gathers pays out of the batch's own account.
pub proof fn lemma_coin_batch_transfers(
    ctx: BatchTransferCoins,
    accounts: Seq<AccountInfo>,
    recipients: Seq<Pubkey>,
    amounts: Seq<u64>,
    n: int,
)
    requires
        0 <= n,
    ensures
        coin_batch_upto(ctx, accounts, recipients, amounts, n).0.len() <= n,
        forall|j: int|
            0 <= j < coin_batch_upto(ctx, accounts, recipients, amounts, n).0.len()
                ==> (#[trigger] coin_batch_upto(ctx, accounts, recipients, amounts, n).0[j]).from
                == ctx.from_account,
    decreases n,
{
    if n > 0 {
        lemma_coin_batch_transfers(ctx, accounts, recipients, amounts, n - 1);
    }
}

/// Plans a batch of coin transfers from the signer to `recipients`, entry `i`
/// into the account at position `i` of `remaining_accounts`.
pub fn batch_transfer_coins(
    ctx: &BatchTransferCoins,
    remaining_accounts: &Vec<AccountInfo>,
    recipients: Vec<Pubkey>,
    amounts: Vec<u64>,
) -> (plan: CoinBatch)
    ensures
        (plan.transfers@, plan.failure) == coin_batch(
            *ctx,
            remaining_accounts@,
            recipients@,
            amounts@,
        ),
        recipients@.len() > MAX_BATCH_TRANSFERS ==> plan.transfers@.len() == 0 && plan.failure
            == Some(ErrorCode::TooManyTransfers),
        plan.transfers@.len() <= amounts@.len(),
{
    let mut transfers: Vec<CoinTransfer> = Vec::new();
    if recipients.len() > MAX_BATCH_TRANSFERS {
        return CoinBatch { transfers, failure: Some(ErrorCode::TooManyTransfers) };
    }
    if recipients.len() != amounts.len() {
        return CoinBatch { transfers, failure: Some(ErrorCode::MismatchedArrays) };
    }
    let n: usize = amounts.len();
    let mut i: usize = 0;
    while i < n
        invariant
            i <= n,
            n == amounts@.len(),
            n == recipients@.len(),
            n <= MAX_BATCH_TRANSFERS,
            (transfers@, None::<ErrorCode>) == coin_batch_upto(
                *ctx,
                remaining_accounts@,
                recipients@,
                amounts@,
                i as int,
            ),
        decreases n - i,
    {
        let amount: u64 = amounts[i];
        if amount > 0 {
            let mut failure: Option<ErrorCode> = None;
            if i >= remaining_accounts.len() {
                failure = Some(ErrorCode::InsufficientAccounts);
            } else if remaining_accounts[i].key != recipients[i] {
                failure = Some(ErrorCode::Unauthorized);
            }
            if failure.is_some() {
                proof {
                    lemma_coin_batch_stays_stopped(
                        *ctx,
                        remaining_accounts@,
                        recipients@,
                        amounts@,
                        i + 1,
                        n as int,
                    );
                    lemma_coin_batch_transfers(
                        *ctx,
                        remaining_accounts@,
                        recipients@,
                        amounts@,
                        i as int,
                    );
                }
                return CoinBatch { transfers, failure };
            }
            transfers.push(
                CoinTransfer {
                    from: ctx.from_account,
                    to: remaining_accounts[i].key,
                    lamports: amount,
                },
            );
        }
        i += 1;
    }
    proof {
        lemma_coin_batch_transfers(*ctx, remaining_accounts@, recipients@, amounts@, n as int);
    }
    CoinBatch { transfers, failure: None }
}

/// Checks the account that a token batch is to pay into against the account
/// it pays out of and against the recipient named for it: both accounts hold
/// the same mint, and the recipient owns the one paid into.
pub fn check_token_destination(
    source: &TokenAccount,
    destination: &TokenAccount,
    recipient: &Pubkey,
) -> (r: Result<(), ErrorCode>)
    ensures
        r == if source.mint != destination.mint {
            Err::<(), ErrorCode>(ErrorCode::InvalidMint)
        } else if destination.owner != *recipient {
            Err(ErrorCode::Unauthorized)
        } else {
            Ok(())
        },
{
    if source.mint != destination.mint {
        return Err(ErrorCode::InvalidMint);
    }
    if destination.owner != *recipient {
        return Err(ErrorCode::Unauthorized);
    }
    Ok(())
}

/// Why entry `i` of a token batch fails its check, if it does: an entry that
/// moves something needs an account at its position, which must unpack as a
/// token account of the batch's mint, owned by the recipient.
pub open spec fn token_entry_refusal(
    ctx: BatchTransferTokens,
    accounts: Seq<AccountInfo>,
    recipients: Seq<Pubkey>,
    amounts: Seq<u64>,
    i: int,
) -> Option<TokenBatchRefusal> {
    if amounts[i] == 0 {
        None
    } else if i >= accounts.len() {
        Some(TokenBatchRefusal::Refused(ErrorCode::InsufficientAccounts))
    } else if !token_account_unpacks(accounts[i].data@) {
        Some(TokenBatchRefusal::Undecodable)
    } else if packed_mint(accounts[i].data@) != ctx.from_token_account.data.mint@ {
        Some(TokenBatchRefusal::Refused(ErrorCode::InvalidMint))
    } else if packed_owner(accounts[i].data@) != recipients[i]@ {
        Some(TokenBatchRefusal::Refused(ErrorCode::Unauthorized))
    } else {
        None
    }
}

/// The walk over the first `n` entries of a token batch: the transfers it has
/// gathered and the reason for which it stopped, if it did.
pub open spec fn token_batch_upto(
    ctx: BatchTransferTokens,
    accounts: Seq<AccountInfo>,
    recipients: Seq<Pubkey>,
    amounts: Seq<u64>,
    n: int,
) -> (Seq<TokenTransfer>, Option<TokenBatchRefusal>)
    decreases n,
{
    if n <= 0 {
        (Seq::empty(), None)
    } else {
        let (done, stopped) = token_batch_upto(ctx, accounts, recipients, amounts, n - 1);
        if stopped is Some {
            (done, stopped)
        } else if token_entry_refusal(ctx, accounts, recipients, amounts, n - 1) is Some {
            (done, token_entry_refusal(ctx, accounts, recipients, amounts, n - 1))
        } else if amounts[n - 1] == 0 {
            (done, None)
        } else {
            (
                done.push(
                    TokenTransfer {
                        from: ctx.from_token_account.key,
                        to: accounts[n - 1].key,
                        authority: ctx.authority,
                        amount: amounts[n - 1],
                    },
                ),
                None,
            )
        }
    }
}

/// What a token batch comes to: nothing and a refusal where it has more than
/// ten entries, not as many amounts as recipients, or a signer who does not
/// own the account to pay from; else the walk over all of it.
pub open spec fn token_batch(
    ctx: BatchTransferTokens,
    accounts: Seq<AccountInfo>,
    recipients: Seq<Pubkey>,
    amounts: Seq<u64>,
) -> (Seq<TokenTransfer>, Option<TokenBatchRefusal>) {
    if recipients.len() > MAX_BATCH_TRANSFERS {
        (Seq::empty(), Some(TokenBatchRefusal::Refused(ErrorCode::TooManyTransfers)))
    } else if recipients.len() != amounts.len() {
        (Seq::empty(), Some(TokenBatchRefusal::Refused(ErrorCode::MismatchedArrays)))
    } else if ctx.from_token_account.data.owner != ctx.authority {
        (Seq::empty(), Some(TokenBatchRefusal::Refused(ErrorCode::Unauthorized)))
    } else {
        token_batch_upto(ctx, accounts, recipients, amounts, amounts.len() as int)
    }
}

/// A walk that has stopped stays stopped: more entries change nothing.
pub proof fn lemma_token_batch_stays_stopped(
    ctx: BatchTransferTokens,
    accounts: Seq<AccountInfo>,
    recipients: Seq<Pubkey>,
    amounts: Seq<u64>,
    k: int,
    n: int,
)
    requires
        0 <= k <= n,
        token_batch_upto(ctx, accounts, recipients, amounts, k).1 is Some,
    ensures
        token_batch_upto(ctx, accounts, recipients, amounts, n) == token_batch_upto(
            ctx,
            accounts,
            recipients,
            amounts,
            k,
        ),
    decreases n - k,
{
    if k < n {
        lemma_token_batch_stays_stopped(ctx, accounts, recipients, amounts, k, n - 1);
    }
}

/// A walk gathers at most one transfer per entry, and every transfer it
/// gathers pays out of the batch's own account on the signer's authority.
pub proof fn lemma_token_batch_transfers(
    ctx: BatchTransferTokens,
    accounts: Seq<AccountInfo>,
    recipients: Seq<Pubkey>,
    amounts: Seq<u64>,
    n: int,
)
    requires
        0 <= n,
    ensures
        token_batch_upto(ctx, accounts, recipients, amounts, n).0.len() <= n,
        forall|j: int|
            0 <= j < token_batch_upto(ctx, accounts, recipients, amounts, n).0.len() ==> {
                let t = #[trigger] token_batch_upto(ctx, accounts, recipients, amounts, n).0[j];
                t.from == ctx.from_token_account.key && t.authority == ctx.authority
            },
    decreases n,
{
    if n > 0 {
        lemma_token_batch_transfers(ctx, accounts, recipients, amounts, n - 1);
    }
}

/// Plans a batch of token transfers out of the signer's token account to
/// `recipients`, entry `i` into the token account at position `i` of
/// `remaining_accounts`.
pub fn batch_transfer_tokens(
    ctx: &BatchTransferTokens,
    remaining_accounts: &Vec<AccountInfo>,
    recipients: Vec<Pubkey>,
    amounts: Vec<u64>,
) -> (plan: TokenBatch)
    ensures
        (plan.transfers@, plan.refusal()) == token_batch(
            *ctx,
            remaining_accounts@,
            recipients@,
            amounts@,
        ),
        recipients@.len() > MAX_BATCH_TRANSFERS ==> plan.transfers@.len() == 0 && plan.refusal()
            == Some(TokenBatchRefusal::Refused(ErrorCode::TooManyTransfers)),
        plan.transfers@.len() <= amounts@.len(),
{
    let mut transfers: Vec<TokenTransfer> = Vec::new();
    if recipients.len() > MAX_BATCH_TRANSFERS {
        let failure = Some(TokenBatchError::Refused(ErrorCode::TooManyTransfers));
        return TokenBatch { transfers, failure };
    }
    if recipients.len() != amounts.len() {
        let failure = Some(TokenBatchError::Refused(ErrorCode::MismatchedArrays));
        return TokenBatch { transfers, failure };
    }
    if ctx.from_token_account.data.owner != ctx.authority {
        let failure = Some(TokenBatchError::Refused(ErrorCode::Unauthorized));
        return TokenBatch { transfers, failure };
    }
    let n: usize = amounts.len();
    let mut i: usize = 0;
    while i < n
        invariant
            i <= n,
            n == amounts@.len(),
            n == recipients@.len(),
            n <= MAX_BATCH_TRANSFERS,
            ctx.from_token_account.data.owner == ctx.authority,
            (transfers@, None::<TokenBatchRefusal>) == token_batch_upto(
                *ctx,
                remaining_accounts@,
                recipients@,
                amounts@,
                i as int,
            ),
        decreases n - i,
    {
        let amount: u64 = amounts[i];
        if amount > 0 {
            let mut failure: Option<TokenBatchError> = None;
            if i >= remaining_accounts.len() {
                failure = Some(TokenBatchError::Refused(ErrorCode::InsufficientAccounts));
            } else {
                match unpack_token_account(remaining_accounts[i].data.as_slice()) {
                    Err(e) => {
                        failure = Some(TokenBatchError::Undecodable(e));
                    },
                    Ok(destination) => {
                        proof {
                            Pubkey::lemma_eq_iff_same_bytes(
                                ctx.from_token_account.data.mint,
                                destination.mint,
                            );
                            Pubkey::lemma_eq_iff_same_bytes(destination.owner, recipients@[i as int]);
                        }
                        match check_token_destination(
                            &ctx.from_token_account.data,
                            &destination,
                            &recipients[i],
                        ) {
                            Err(e) => {
                                failure = Some(TokenBatchError::Refused(e));
                            },
                            Ok(_) => {},
                        }
                    },
                }
            }
            if failure.is_some() {
                proof {
                    lemma_token_batch_stays_stopped(
                        *ctx,
                        remaining_accounts@,
                        recipients@,
                        amounts@,
                        i + 1,
                        n as int,
                    );
                    lemma_token_batch_transfers(
                        *ctx,
                        remaining_accounts@,
                        recipients@,
                        amounts@,
                        i as int,
                    );
                }
                return TokenBatch { transfers, failure };
            }
            transfers.push(
                TokenTransfer {
                    from: ctx.from_token_account.key,
                    to: remaining_accounts[i].key,
                    authority: ctx.authority,
                    amount,
                },
            );
        }
        i += 1;
    }
    proof {
        lemma_token_batch_transfers(*ctx, remaining_accounts@, recipients@, amounts@, n as int);
    }
    TokenBatch { transfers, failure: None }
}

} // verus!
