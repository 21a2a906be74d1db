//! Plain-value pictures of the ledger accounts that an instruction reads, and
//! of the transfers that it asks the ledger to make.
//!
//! No function of this crate moves an asset. An instruction checks what it is
//! given, updates the records it owns and hands back the transfers that the
//! ledger has to apply, in order, as one atomic unit with the record updates:
//! if one of them fails, nothing of the instruction is kept.

use vstd::prelude::*;
use crate::pubkey::Pubkey;
use anchor_lang::AccountDeserialize;

verus! {

/// A record owned by the program, together with the address it is stored at.
#[derive(Clone, Copy, Debug, PartialEq, Eq)]
pub struct Account<T> {
    pub key: Pubkey,
    pub data: T,
}

/// An account that the program does not interpret beyond its address, its
/// balance of native coin and its raw contents.
#[derive(Clone, Debug, PartialEq, Eq)]
pub struct AccountInfo {
    pub key: Pubkey,
    pub lamports: u64,
    pub data: Vec<u8>,
}

/// What an instruction reads of a token account: the asset it holds and the
/// party that may spend from it.
#[derive(Clone, Copy, Debug, PartialEq, Eq)]
pub struct TokenAccount {
    pub mint: Pubkey,
    pub owner: Pubkey,
}

/// A transfer of native coin for the ledger to apply.
#[derive(Clone, Copy, Debug, PartialEq, Eq)]
pub struct CoinTransfer {
    pub from: Pubkey,
    pub to: Pubkey,
    pub lamports: u64,
}

/// A transfer of tokens between two token accounts for the ledger to apply,
/// signed for by `authority`.
#[derive(Clone, Copy, Debug, PartialEq, Eq)]
pub struct TokenTransfer {
    pub from: Pubkey,
    pub to: Pubkey,
    pub authority: Pubkey,
    pub amount: u64,
}

/// Length in bytes of a packed token account.
pub const TOKEN_ACCOUNT_LEN: usize = 165;

/// `anchor_lang::error::Error`, the error of the ledger's framework. Nothing
/// is known of what it holds; it is carried through to whoever sends the
/// batch.
#[verifier::external_type_specification]
#[verifier::external_body]
pub struct ExAnchorError(anchor_lang::error::Error);

/// Where the state byte of a packed token account stands.
pub const TOKEN_ACCOUNT_STATE_AT: usize = 108;

/// Where the tag of the optional delegate of a packed token account stands.
pub const TOKEN_ACCOUNT_DELEGATE_TAG_AT: usize = 72;

/// Where the tag of the optional native reserve of a packed token account
/// stands.
pub const TOKEN_ACCOUNT_NATIVE_TAG_AT: usize = 109;

/// Where the tag of the optional close authority of a packed token account
/// stands.
pub const TOKEN_ACCOUNT_CLOSE_TAG_AT: usize = 129;

/// Whether the four bytes of `data` from `at` on are the tag of an optional
/// field: a little-endian zero for an absent value or one for a present one.
pub open spec fn is_option_tag(data: Seq<u8>, at: int) -> bool {
    &&& data[at] == 0 || data[at] == 1
    &&& data[at + 1] == 0
    &&& data[at + 2] == 0
    &&& data[at + 3] == 0
}

/// Whether the token program's unpacking accepts `data` as an initialized
/// token account: it is 165 bytes long, its state byte says initialized or
/// frozen, and its three optional fields each begin with a tag.
pub open spec fn token_account_unpacks(data: Seq<u8>) -> bool {
    &&& data.len() == TOKEN_ACCOUNT_LEN
    &&& data[TOKEN_ACCOUNT_STATE_AT as int] == 1 || data[TOKEN_ACCOUNT_STATE_AT as int] == 2
    &&& is_option_tag(data, TOKEN_ACCOUNT_DELEGATE_TAG_AT as int)
    &&& is_option_tag(data, TOKEN_ACCOUNT_NATIVE_TAG_AT as int)
    &&& is_option_tag(data, TOKEN_ACCOUNT_CLOSE_TAG_AT as int)
}

/// The bytes of a packed token account that name its mint.
pub open spec fn packed_mint(data: Seq<u8>) -> Seq<u8> {
    data.subrange(0, 32)
}

/// The bytes of a packed token account that name its owner.
pub open spec fn packed_owner(data: Seq<u8>) -> Seq<u8> {
    data.subrange(32, 64)
}

/// Calls `anchor_spl::token::TokenAccount::try_deserialize`, which unpacks an
/// `spl_token::state::Account` and refuses one that is not initialized.
///
/// Trusted: the call succeeds exactly on the inputs that
/// `token_account_unpacks` describes, and the mint and the owner handed back
/// are bytes 0..32 and 32..64 of the input.
#[verifier::external_body]
pub(crate) fn unpack_token_account(data: &[u8]) -> (r: Result<TokenAccount, anchor_lang::error::Error>)
    ensures
        r is Ok <==> token_account_unpacks(data@),
        r matches Ok(account) ==> {
            &&& account.mint@ == packed_mint(data@)
            &&& account.owner@ == packed_owner(data@)
        },
{
    let mut buf: &[u8] = data;
    let account = anchor_spl::token::TokenAccount::try_deserialize(&mut buf)?;
    Ok(TokenAccount {
        mint: Pubkey { bytes: account.mint.to_bytes() },
        owner: Pubkey { bytes: account.owner.to_bytes() },
    })
}

} // verus!
