//! Dead-man's-switch inheritance of ledger assets: the rules by which an owner
//! escrows coins or tokens for heirs, keeps the switch from firing by reporting
//! activity, and by which heirs are paid once the owner has been silent for
//! longer than the agreed period.

pub mod pubkey;
pub mod accounts;
pub mod errors;
pub mod inactivity;
pub mod shares;
pub mod heirs;
pub mod batch;
pub mod wallets;
pub mod gada;
pub mod platform;
pub mod lite;
