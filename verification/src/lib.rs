//! A custodial staking vault with time-weighted reward accrual.
//!
//! Participants stake a collateral asset into a shared vault. A reward asset is
//! emitted at a fixed rate per second and shared among the stakers in
//! proportion to stake and time. The vault keeps one scaled accumulator of
//! reward per staked unit; each position keeps the accumulator value of its
//! last settlement, so that no operation ever walks over all positions.
//!
//! Every operation takes the accounts it works on as plain values, decides, and
//! hands back the transfer that the caller has to perform with the token
//! program. An operation that fails leaves every account as it was.
//!
//! - `state`: the vault and the position, the accrual and the settlement.
//! - `instructions`: the operations, one module each.
//! - `authority`, `token`: who signs a transfer, and the transfers themselves.
//! - `ledger`: a vault with all its positions, and what every sequence of
//!   operations keeps true of them.
//! - `points`: a simpler scheme without a shared accumulator.

pub mod authority;
pub mod errors;
pub mod instructions;
pub mod ledger;
pub mod points;
pub mod pubkey;
pub mod state;
pub mod token;

pub use crate::errors::VaultError;
pub use crate::pubkey::Pubkey;
pub use crate::state::vault::Vault;
pub use crate::state::user_stake::UserStake;
