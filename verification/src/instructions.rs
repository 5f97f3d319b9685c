//! The operations of the vault. Each takes the accounts that it works on as
//! plain values; one that succeeds changes them and names the transfer to
//! perform, one that fails changes nothing.

pub mod claim;
pub mod deposit;
pub mod fund_rewards;
pub mod initialize;
pub mod lock;
pub mod stake;
pub mod unlock;
pub mod unstake;
pub mod withdraw;
