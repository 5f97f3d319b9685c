//! The records that the vault keeps: the vault itself and one position per
//! participant.

pub mod user_stake;
pub mod vault;
