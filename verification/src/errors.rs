//! The reasons for which an operation is refused.

use vstd::prelude::*;

verus! {

/// Why an operation was refused. A refused operation changes nothing.
#[derive(Clone, Copy, Debug, PartialEq, Eq, Structural)]
pub enum VaultError {
    /// An amount that has to be positive was zero.
    InvalidAmount,
    /// An unstake asks for more than the position holds.
    InsufficientStake,
    /// A custodial account holds less than the amount to move out of it.
    InsufficientFunds,
    /// The caller is not who the operation is reserved for, or an account
    /// presented is not the one that the vault records.
    Unauthorized,
    /// The vault is locked, or its unlock time has not come yet.
    VaultLocked,
    /// A sum or product does not fit its integer type.
    ArithmeticOverflow,
    /// A difference would be negative.
    ArithmeticUnderflow,
    /// The clock reads earlier than the vault's last accrual.
    ClockRegression,
}

impl VaultError {
    /// The text shown to a user for this error.
    pub open spec fn message_spec(self) -> Seq<char> {
        match self {
            VaultError::InvalidAmount => "Amount must be greater than 0"@,
            VaultError::InsufficientStake => "Insufficient staked balance"@,
            VaultError::InsufficientFunds => "Insufficient funds in vault"@,
            VaultError::Unauthorized => "Unauthorized access"@,
            VaultError::VaultLocked => "Vault is still locked"@,
            VaultError::ArithmeticOverflow => "Arithmetic overflow"@,
            VaultError::ArithmeticUnderflow => "Arithmetic underflow"@,
            VaultError::ClockRegression => "Invalid timestamp"@,
        }
    }

    /// The text shown to a user for this error.
    pub fn message(&self) -> (text: String)
        ensures
            text@ == self.message_spec(),
    {
        match self {
            VaultError::InvalidAmount => "Amount must be greater than 0".to_string(),
            VaultError::InsufficientStake => "Insufficient staked balance".to_string(),
            VaultError::InsufficientFunds => "Insufficient funds in vault".to_string(),
            VaultError::Unauthorized => "Unauthorized access".to_string(),
            VaultError::VaultLocked => "Vault is still locked".to_string(),
            VaultError::ArithmeticOverflow => "Arithmetic overflow".to_string(),
            VaultError::ArithmeticUnderflow => "Arithmetic underflow".to_string(),
            VaultError::ClockRegression => "Invalid timestamp".to_string(),
        }
    }
}

} // verus!
