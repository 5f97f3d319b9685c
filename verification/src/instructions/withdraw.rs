//! Withdrawing: the administrator takes collateral out of the vault's
//! custodial account, past the positions. Only this path heeds the lock.

use crate::authority::VaultAuthority;
use crate::errors::VaultError;
use crate::pubkey::Pubkey;
use crate::state::vault::Vault;
use crate::token::{Authorization, TokenAccount, Transfer};
use vstd::prelude::*;

verus! {

/// The accounts of a withdrawal.
#[derive(Clone, Copy, Debug, PartialEq, Eq)]
pub struct Withdraw {
    /// The address of the vault.
    pub vault_key: Pubkey,
    /// The vault withdrawn from.
    pub vault: Vault,
    /// The vault's derived authority, which signs the transfer.
    pub vault_authority: VaultAuthority,
    /// The account that the collateral goes to.
    pub user_token_account: TokenAccount,
    /// The vault's collateral account.
    pub vault_token_account: TokenAccount,
    /// The administrator, who has signed.
    pub authority: Pubkey,
}

impl Withdraw {
    /// Whether the accounts belong together: the signer is the vault's
    /// administrator and owns the target account, the collateral account is
    /// the vault's, and the derived authority is that of this vault.
    pub open spec fn authorized(self) -> bool {
        &&& self.vault.authority == self.authority
        &&& self.user_token_account.owner == self.authority
        &&& self.vault_token_account.key == self.vault.token_account
        &&& self.vault_authority.spec_vault() == self.vault_key
        &&& self.vault_authority.spec_bump() == self.vault.authority_bump
    }

    /// The transfer of `amount` out of the vault's collateral account, signed
    /// by the vault's derived authority.
    pub open spec fn transfer_out(self, amount: u64) -> Transfer {
        Transfer {
            from: self.vault_token_account.key,
            to: self.user_token_account.key,
            authorization: Authorization::Vault(self.vault_authority),
            amount,
        }
    }

    /// What a withdrawal of `amount` comes to: `Unauthorized` if the accounts
    /// do not belong together, then `VaultLocked` if the vault is locked, then
    /// `InsufficientFunds` if the collateral account holds less than `amount`,
    /// and else the transfer.
    pub open spec fn withdrawal(self, amount: u64) -> Result<Transfer, VaultError> {
        if !self.authorized() {
            Err(VaultError::Unauthorized)
        } else if self.vault.is_locked {
            Err(VaultError::VaultLocked)
        } else if self.vault_token_account.amount < amount {
            Err(VaultError::InsufficientFunds)
        } else {
            Ok(self.transfer_out(amount))
        }
    }
}

/// Withdraws `amount` of collateral; see `Withdraw::withdrawal`. Neither the
/// vault's total nor any position takes note of it.
pub fn withdraw(ctx: &Withdraw, amount: u64) -> (r: Result<Transfer, VaultError>)
    ensures
        r == ctx.withdrawal(amount),
{
    if !(ctx.vault.authority == ctx.authority) || !(ctx.user_token_account.owner == ctx.authority)
        || !(ctx.vault_token_account.key == ctx.vault.token_account) || !(
    ctx.vault_authority.vault() == ctx.vault_key) || ctx.vault_authority.bump()
        != ctx.vault.authority_bump {
        return Err(VaultError::Unauthorized);
    }
    match ctx.vault.require_withdrawable() {
        Err(e) => {
            return Err(e);
        },
        Ok(()) => {},
    }
    if ctx.vault_token_account.amount < amount {
        return Err(VaultError::InsufficientFunds);
    }
    Ok(
        Transfer {
            from: ctx.vault_token_account.key,
            to: ctx.user_token_account.key,
            authorization: Authorization::Vault(ctx.vault_authority),
            amount,
        },
    )
}

} // verus!
