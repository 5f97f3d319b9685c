//! Depositing: the administrator puts collateral into the vault's custodial
//! account, past the positions.

use crate::errors::VaultError;
use crate::pubkey::Pubkey;
use crate::state::vault::Vault;
use crate::token::{Authorization, TokenAccount, Transfer};
use vstd::prelude::*;

verus! {

/// The accounts of a deposit.
#[derive(Clone, Copy, Debug, PartialEq, Eq)]
pub struct Deposit {
    /// The vault deposited into.
    pub vault: Vault,
    /// The account that the collateral comes from.
    pub user_token_account: TokenAccount,
    /// The vault's collateral account.
    pub vault_token_account: TokenAccount,
    /// The administrator, who has signed.
    pub authority: Pubkey,
}

impl Deposit {
    /// Whether the accounts belong together: the signer is the vault's
    /// administrator and owns the source account, and the collateral account
    /// is the vault's.
    pub open spec fn authorized(self) -> bool {
        &&& self.vault.authority == self.authority
        &&& self.user_token_account.owner == self.authority
        &&& self.vault_token_account.key == self.vault.token_account
    }

    /// The transfer of `amount` into the vault's collateral account, signed by
    /// the administrator.
    pub open spec fn transfer_in(self, amount: u64) -> Transfer {
        Transfer {
            from: self.user_token_account.key,
            to: self.vault_token_account.key,
            authorization: Authorization::Owner(self.authority),
            amount,
        }
    }
}

/// Deposits `amount` of collateral: refused with `Unauthorized` exactly if the
/// accounts do not belong together, and else the transfer into the vault's
/// collateral account. Neither the vault's total nor any position takes note
/// of it.
pub fn deposit(ctx: &Deposit, amount: u64) -> (r: Result<Transfer, VaultError>)
    ensures
        r == (if ctx.authorized() {
            Ok::<Transfer, VaultError>(ctx.transfer_in(amount))
        } else {
            Err::<Transfer, VaultError>(VaultError::Unauthorized)
        }),
{
    if !(ctx.vault.authority == ctx.authority) || !(ctx.user_token_account.owner == ctx.authority)
        || !(ctx.vault_token_account.key == ctx.vault.token_account) {
        return Err(VaultError::Unauthorized);
    }
    Ok(
        Transfer {
            from: ctx.user_token_account.key,
            to: ctx.vault_token_account.key,
            authorization: Authorization::Owner(ctx.authority),
            amount,
        },
    )
}

} // verus!
