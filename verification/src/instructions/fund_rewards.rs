//! Funding: the administrator tops up the vault's reward pool.

use crate::errors::VaultError;
use crate::pubkey::Pubkey;
use crate::state::vault::Vault;
use crate::token::{Authorization, TokenAccount, Transfer};
use vstd::prelude::*;

verus! {

/// The accounts of a funding.
#[derive(Clone, Copy, Debug, PartialEq, Eq)]
pub struct FundRewards {
    /// The vault whose reward pool is funded.
    pub vault: Vault,
    /// The vault's reward pool.
    pub reward_vault: TokenAccount,
    /// The administrator's account that the reward comes from.
    pub admin_reward_ata: TokenAccount,
    /// The administrator, who has signed.
    pub authority: Pubkey,
}

impl FundRewards {
    /// Whether the accounts belong together: the signer is the vault's
    /// administrator and owns the source account, and the reward pool is the
    /// vault's.
    pub open spec fn authorized(self) -> bool {
        &&& self.vault.authority == self.authority
        &&& self.admin_reward_ata.owner == self.authority
        &&& self.reward_vault.key == self.vault.reward_vault
    }

    /// The transfer of `amount` into the reward pool, signed by the
    /// administrator.
    pub open spec fn transfer_to_pool(self, amount: u64) -> Transfer {
        Transfer {
            from: self.admin_reward_ata.key,
            to: self.reward_vault.key,
            authorization: Authorization::Owner(self.authority),
            amount,
        }
    }

    /// What a funding with `amount` comes to: `Unauthorized` if the accounts
    /// do not belong together, then `InvalidAmount` if the amount is zero, and
    /// else the transfer.
    pub open spec fn funding(self, amount: u64) -> Result<Transfer, VaultError> {
        if !self.authorized() {
            Err(VaultError::Unauthorized)
        } else if amount == 0 {
            Err(VaultError::InvalidAmount)
        } else {
            Ok(self.transfer_to_pool(amount))
        }
    }
}

/// Funds the reward pool with `amount`; see `FundRewards::funding`.
pub fn fund_rewards(ctx: &FundRewards, amount: u64) -> (r: Result<Transfer, VaultError>)
    ensures
        r == ctx.funding(amount),
{
    if !(ctx.vault.authority == ctx.authority) || !(ctx.admin_reward_ata.owner == ctx.authority)
        || !(ctx.reward_vault.key == ctx.vault.reward_vault) {
        return Err(VaultError::Unauthorized);
    }
    if amount == 0 {
        return Err(VaultError::InvalidAmount);
    }
    Ok(
        Transfer {
            from: ctx.admin_reward_ata.key,
            to: ctx.reward_vault.key,
            authorization: Authorization::Owner(ctx.authority),
            amount,
        },
    )
}

} // verus!
