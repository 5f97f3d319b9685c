//! Creating a vault.

use crate::pubkey::Pubkey;
use crate::state::vault::Vault;
use vstd::prelude::*;

verus! {

/// The accounts of the creation of a vault.
#[derive(Clone, Copy, Debug, PartialEq, Eq)]
pub struct InitializeVault {
    /// Who pays for the vault and becomes its administrator.
    pub payer: Pubkey,
    /// The collateral account made for the vault.
    pub token_account: Pubkey,
    /// The asset that rewards are paid in.
    pub reward_mint: Pubkey,
    /// The reward pool made for the vault.
    pub reward_vault: Pubkey,
    /// Bump seed of the vault's own address.
    pub vault_bump: u8,
}

/// The vault as it is created at time `now`: nothing staked, the accumulator
/// at zero, the accrual clock at `now`, withdrawals open.
pub open spec fn initial_vault(
    ctx: InitializeVault,
    authority_bump: u8,
    reward_rate_per_second: u64,
    now: i64,
) -> Vault {
    Vault {
        authority: ctx.payer,
        token_account: ctx.token_account,
        bump: ctx.vault_bump,
        authority_bump,
        is_locked: false,
        unlock_timestamp: 0,
        total_staked: 0,
        reward_mint: ctx.reward_mint,
        reward_vault: ctx.reward_vault,
        reward_rate_per_second,
        acc_reward_per_share: 0,
        last_reward_ts: now,
    }
}

/// Creates a vault at time `now`, with the payer as its administrator and a
/// reward rate that stays as it is given here.
pub fn initialize_vault(
    ctx: &InitializeVault,
    authority_bump: u8,
    reward_rate_per_second: u64,
    now: i64,
) -> (vault: Vault)
    ensures
        vault == initial_vault(*ctx, authority_bump, reward_rate_per_second, now),
{
    Vault {
        authority: ctx.payer,
        token_account: ctx.token_account,
        bump: ctx.vault_bump,
        authority_bump,
        is_locked: false,
        unlock_timestamp: 0,
        total_staked: 0,
        reward_mint: ctx.reward_mint,
        reward_vault: ctx.reward_vault,
        reward_rate_per_second,
        acc_reward_per_share: 0,
        last_reward_ts: now,
    }
}

} // verus!
