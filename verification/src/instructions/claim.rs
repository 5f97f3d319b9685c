//! Claiming: a participant is paid the reward that a position has earned.

use crate::authority::VaultAuthority;
use crate::errors::VaultError;
use crate::pubkey::Pubkey;
use crate::state::user_stake::{claim_all, earned, harvest, UserStake};
use crate::state::vault::Vault;
use crate::token::{Authorization, TokenAccount, Transfer};
use vstd::prelude::*;

verus! {

/// The accounts of a claim.
#[derive(Clone, Copy, Debug, PartialEq, Eq)]
pub struct Claim {
    /// The address of the vault.
    pub vault_key: Pubkey,
    /// The vault that pays.
    pub vault: Vault,
    /// The participant's position in that vault.
    pub user_stake: UserStake,
    /// The participant, who has signed.
    pub staker: Pubkey,
    /// The vault's derived authority, which signs the transfer.
    pub vault_authority: VaultAuthority,
    /// The vault's reward pool.
    pub reward_vault: TokenAccount,
    /// The account that the reward goes to.
    pub destination: TokenAccount,
}

impl Claim {
    /// Whether the accounts belong together: the position is the signer's, the
    /// reward pool is the vault's, and the derived authority is that of this
    /// vault.
    pub open spec fn authorized(self) -> bool {
        &&& self.user_stake.staker == self.staker
        &&& self.reward_vault.key == self.vault.reward_vault
        &&& self.vault_authority.spec_vault() == self.vault_key
        &&& self.vault_authority.spec_bump() == self.vault.authority_bump
    }

    /// The transfer of `payout` from the reward pool to the destination,
    /// signed by the vault's derived authority.
    pub open spec fn transfer_of_reward(self, payout: u64) -> Transfer {
        Transfer {
            from: self.reward_vault.key,
            to: self.destination.key,
            authorization: Authorization::Vault(self.vault_authority),
            amount: payout,
        }
    }
}

/// The vault, the position and the payout of a claim at time `now` against a
/// reward pool that holds `pool_balance`: the accrual is brought up to `now`,
/// the position is settled, and all that is pending then is paid out. A payout
/// of zero is refused, and so is one that the pool cannot cover.
pub open spec fn claimed(vault: Vault, user: UserStake, pool_balance: u64, now: i64) -> Result<
    (Vault, UserStake, u64),
    VaultError,
> {
    match vault.advanced(now) {
        Err(e) => Err(e),
        Ok(v) => match user.settled(v.acc_reward_per_share) {
            Err(e) => Err(e),
            Ok(u) => if u.pending_rewards == 0 {
                Err(VaultError::InvalidAmount)
            } else if pool_balance < u.pending_rewards {
                Err(VaultError::InsufficientFunds)
            } else {
                Ok((v, u.claimed(), u.pending_rewards))
            },
        },
    }
}

/// Claims at time `now` all that the position has earned.
///
/// Refused with `Unauthorized` if the accounts do not belong together, and
/// else for what `claimed` names. On success the vault and the position are
/// those of `claimed`, and the result is the transfer of the payout from the
/// reward pool to the destination. The payout is never more than the reward
/// pool holds. Whatever the outcome, the accumulator does not decrease, and
/// neither the vault's total nor the staked amount changes.
pub fn claim(ctx: &mut Claim, now: i64) -> (r: Result<Transfer, VaultError>)
    ensures
        !old(ctx).authorized() ==> r == Err::<Transfer, VaultError>(VaultError::Unauthorized)
            && *final(ctx) == *old(ctx),
        old(ctx).authorized() ==> match claimed(
            old(ctx).vault,
            old(ctx).user_stake,
            old(ctx).reward_vault.amount,
            now,
        ) {
            Ok((v, u, payout)) => r == Ok::<Transfer, VaultError>(
                old(ctx).transfer_of_reward(payout),
            ) && *final(ctx) == (Claim { vault: v, user_stake: u, ..*old(ctx) }),
            Err(e) => r == Err::<Transfer, VaultError>(e) && *final(ctx) == *old(ctx),
        },
        r matches Ok(transfer) ==> 0 < transfer.amount <= old(ctx).reward_vault.amount,
        final(ctx).vault.acc_reward_per_share >= old(ctx).vault.acc_reward_per_share,
        final(ctx).vault.total_staked == old(ctx).vault.total_staked,
        final(ctx).user_stake.amount == old(ctx).user_stake.amount,
{
    if !(ctx.user_stake.staker == ctx.staker) || !(ctx.reward_vault.key == ctx.vault.reward_vault)
        || !(ctx.vault_authority.vault() == ctx.vault_key) || ctx.vault_authority.bump()
        != ctx.vault.authority_bump {
        return Err(VaultError::Unauthorized);
    }
    let mut vault = ctx.vault;
    let mut user = ctx.user_stake;
    match vault.update_rewards(now) {
        Err(e) => {
            return Err(e);
        },
        Ok(()) => {},
    }
    match harvest(&mut user, &vault) {
        Err(e) => {
            return Err(e);
        },
        Ok(()) => {},
    }
    let payout = claim_all(&mut user);
    if payout == 0 {
        return Err(VaultError::InvalidAmount);
    }
    if ctx.reward_vault.amount < payout {
        return Err(VaultError::InsufficientFunds);
    }
    let transfer = Transfer {
        from: ctx.reward_vault.key,
        to: ctx.destination.key,
        authorization: Authorization::Vault(ctx.vault_authority),
        amount: payout,
    };
    ctx.vault = vault;
    ctx.user_stake = user;
    Ok(transfer)
}

/// A claim in figures: where `claimed` succeeds, the payout is what was
/// pending and what the position earned up to `now`; the position keeps its
/// stake, has nothing pending and stands at the vault's new accumulator; and
/// of the vault only the accrual has changed.
pub proof fn lemma_claimed_figures(vault: Vault, user: UserStake, pool_balance: u64, now: i64)
    requires
        claimed(vault, user, pool_balance, now) is Ok,
    ensures
        ({
            let (v, u, payout) = claimed(vault, user, pool_balance, now).unwrap();
            &&& vault.advanced(now) == Ok::<Vault, VaultError>(v)
            &&& u == UserStake {
                pending_rewards: 0,
                reward_debt: v.acc_reward_per_share,
                ..user
            }
            &&& payout == user.pending_rewards + (if user.amount == 0 {
                0
            } else {
                earned(user.amount, v.acc_reward_per_share, user.reward_debt)
            })
            &&& 0 < payout <= pool_balance
        }),
{
}

} // verus!
