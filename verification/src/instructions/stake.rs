//! Staking: a participant adds collateral to a position.

use crate::errors::VaultError;
use crate::pubkey::Pubkey;
use crate::state::user_stake::{amount_changed, change_amount, earned, harvest, UserStake};
use crate::state::vault::Vault;
use crate::token::{Authorization, TokenAccount, Transfer};
use vstd::prelude::*;

verus! {

/// The accounts of a stake.
#[derive(Clone, Copy, Debug, PartialEq, Eq)]
pub struct Stake {
    /// The vault staked into.
    pub vault: Vault,
    /// The participant's position in that vault.
    pub user_stake: UserStake,
    /// The participant's account that the collateral comes from.
    pub user_token_account: TokenAccount,
    /// The vault's collateral account.
    pub vault_token_account: TokenAccount,
    /// The participant, who has signed.
    pub authority: Pubkey,
}

impl Stake {
    /// Whether the accounts belong together: the position and the source
    /// account are the signer's, and the collateral account is the vault's.
    pub open spec fn authorized(self) -> bool {
        &&& self.user_stake.staker == self.authority
        &&& self.user_token_account.owner == self.authority
        &&& self.vault_token_account.key == self.vault.token_account
    }

    /// The transfer of `amount` from the participant to the vault, signed by
    /// the participant.
    pub open spec fn transfer_to_vault(self, amount: u64) -> Transfer {
        Transfer {
            from: self.user_token_account.key,
            to: self.vault_token_account.key,
            authorization: Authorization::Owner(self.authority),
            amount,
        }
    }

    /// The transfer of `amount` from the participant to the vault, signed by
    /// the participant.
    pub fn into_transfer_to_vault_context(&self, amount: u64) -> (transfer: Transfer)
        ensures
            transfer == self.transfer_to_vault(amount),
    {
        Transfer {
            from: self.user_token_account.key,
            to: self.vault_token_account.key,
            authorization: Authorization::Owner(self.authority),
            amount,
        }
    }
}

/// The vault and the position after `amount` has been staked at time `now`:
/// the accrual is brought up to `now`, the position is settled, and then the
/// amount is added to the position and to the vault's total. An amount of zero
/// is refused.
pub open spec fn staked(vault: Vault, user: UserStake, amount: u64, now: i64) -> Result<
    (Vault, UserStake),
    VaultError,
> {
    if amount == 0 {
        Err(VaultError::InvalidAmount)
    } else {
        match vault.advanced(now) {
            Err(e) => Err(e),
            Ok(v) => match user.settled(v.acc_reward_per_share) {
                Err(e) => Err(e),
                Ok(u) => amount_changed(v, u, amount as int, now),
            },
        }
    }
}

/// Stakes `amount` at time `now`.
///
/// Refused with `Unauthorized` if the accounts do not belong together, and
/// else for what `staked` names. On success the vault and the position are
/// those of `staked`, and the result is the transfer of `amount` from the
/// participant to the vault. Whatever the outcome, the accumulator does not
/// decrease, and the vault's total changes by what the position changes by.
pub fn stake(ctx: &mut Stake, amount: u64, now: i64) -> (r: Result<Transfer, VaultError>)
    ensures
        !old(ctx).authorized() ==> r == Err::<Transfer, VaultError>(VaultError::Unauthorized)
            && *final(ctx) == *old(ctx),
        old(ctx).authorized() ==> match staked(old(ctx).vault, old(ctx).user_stake, amount, now) {
            Ok((v, u)) => r == Ok::<Transfer, VaultError>(old(ctx).transfer_to_vault(amount))
                && *final(ctx) == (Stake { vault: v, user_stake: u, ..*old(ctx) }),
            Err(e) => r == Err::<Transfer, VaultError>(e) && *final(ctx) == *old(ctx),
        },
        final(ctx).vault.acc_reward_per_share >= old(ctx).vault.acc_reward_per_share,
        final(ctx).vault.total_staked - old(ctx).vault.total_staked == final(ctx).user_stake.amount
            - old(ctx).user_stake.amount,
{
    if !(ctx.user_stake.staker == ctx.authority) || !(ctx.user_token_account.owner
        == ctx.authority) || !(ctx.vault_token_account.key == ctx.vault.token_account) {
        return Err(VaultError::Unauthorized);
    }
    if amount == 0 {
        return Err(VaultError::InvalidAmount);
    }
    let mut vault = ctx.vault;
    let mut user = ctx.user_stake;
    match vault.update_rewards(now) {
        Err(e) => {
            return Err(e);
        },
        Ok(()) => {},
    }
    match harvest(&mut user, &vault) {
        Err(e) => {
            return Err(e);
        },
        Ok(()) => {},
    }
    match change_amount(&mut user, &mut vault, amount as i128, now) {
        Err(e) => {
            return Err(e);
        },
        Ok(()) => {},
    }
    let transfer = ctx.into_transfer_to_vault_context(amount);
    ctx.vault = vault;
    ctx.user_stake = user;
    Ok(transfer)
}

/// A stake in figures: where `staked` succeeds, the position holds `amount`
/// more and stands at the vault's new accumulator, its pending reward has
/// grown by what the old amount earned up to `now`, and the vault's total is
/// `amount` more.
pub proof fn lemma_staked_figures(vault: Vault, user: UserStake, amount: u64, now: i64)
    requires
        staked(vault, user, amount, now) is Ok,
    ensures
        ({
            let (v, u) = staked(vault, user, amount, now).unwrap();
            let a = vault.advanced(now).unwrap();
            &&& v == Vault { total_staked: (vault.total_staked + amount) as u64, ..a }
            &&& u.staker == user.staker
            &&& u.bump == user.bump
            &&& u.amount == user.amount + amount
            &&& u.last_update == now
            &&& u.reward_debt == v.acc_reward_per_share
            &&& u.pending_rewards == user.pending_rewards + (if user.amount == 0 {
                0
            } else {
                earned(user.amount, a.acc_reward_per_share, user.reward_debt)
            })
        }),
{
}

} // verus!
