//! Unstaking: a participant takes collateral back out of a position.

use crate::authority::VaultAuthority;
use crate::errors::VaultError;
use crate::pubkey::Pubkey;
use crate::state::user_stake::{amount_changed, change_amount, earned, harvest, UserStake};
use crate::state::vault::Vault;
use crate::token::{Authorization, TokenAccount, Transfer};
use vstd::prelude::*;

verus! {

/// The accounts of an unstake.
#[derive(Clone, Copy, Debug, PartialEq, Eq)]
pub struct Unstake {
    /// The address of the vault.
    pub vault_key: Pubkey,
    /// The vault unstaked from.
    pub vault: Vault,
    /// The participant's position in that vault.
    pub user_stake: UserStake,
    /// The participant's account that the collateral goes to.
    pub user_token_account: TokenAccount,
    /// The vault's collateral account.
    pub vault_token_account: TokenAccount,
    /// The vault's derived authority, which signs the transfer.
    pub vault_authority: VaultAuthority,
    /// The participant, who has signed.
    pub authority: Pubkey,
}

impl Unstake {
    /// Whether the accounts belong together: the position and the target
    /// account are the signer's, the collateral account is the vault's, and
    /// the derived authority is that of this vault.
    pub open spec fn authorized(self) -> bool {
        &&& self.user_stake.staker == self.authority
        &&& self.user_token_account.owner == self.authority
        &&& self.vault_token_account.key == self.vault.token_account
        &&& self.vault_authority.spec_vault() == self.vault_key
        &&& self.vault_authority.spec_bump() == self.vault.authority_bump
    }

    /// The transfer of `amount` from the vault to the participant, signed by
    /// the vault's derived authority.
    pub open spec fn transfer_to_user(self, amount: u64) -> Transfer {
        Transfer {
            from: self.vault_token_account.key,
            to: self.user_token_account.key,
            authorization: Authorization::Vault(self.vault_authority),
            amount,
        }
    }
}

/// The vault and the position after `amount` has been unstaked at time `now`:
/// the accrual is brought up to `now`, the position is settled, and then the
/// amount is taken from the position and from the vault's total. More than the
/// position holds is refused before anything else.
pub open spec fn unstaked(vault: Vault, user: UserStake, amount: u64, now: i64) -> Result<
    (Vault, UserStake),
    VaultError,
> {
    if user.amount < amount {
        Err(VaultError::InsufficientStake)
    } else {
        match vault.advanced(now) {
            Err(e) => Err(e),
            Ok(v) => match user.settled(v.acc_reward_per_share) {
                Err(e) => Err(e),
                Ok(u) => amount_changed(v, u, -(amount as int), now),
            },
        }
    }
}

/// Unstakes `amount` at time `now`. A locked vault does not hinder it.
///
/// Refused with `Unauthorized` if the accounts do not belong together, and
/// else for what `unstaked` names. On success the vault and the position are
/// those of `unstaked`, and the result is the transfer of `amount` from the
/// vault to the participant. Whatever the outcome, the accumulator does not
/// decrease, and the vault's total changes by what the position changes by.
pub fn unstake(ctx: &mut Unstake, amount: u64, now: i64) -> (r: Result<Transfer, VaultError>)
    ensures
        !old(ctx).authorized() ==> r == Err::<Transfer, VaultError>(VaultError::Unauthorized)
            && *final(ctx) == *old(ctx),
        old(ctx).authorized() ==> match unstaked(
            old(ctx).vault,
            old(ctx).user_stake,
            amount,
            now,
        ) {
            Ok((v, u)) => r == Ok::<Transfer, VaultError>(old(ctx).transfer_to_user(amount))
                && *final(ctx) == (Unstake { vault: v, user_stake: u, ..*old(ctx) }),
            Err(e) => r == Err::<Transfer, VaultError>(e) && *final(ctx) == *old(ctx),
        },
        final(ctx).vault.acc_reward_per_share >= old(ctx).vault.acc_reward_per_share,
        final(ctx).vault.total_staked - old(ctx).vault.total_staked == final(ctx).user_stake.amount
            - old(ctx).user_stake.amount,
{
    if !(ctx.user_stake.staker == ctx.authority) || !(ctx.user_token_account.owner
        == ctx.authority) || !(ctx.vault_token_account.key == ctx.vault.token_account) || !(
    ctx.vault_authority.vault() == ctx.vault_key) || ctx.vault_authority.bump()
        != ctx.vault.authority_bump {
        return Err(VaultError::Unauthorized);
    }
    if ctx.user_stake.amount < amount {
        return Err(VaultError::InsufficientStake);
    }
    let mut vault = ctx.vault;
    let mut user = ctx.user_stake;
    match vault.update_rewards(now) {
        Err(e) => {
            return Err(e);
        },
        Ok(()) => {},
    }
    match harvest(&mut user, &vault) {
        Err(e) => {
            return Err(e);
        },
        Ok(()) => {},
    }
    match change_amount(&mut user, &mut vault, -(amount as i128), now) {
        Err(e) => {
            return Err(e);
        },
        Ok(()) => {},
    }
    let transfer = Transfer {
        from: ctx.vault_token_account.key,
        to: ctx.user_token_account.key,
        authorization: Authorization::Vault(ctx.vault_authority),
        amount,
    };
    ctx.vault = vault;
    ctx.user_stake = user;
    Ok(transfer)
}

/// An unstake in figures: where `unstaked` succeeds, the position holds
/// `amount` less and stands at the vault's new accumulator, its pending reward
/// has grown by what the old amount earned up to `now`, and the vault's total
/// is `amount` less.
pub proof fn lemma_unstaked_figures(vault: Vault, user: UserStake, amount: u64, now: i64)
    requires
        unstaked(vault, user, amount, now) is Ok,
    ensures
        ({
            let (v, u) = unstaked(vault, user, amount, now).unwrap();
            let a = vault.advanced(now).unwrap();
            &&& v == Vault { total_staked: (vault.total_staked - amount) as u64, ..a }
            &&& u.staker == user.staker
            &&& u.bump == user.bump
            &&& u.amount == user.amount - amount
            &&& u.last_update == now
            &&& u.reward_debt == v.acc_reward_per_share
            &&& u.pending_rewards == user.pending_rewards + (if user.amount == 0 {
                0
            } else {
                earned(user.amount, a.acc_reward_per_share, user.reward_debt)
            })
        }),
{
}

} // verus!
