//! One participant's position in a vault, and its settlement against the
//! vault's accumulator.

use crate::errors::VaultError;
use crate::pubkey::Pubkey;
use crate::state::vault::Vault;
use vstd::arithmetic::div_mod::lemma_div_is_ordered;
use vstd::prelude::*;

verus! {

/// A participant's position in one vault.
#[derive(Clone, Copy, Debug, PartialEq, Eq)]
pub struct UserStake {
    /// The participant who owns the position.
    pub staker: Pubkey,
    /// The amount staked at present.
    pub amount: u64,
    /// Time of the last change of `amount`.
    pub last_update: i64,
    /// Bump seed of the position's own address.
    pub bump: u8,
    /// The vault's accumulator at the position's last settlement. This is a
    /// checkpoint, not an amount of reward.
    pub reward_debt: u128,
    /// Reward that is settled and not yet claimed.
    pub pending_rewards: u64,
}

/// The reward that `amount` staked units earn while the accumulator grows from
/// `reward_debt` to `accumulator`, rounded down.
pub open spec fn earned(amount: u64, accumulator: u128, reward_debt: u128) -> int {
    (amount as int) * (accumulator - reward_debt) / (Vault::SCALING as int)
}

impl UserStake {
    /// The position that a participant has before the first stake: nothing
    /// staked, nothing pending.
    pub open spec fn fresh(staker: Pubkey, bump: u8) -> UserStake {
        UserStake {
            staker,
            amount: 0,
            last_update: 0,
            bump,
            reward_debt: 0,
            pending_rewards: 0,
        }
    }

    /// Looks a position up or creates it: the position found, if there is one,
    /// else a fresh one for `staker`.
    pub fn get_or_create(found: Option<UserStake>, staker: Pubkey, bump: u8) -> (position:
        UserStake)
        ensures
            position == (match found {
                Some(p) => p,
                None => UserStake::fresh(staker, bump),
            }),
    {
        match found {
            Some(p) => p,
            None => UserStake {
                staker,
                amount: 0,
                last_update: 0,
                bump,
                reward_debt: 0,
                pending_rewards: 0,
            },
        }
    }

    /// Whether the position stands at the accumulator value `accumulator`:
    /// nothing has accrued to it that is not yet in `pending_rewards`.
    pub open spec fn is_settled_at(self, accumulator: u128) -> bool {
        self.reward_debt == accumulator
    }

    /// The position after settlement at the accumulator value `accumulator`.
    ///
    /// A position with nothing staked only catches up with the accumulator. A
    /// position with a stake gets what it earned since its checkpoint added to
    /// `pending_rewards`. A checkpoint above the accumulator is refused, and so
    /// is a pending reward that does not fit 64 bits.
    pub open spec fn settled(self, accumulator: u128) -> Result<UserStake, VaultError> {
        if self.amount == 0 {
            Ok(UserStake { reward_debt: accumulator, ..self })
        } else if accumulator < self.reward_debt {
            Err(VaultError::ArithmeticUnderflow)
        } else if self.pending_rewards + earned(self.amount, accumulator, self.reward_debt)
            > u64::MAX {
            Err(VaultError::ArithmeticOverflow)
        } else {
            Ok(
                UserStake {
                    pending_rewards: (self.pending_rewards + earned(
                        self.amount,
                        accumulator,
                        self.reward_debt,
                    )) as u64,
                    reward_debt: accumulator,
                    ..self
                },
            )
        }
    }

    /// The position with nothing pending.
    pub open spec fn claimed(self) -> UserStake {
        UserStake { pending_rewards: 0, ..self }
    }

    /// Whether the position holds nothing any more, so that its record may be
    /// given up.
    pub open spec fn is_empty(self) -> bool {
        self.amount == 0 && self.pending_rewards == 0
    }

    /// Whether the position holds nothing any more: nothing staked and nothing
    /// pending. The record of such a position may be closed.
    pub fn can_close(&self) -> (empty: bool)
        ensures
            empty == self.is_empty(),
    {
        self.amount == 0 && self.pending_rewards == 0
    }
}

/// The vault and the position after the staked amount has changed by `delta`
/// at time `now`. A `delta` below zero takes from the position, and is refused
/// if it takes more than the position holds.
pub open spec fn amount_changed(vault: Vault, user: UserStake, delta: int, now: i64) -> Result<
    (Vault, UserStake),
    VaultError,
> {
    if user.amount + delta < 0 {
        Err(VaultError::InsufficientStake)
    } else if user.amount + delta > u64::MAX {
        Err(VaultError::ArithmeticOverflow)
    } else if vault.total_staked + delta < 0 {
        Err(VaultError::ArithmeticUnderflow)
    } else if vault.total_staked + delta > u64::MAX {
        Err(VaultError::ArithmeticOverflow)
    } else {
        Ok(
            (
                Vault { total_staked: (vault.total_staked + delta) as u64, ..vault },
                UserStake { amount: (user.amount + delta) as u64, last_update: now, ..user },
            ),
        )
    }
}

/// Settles a position against the vault's accumulator, which the caller has
/// brought up to date; see `UserStake::settled`. On an error the position is
/// left as it was.
pub fn harvest(user: &mut UserStake, vault: &Vault) -> (r: Result<(), VaultError>)
    ensures
        match old(user).settled(vault.acc_reward_per_share) {
            Ok(u) => r is Ok && *final(user) == u,
            Err(e) => r == Err::<(), VaultError>(e) && *final(user) == *old(user),
        },
{
    if user.amount == 0 {
        user.reward_debt = vault.acc_reward_per_share;
        return Ok(());
    }
    let growth: u128 = match vault.acc_reward_per_share.checked_sub(user.reward_debt) {
        Some(g) => g,
        None => {
            return Err(VaultError::ArithmeticUnderflow);
        },
    };
    let product: u128 = match (user.amount as u128).checked_mul(growth) {
        Some(p) => p,
        None => {
            proof {
                // A product beyond 128 bits is a reward beyond 64 bits.
                let p = (user.amount as int) * (growth as int);
                lemma_div_is_ordered(
                    0x1_0000_0000_0000_0000_0000_0000_0000_0000int,
                    p,
                    1_000_000_000_000int,
                );
            }
            return Err(VaultError::ArithmeticOverflow);
        },
    };
    let reward: u128 = product / Vault::SCALING;
    if reward > u64::MAX as u128 {
        return Err(VaultError::ArithmeticOverflow);
    }
    let pending: u64 = match user.pending_rewards.checked_add(reward as u64) {
        Some(p) => p,
        None => {
            return Err(VaultError::ArithmeticOverflow);
        },
    };
    user.pending_rewards = pending;
    user.reward_debt = vault.acc_reward_per_share;
    Ok(())
}

/// Changes the staked amount of a settled position by `delta` at time `now`,
/// and the vault's total with it; see `amount_changed`. The position must
/// have been settled against the vault's accumulator just before, so that the
/// new amount earns from here on only. On an error both are left as they were.
pub fn change_amount(user: &mut UserStake, vault: &mut Vault, delta: i128, now: i64) -> (r: Result<
    (),
    VaultError,
>)
    requires
        old(user).is_settled_at(old(vault).acc_reward_per_share),
    ensures
        match amount_changed(*old(vault), *old(user), delta as int, now) {
            Ok((v, u)) => r is Ok && *final(vault) == v && *final(user) == u,
            Err(e) => r == Err::<(), VaultError>(e) && *final(vault) == *old(vault) && *final(user)
                == *old(user),
        },
        final(user).is_settled_at(final(vault).acc_reward_per_share),
{
    let amount: i128 = match (user.amount as i128).checked_add(delta) {
        Some(a) => a,
        None => {
            return Err(VaultError::ArithmeticOverflow);
        },
    };
    if amount < 0 {
        return Err(VaultError::InsufficientStake);
    }
    if amount > u64::MAX as i128 {
        return Err(VaultError::ArithmeticOverflow);
    }
    let total: i128 = vault.total_staked as i128 + delta;
    if total < 0 {
        return Err(VaultError::ArithmeticUnderflow);
    }
    if total > u64::MAX as i128 {
        return Err(VaultError::ArithmeticOverflow);
    }
    user.amount = amount as u64;
    user.last_update = now;
    vault.total_staked = total as u64;
    Ok(())
}

/// Takes the pending reward out of a position: returns it and leaves nothing
/// pending. The caller pays it out, and keeps the position as it was if the
/// payment fails.
pub fn claim_all(user: &mut UserStake) -> (payout: u64)
    ensures
        payout == old(user).pending_rewards,
        *final(user) == old(user).claimed(),
{
    let payout = user.pending_rewards;
    user.pending_rewards = 0;
    payout
}

} // verus!
