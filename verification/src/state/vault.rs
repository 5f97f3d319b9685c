//! The vault record: the reward accumulator and the withdrawal lock.

use crate::errors::VaultError;
use crate::pubkey::Pubkey;
use vstd::prelude::*;

verus! {

/// One staking vault: a collateral account, a reward pool, and the state of
/// the reward accrual.
#[derive(Clone, Copy, Debug, PartialEq, Eq)]
pub struct Vault {
    /// The administrator: who may lock, unlock and fund rewards.
    pub authority: Pubkey,
    /// The custodial account that holds the collateral.
    pub token_account: Pubkey,
    /// Bump seed of the vault's own address.
    pub bump: u8,
    /// Bump seed of the address that signs for the vault's custodial accounts.
    pub authority_bump: u8,
    /// Whether withdrawals are closed.
    pub is_locked: bool,
    /// When a locked vault may be unlocked; 0 while unlocked.
    pub unlock_timestamp: i64,
    /// Sum of the staked amounts of all positions of this vault.
    pub total_staked: u64,
    /// The asset that rewards are paid in.
    pub reward_mint: Pubkey,
    /// The custodial account that holds the reward pool.
    pub reward_vault: Pubkey,
    /// Reward units emitted per second, shared among all stakers.
    pub reward_rate_per_second: u64,
    /// Reward per staked unit since the vault was created, times `SCALING`.
    pub acc_reward_per_share: u128,
    /// Time of the last accrual.
    pub last_reward_ts: i64,
}

impl Vault {
    /// Fixed-point scale of `acc_reward_per_share`.
    pub const SCALING: u128 = 1_000_000_000_000;

    /// The reward emitted between the last accrual and `now`, times `SCALING`.
    pub open spec fn scaled_reward(self, now: i64) -> int {
        (now - self.last_reward_ts) * (self.reward_rate_per_second as int) * (Vault::SCALING as int)
    }

    /// By how much the accumulator grows when the accrual is brought up to
    /// `now`: the scaled reward per staked unit, rounded down.
    pub open spec fn increment(self, now: i64) -> int {
        self.scaled_reward(now) / (self.total_staked as int)
    }

    /// The vault after the accrual has been brought up to `now`.
    ///
    /// While nothing is staked, only the clock is set, to `now` whatever it
    /// was: nothing is added to the accumulator, and what would have been
    /// emitted is not kept for later. With a stake, a clock that went back is
    /// refused, an unchanged clock changes nothing, and otherwise the
    /// accumulator grows by `increment(now)`, unless the scaled reward or the
    /// new accumulator does not fit 128 bits.
    pub open spec fn advanced(self, now: i64) -> Result<Vault, VaultError> {
        if self.total_staked == 0 {
            Ok(Vault { last_reward_ts: now, ..self })
        } else if now < self.last_reward_ts {
            Err(VaultError::ClockRegression)
        } else if now == self.last_reward_ts {
            Ok(self)
        } else if self.scaled_reward(now) > u128::MAX {
            Err(VaultError::ArithmeticOverflow)
        } else if self.acc_reward_per_share + self.increment(now) > u128::MAX {
            Err(VaultError::ArithmeticOverflow)
        } else {
            Ok(
                Vault {
                    acc_reward_per_share: (self.acc_reward_per_share + self.increment(now)) as u128,
                    last_reward_ts: now,
                    ..self
                },
            )
        }
    }

    /// Brings the accrual up to `now`; see `advanced`. On an error the vault
    /// is left as it was.
    pub fn update_rewards(&mut self, now: i64) -> (r: Result<(), VaultError>)
        ensures
            match old(self).advanced(now) {
                Ok(v) => r is Ok && *final(self) == v,
                Err(e) => r == Err::<(), VaultError>(e) && *final(self) == *old(self),
            },
            final(self).acc_reward_per_share >= old(self).acc_reward_per_share,
    {
        if self.total_staked == 0 {
            self.last_reward_ts = now;
            return Ok(());
        }
        if now < self.last_reward_ts {
            return Err(VaultError::ClockRegression);
        }
        if now == self.last_reward_ts {
            return Ok(());
        }
        let dt: u128 = (now as i128 - self.last_reward_ts as i128) as u128;
        let rate: u128 = self.reward_rate_per_second as u128;
        assert(dt * rate <= 0xffff_ffff_ffff_ffff * 0xffff_ffff_ffff_ffff) by (nonlinear_arith)
            requires
                dt <= 0xffff_ffff_ffff_ffff,
                rate <= 0xffff_ffff_ffff_ffff,
        ;
        let reward: u128 = dt * rate;
        let scaled: u128 = match reward.checked_mul(Vault::SCALING) {
            Some(s) => s,
            None => {
                return Err(VaultError::ArithmeticOverflow);
            },
        };
        let inc: u128 = scaled / (self.total_staked as u128);
        let acc: u128 = match self.acc_reward_per_share.checked_add(inc) {
            Some(a) => a,
            None => {
                return Err(VaultError::ArithmeticOverflow);
            },
        };
        self.acc_reward_per_share = acc;
        self.last_reward_ts = now;
        Ok(())
    }

    /// The vault with withdrawals closed until `until`.
    pub open spec fn locked(self, until: i64) -> Vault {
        Vault { is_locked: true, unlock_timestamp: until, ..self }
    }

    /// Closes withdrawals until `until`. A vault that is locked already is
    /// locked anew, with the new time. That the administrator asks for it is
    /// for the caller to establish, as `lock_vault` does.
    pub fn lock(&mut self, until: i64)
        ensures
            *final(self) == old(self).locked(until),
    {
        self.is_locked = true;
        self.unlock_timestamp = until;
    }

    /// The vault with withdrawals open again.
    pub open spec fn unlocked(self) -> Vault {
        Vault { is_locked: false, unlock_timestamp: 0, ..self }
    }

    /// What an unlock at time `now` comes to: `VaultLocked` if `now` is before
    /// the unlock time, and else the vault with withdrawals open.
    pub open spec fn unlocked_at(self, now: i64) -> Result<Vault, VaultError> {
        if now < self.unlock_timestamp {
            Err(VaultError::VaultLocked)
        } else {
            Ok(self.unlocked())
        }
    }

    /// Opens withdrawals again, once the unlock time has come; see
    /// `unlocked_at`. On an error the vault is left as it was. That the
    /// administrator asks for it is for the caller to establish, as
    /// `unlock_vault` does.
    pub fn unlock(&mut self, now: i64) -> (r: Result<(), VaultError>)
        ensures
            match old(self).unlocked_at(now) {
                Ok(v) => r is Ok && *final(self) == v,
                Err(e) => r == Err::<(), VaultError>(e) && *final(self) == *old(self),
            },
    {
        if now < self.unlock_timestamp {
            return Err(VaultError::VaultLocked);
        }
        self.is_locked = false;
        self.unlock_timestamp = 0;
        Ok(())
    }

    /// Whether collateral may be withdrawn: refused with `VaultLocked` exactly
    /// if the vault is locked.
    pub fn require_withdrawable(&self) -> (r: Result<(), VaultError>)
        ensures
            r == (if self.is_locked {
                Err::<(), VaultError>(VaultError::VaultLocked)
            } else {
                Ok::<(), VaultError>(())
            }),
    {
        if self.is_locked {
            Err(VaultError::VaultLocked)
        } else {
            Ok(())
        }
    }
}

/// The scale is small enough: with a rate of up to 10^12 units per second and
/// up to 10^14 seconds between two accruals, the scaled reward fits 128 bits.
pub proof fn lemma_scaled_reward_fits(vault: Vault, now: i64)
    requires
        vault.reward_rate_per_second <= 1_000_000_000_000,
        0 <= now - vault.last_reward_ts <= 100_000_000_000_000,
    ensures
        0 <= vault.scaled_reward(now) <= u128::MAX,
{
    let dt = now - vault.last_reward_ts;
    let rate = vault.reward_rate_per_second as int;
    assert(0 <= dt * rate <= 100_000_000_000_000 * 1_000_000_000_000) by (nonlinear_arith)
        requires
            0 <= dt <= 100_000_000_000_000,
            0 <= rate <= 1_000_000_000_000,
    ;
}

/// The scale is large enough: while no more than 10^12 units are staked, any
/// emission at all makes the accumulator grow.
pub proof fn lemma_increment_is_positive(vault: Vault, now: i64)
    requires
        0 < vault.total_staked <= 1_000_000_000_000,
        vault.reward_rate_per_second > 0,
        now > vault.last_reward_ts,
    ensures
        vault.increment(now) >= 1,
{
    let dt = now - vault.last_reward_ts;
    let rate = vault.reward_rate_per_second as int;
    let total = vault.total_staked as int;
    assert(dt * rate >= 1) by (nonlinear_arith)
        requires
            dt >= 1,
            rate >= 1,
    ;
    assert(dt * rate * 1_000_000_000_000 >= total) by (nonlinear_arith)
        requires
            dt * rate >= 1,
            total <= 1_000_000_000_000,
    ;
    assert(vault.scaled_reward(now) / total >= 1) by (nonlinear_arith)
        requires
            vault.scaled_reward(now) >= total,
            total > 0,
    ;
}

} // verus!
