//! A vault together with all its positions, and what holds of them whatever
//! operations come in whatever order.
//!
//! No operation ever needs all positions of a vault at once; this model is
//! here to state what the operations keep true of them all.

use crate::errors::VaultError;
use crate::instructions::claim::claimed;
use crate::instructions::initialize::{initial_vault, InitializeVault};
use crate::instructions::stake::staked;
use crate::instructions::unstake::unstaked;
use crate::pubkey::Pubkey;
use crate::state::user_stake::{earned, UserStake};
use crate::state::vault::Vault;
use vstd::prelude::*;

verus! {

/// A vault and all its positions.
pub struct Pool {
    pub vault: Vault,
    pub positions: Seq<UserStake>,
}

/// A change to a vault or to one of its positions. Deposits, withdrawals and
/// the funding of rewards are no such changes: they touch neither.
pub enum Event {
    /// A participant's position is looked up, and created with nothing in it
    /// if there is none yet.
    Open { staker: Pubkey, bump: u8 },
    /// The owner of the position at index `position` stakes.
    Stake { position: int, amount: u64, now: i64 },
    /// The owner of the position at index `position` unstakes.
    Unstake { position: int, amount: u64, now: i64 },
    /// The owner of the position at index `position` claims, while the reward
    /// pool holds `pool_balance`.
    Claim { position: int, pool_balance: u64, now: i64 },
    /// The record of the position at index `position` is given up, which it
    /// may be once nothing is staked and nothing is pending.
    Close { position: int },
    /// The administrator locks the vault.
    Lock { until: i64 },
    /// The administrator unlocks the vault.
    Unlock { now: i64 },
}

/// The sum of the staked amounts of `positions`.
pub open spec fn staked_sum(positions: Seq<UserStake>) -> int
    decreases positions.len(),
{
    if positions.len() == 0 {
        0
    } else {
        staked_sum(positions.drop_last()) + positions.last().amount
    }
}

impl Pool {
    /// The pool of a vault that has just been created: no positions yet.
    pub open spec fn created(vault: Vault) -> Pool {
        Pool { vault, positions: Seq::empty() }
    }

    /// Whether the vault's total is the sum of what its positions hold.
    pub open spec fn conserved(self) -> bool {
        staked_sum(self.positions) == self.vault.total_staked
    }

    /// Whether `staker` has a position in the pool.
    pub open spec fn has_position_of(self, staker: Pubkey) -> bool {
        exists|i: int| 0 <= i < self.positions.len() && (#[trigger] self.positions[i]).staker == staker
    }

    /// Whether every participant has one position at most.
    pub open spec fn owners_distinct(self) -> bool {
        forall|i: int, j: int|
            0 <= i < j < self.positions.len() ==> (#[trigger] self.positions[i]).staker != (
            #[trigger] self.positions[j]).staker
    }

    /// The pool with `vault` and with `user` in place of the position at
    /// index `position`.
    pub open spec fn with(self, vault: Vault, position: int, user: UserStake) -> Pool {
        Pool { vault, positions: self.positions.update(position, user) }
    }

    /// The pool after `event`. An operation that is refused, or that names a
    /// position that is not there, leaves the pool as it is.
    pub open spec fn after(self, event: Event) -> Pool {
        match event {
            Event::Open { staker, bump } => if self.has_position_of(staker) {
                self
            } else {
                Pool { positions: self.positions.push(UserStake::fresh(staker, bump)), ..self }
            },
            Event::Stake { position, amount, now } => if 0 <= position < self.positions.len() {
                match staked(self.vault, self.positions[position], amount, now) {
                    Ok((v, u)) => self.with(v, position, u),
                    Err(_) => self,
                }
            } else {
                self
            },
            Event::Unstake { position, amount, now } => if 0 <= position < self.positions.len() {
                match unstaked(self.vault, self.positions[position], amount, now) {
                    Ok((v, u)) => self.with(v, position, u),
                    Err(_) => self,
                }
            } else {
                self
            },
            Event::Claim { position, pool_balance, now } => if 0 <= position
                < self.positions.len() {
                match claimed(self.vault, self.positions[position], pool_balance, now) {
                    Ok((v, u, _)) => self.with(v, position, u),
                    Err(_) => self,
                }
            } else {
                self
            },
            Event::Close { position } => if 0 <= position < self.positions.len()
                && self.positions[position].is_empty() {
                Pool { positions: self.positions.remove(position), ..self }
            } else {
                self
            },
            Event::Lock { until } => Pool { vault: self.vault.locked(until), ..self },
            Event::Unlock { now } => match self.vault.unlocked_at(now) {
                Ok(v) => Pool { vault: v, ..self },
                Err(_) => self,
            },
        }
    }

    /// The pool after all of `events`, in their order.
    pub open spec fn after_all(self, events: Seq<Event>) -> Pool
        decreases events.len(),
    {
        if events.len() == 0 {
            self
        } else {
            self.after_all(events.drop_last()).after(events.last())
        }
    }
}

proof fn lemma_staked_sum_update(positions: Seq<UserStake>, i: int, user: UserStake)
    requires
        0 <= i < positions.len(),
    ensures
        staked_sum(positions.update(i, user)) == staked_sum(positions) - positions[i].amount
            + user.amount,
    decreases positions.len(),
{
    let updated = positions.update(i, user);
    if i == positions.len() - 1 {
        assert(updated.drop_last() =~= positions.drop_last());
    } else {
        assert(updated.drop_last() =~= positions.drop_last().update(i, user));
        lemma_staked_sum_update(positions.drop_last(), i, user);
    }
}

proof fn lemma_staked_sum_remove(positions: Seq<UserStake>, i: int)
    requires
        0 <= i < positions.len(),
    ensures
        staked_sum(positions.remove(i)) == staked_sum(positions) - positions[i].amount,
    decreases positions.len(),
{
    let removed = positions.remove(i);
    if i == positions.len() - 1 {
        assert(removed =~= positions.drop_last());
    } else {
        assert(removed.drop_last() =~= positions.drop_last().remove(i));
        lemma_staked_sum_remove(positions.drop_last(), i);
    }
}

/// Conservation, one step: an event keeps the vault's total equal to the sum
/// of what its positions hold.
pub proof fn lemma_event_conserves(pool: Pool, event: Event)
    requires
        pool.conserved(),
    ensures
        pool.after(event).conserved(),
{
    match event {
        Event::Open { staker, bump } => {
            let fresh = UserStake::fresh(staker, bump);
            assert(pool.positions.push(fresh).drop_last() =~= pool.positions);
        },
        Event::Stake { position, amount, now } => {
            if 0 <= position < pool.positions.len() {
                if let Ok((v, u)) = staked(pool.vault, pool.positions[position], amount, now) {
                    lemma_staked_sum_update(pool.positions, position, u);
                }
            }
        },
        Event::Unstake { position, amount, now } => {
            if 0 <= position < pool.positions.len() {
                if let Ok((v, u)) = unstaked(pool.vault, pool.positions[position], amount, now) {
                    lemma_staked_sum_update(pool.positions, position, u);
                }
            }
        },
        Event::Claim { position, pool_balance, now } => {
            if 0 <= position < pool.positions.len() {
                if let Ok((v, u, _)) = claimed(
                    pool.vault,
                    pool.positions[position],
                    pool_balance,
                    now,
                ) {
                    lemma_staked_sum_update(pool.positions, position, u);
                }
            }
        },
        Event::Close { position } => {
            if 0 <= position < pool.positions.len() {
                lemma_staked_sum_remove(pool.positions, position);
            }
        },
        Event::Lock { until } => {},
        Event::Unlock { now } => {},
    }
}

/// Conservation: from the creation of a vault on, and after any events in any
/// order, the vault's total is the sum of what its positions hold.
pub proof fn lemma_conservation(pool: Pool, events: Seq<Event>)
    requires
        pool.conserved(),
    ensures
        pool.after_all(events).conserved(),
    decreases events.len(),
{
    if events.len() > 0 {
        lemma_conservation(pool, events.drop_last());
        lemma_event_conserves(pool.after_all(events.drop_last()), events.last());
    }
}

/// One position each, one step: an event leaves every participant with one
/// position at most, and while no record is given up, no position changes
/// hands.
pub proof fn lemma_event_keeps_owners(pool: Pool, event: Event)
    requires
        pool.owners_distinct(),
    ensures
        pool.after(event).owners_distinct(),
        event !is Close ==> forall|i: int|
            0 <= i < pool.positions.len() ==> (#[trigger] pool.after(event).positions[i]).staker
                == pool.positions[i].staker,
{
    if let Event::Close { position } = event {
        if 0 <= position < pool.positions.len() && pool.positions[position].is_empty() {
            let before = pool.positions;
            let after = before.remove(position);
            assert forall|i: int, j: int| 0 <= i < j < after.len() implies (#[trigger] after[i]).staker
                != (#[trigger] after[j]).staker by {
                let i0 = if i < position {
                    i
                } else {
                    i + 1
                };
                let j0 = if j < position {
                    j
                } else {
                    j + 1
                };
                assert(after[i] == before[i0]);
                assert(after[j] == before[j0]);
            }
        }
    }
}

/// One position each: after any events in any order every participant has
/// one position at most.
pub proof fn lemma_owners_stay_distinct(pool: Pool, events: Seq<Event>)
    requires
        pool.owners_distinct(),
    ensures
        pool.after_all(events).owners_distinct(),
    decreases events.len(),
{
    if events.len() > 0 {
        lemma_owners_stay_distinct(pool, events.drop_last());
        lemma_event_keeps_owners(pool.after_all(events.drop_last()), events.last());
    }
}

/// Conservation holds of a vault that has just been created.
pub proof fn lemma_created_pool_is_conserved(
    ctx: InitializeVault,
    authority_bump: u8,
    reward_rate_per_second: u64,
    now: i64,
)
    ensures
        Pool::created(initial_vault(ctx, authority_bump, reward_rate_per_second, now)).conserved(),
{
}

/// The accumulator never decreases when the accrual is brought up to date.
pub proof fn lemma_advance_is_monotone(vault: Vault, now: i64)
    ensures
        vault.advanced(now) matches Ok(v) ==> v.acc_reward_per_share
            >= vault.acc_reward_per_share,
{
    if vault.total_staked > 0 && now > vault.last_reward_ts {
        let dt = now - vault.last_reward_ts;
        let rate = vault.reward_rate_per_second as int;
        let total = vault.total_staked as int;
        assert(dt * rate * 1_000_000_000_000 >= 0) by (nonlinear_arith)
            requires
                dt >= 0,
                rate >= 0,
        ;
        assert(vault.scaled_reward(now) / total >= 0) by (nonlinear_arith)
            requires
                vault.scaled_reward(now) >= 0,
                total > 0,
        ;
    }
}

/// Accumulator monotonicity, one step: no event makes the accumulator smaller.
pub proof fn lemma_event_keeps_accumulator(pool: Pool, event: Event)
    ensures
        pool.after(event).vault.acc_reward_per_share >= pool.vault.acc_reward_per_share,
{
    match event {
        Event::Open { staker, bump } => {},
        Event::Stake { position, amount, now } => {
            lemma_advance_is_monotone(pool.vault, now);
        },
        Event::Unstake { position, amount, now } => {
            lemma_advance_is_monotone(pool.vault, now);
        },
        Event::Claim { position, pool_balance, now } => {
            lemma_advance_is_monotone(pool.vault, now);
        },
        Event::Close { position } => {},
        Event::Lock { until } => {},
        Event::Unlock { now } => {},
    }
}

/// Accumulator monotonicity: after any events in any order the accumulator is
/// at least what it was.
pub proof fn lemma_accumulator_monotone(pool: Pool, events: Seq<Event>)
    ensures
        pool.after_all(events).vault.acc_reward_per_share >= pool.vault.acc_reward_per_share,
    decreases events.len(),
{
    if events.len() > 0 {
        lemma_accumulator_monotone(pool, events.drop_last());
        lemma_event_keeps_accumulator(pool.after_all(events.drop_last()), events.last());
    }
}

/// No retroactive reward, at settlement: a position with nothing staked earns
/// nothing, however far the accumulator has grown past its checkpoint; it only
/// catches up.
pub proof fn lemma_empty_position_earns_nothing(user: UserStake, accumulator: u128)
    requires
        user.amount == 0,
    ensures
        user.settled(accumulator) == Ok::<UserStake, VaultError>(
            UserStake { reward_debt: accumulator, ..user },
        ),
{
}

/// No retroactive reward, through a stake: a position that had nothing staked
/// and then stakes `amount` earns, up to a later settlement, for the growth of
/// the accumulator since that stake and for nothing before it, whatever its
/// checkpoint was.
pub proof fn lemma_no_retroactive_reward(
    vault: Vault,
    user: UserStake,
    amount: u64,
    now: i64,
    later: u128,
)
    requires
        user.amount == 0,
        staked(vault, user, amount, now) is Ok,
    ensures
        ({
            let (v, u) = staked(vault, user, amount, now).unwrap();
            &&& u.pending_rewards == user.pending_rewards
            &&& u.amount == amount
            &&& u.is_settled_at(v.acc_reward_per_share)
            &&& u.settled(v.acc_reward_per_share) == Ok::<UserStake, VaultError>(u)
            &&& u.settled(later) matches Ok(w) ==> w.pending_rewards == user.pending_rewards
                + earned(amount, later, v.acc_reward_per_share)
        }),
{
    let (v, u) = staked(vault, user, amount, now).unwrap();
    lemma_settle_is_idempotent(u, v.acc_reward_per_share);
    assert(earned(amount, v.acc_reward_per_share, v.acc_reward_per_share) == 0) by {
        assert((amount as int) * 0 == 0);
    }
}

/// Settle idempotence: a second settlement at the same accumulator value
/// changes nothing.
pub proof fn lemma_settle_is_idempotent(user: UserStake, accumulator: u128)
    ensures
        user.settled(accumulator) matches Ok(u) ==> u.settled(accumulator) == Ok::<
            UserStake,
            VaultError,
        >(u),
{
    if let Ok(u) = user.settled(accumulator) {
        assert(earned(u.amount, accumulator, accumulator) == 0) by {
            assert((u.amount as int) * 0 == 0);
        }
    }
}

/// A second accrual at the same time changes nothing.
pub proof fn lemma_advance_is_idempotent(vault: Vault, now: i64)
    ensures
        vault.advanced(now) matches Ok(v) ==> v.advanced(now) == Ok::<Vault, VaultError>(v),
{
}

/// Solvency on claim: a claim that succeeds pays out something, and no more
/// than the reward pool holds.
pub proof fn lemma_claim_is_covered(vault: Vault, user: UserStake, pool_balance: u64, now: i64)
    ensures
        claimed(vault, user, pool_balance, now) matches Ok((_, _, payout)) ==> 0 < payout
            <= pool_balance,
{
}

/// What all of `positions` together earn while the accumulator grows by
/// `growth`, each rounded down by itself.
pub open spec fn earned_sum(positions: Seq<UserStake>, growth: int) -> int
    decreases positions.len(),
{
    if positions.len() == 0 {
        0
    } else {
        earned_sum(positions.drop_last(), growth) + (positions.last().amount as int) * growth / (
        Vault::SCALING as int)
    }
}

proof fn lemma_floor_of_sum(x: int, y: int, d: int)
    by (nonlinear_arith)
    requires
        d > 0,
    ensures
        x / d + y / d <= (x + y) / d,
{
}

proof fn lemma_earned_sum_bound(positions: Seq<UserStake>, growth: int)
    requires
        growth >= 0,
    ensures
        earned_sum(positions, growth) <= staked_sum(positions) * growth / (Vault::SCALING as int),
    decreases positions.len(),
{
    if positions.len() == 0 {
        assert(staked_sum(positions) * growth == 0) by (nonlinear_arith)
            requires
                staked_sum(positions) == 0,
        ;
    } else {
        let front = positions.drop_last();
        let a = positions.last().amount as int;
        lemma_earned_sum_bound(front, growth);
        lemma_floor_of_sum(staked_sum(front) * growth, a * growth, Vault::SCALING as int);
        assert(staked_sum(front) * growth + a * growth == (staked_sum(front) + a) * growth)
            by (nonlinear_arith);
    }
}

/// Rounding favours the pool: what all positions of a vault together earn
/// from one accrual is never more than what was emitted in that time.
pub proof fn lemma_accrual_never_overpays(pool: Pool, now: i64)
    requires
        pool.conserved(),
        pool.vault.total_staked > 0,
        pool.vault.advanced(now) is Ok,
    ensures
        earned_sum(
            pool.positions,
            pool.vault.advanced(now).unwrap().acc_reward_per_share
                - pool.vault.acc_reward_per_share,
        ) <= (now - pool.vault.last_reward_ts) * pool.vault.reward_rate_per_second,
{
    let vault = pool.vault;
    let total = vault.total_staked as int;
    let emitted = (now - vault.last_reward_ts) * vault.reward_rate_per_second;
    let scale = Vault::SCALING as int;
    let growth = vault.advanced(now).unwrap().acc_reward_per_share - vault.acc_reward_per_share;
    assert(emitted >= 0) by (nonlinear_arith)
        requires
            emitted == (now - vault.last_reward_ts) * vault.reward_rate_per_second,
            now - vault.last_reward_ts >= 0,
            vault.reward_rate_per_second >= 0,
    ;
    if now == vault.last_reward_ts {
        assert(growth == 0);
    } else {
        assert(growth == (emitted * scale) / total);
    }
    assert(0 <= growth && total * growth <= emitted * scale) by (nonlinear_arith)
        requires
            total > 0,
            emitted >= 0,
            scale > 0,
            growth == 0 || growth == (emitted * scale) / total,
    ;
    lemma_earned_sum_bound(pool.positions, growth);
    assert(total * growth / scale <= emitted) by (nonlinear_arith)
        requires
            total * growth <= emitted * scale,
            scale > 0,
    ;
}

} // verus!
