//! A simpler scheme beside the vault: stake-time is scored as points, account
//! by account, with no shared accumulator; points can be turned into a payout
//! from a treasury.
//!
//! A stake of one whole unit (`LAMPORTS_PER_SOL` of the smallest unit) earns
//! `POINTS_PER_SOL_PER_DAY` points a day, and `POINTS_PER_SOL_PAYOUT` points
//! buy one whole unit out of the treasury. As with the vault, an operation
//! decides and the caller moves the funds; an operation that is refused
//! changes nothing.

use crate::pubkey::Pubkey;
use vstd::arithmetic::div_mod::lemma_div_is_ordered;
use vstd::prelude::*;

verus! {

/// Points that one whole staked unit earns in a day.
pub const POINTS_PER_SOL_PER_DAY: u64 = 100_000;

/// Points that buy one whole unit out of the treasury.
pub const POINTS_PER_SOL_PAYOUT: u64 = 10_000_000_000;

/// Seconds in a day.
pub const SECONDS_PER_DAY: u64 = 86_400;

/// Smallest units in one whole unit.
pub const LAMPORTS_PER_SOL: u64 = 1_000_000_000;

/// Why an operation of the points scheme was refused.
#[derive(Clone, Copy, Debug, PartialEq, Eq, Structural)]
pub enum StakeError {
    /// The signer does not own the account, or is not the treasury's
    /// administrator.
    Unauthorized,
    /// A sum or product does not fit its integer type.
    Overflow,
    /// A difference would be negative. No operation comes to this: each
    /// checks before it subtracts.
    Underflow,
    /// A division by zero. No operation comes to this: the divisors are
    /// constants.
    DivisionByZero,
    /// The clock reads earlier than the account's last update, or further from
    /// it than 64 bits hold.
    InvalidTimestamp,
    /// An amount that has to be positive was zero.
    InvalidAmount,
    /// An unstake asks for more than the account holds.
    InsufficientStake,
    /// There are no points to claim.
    NoPointsToClaim,
    /// The account has fewer points than are to be converted.
    InsufficientPoints,
    /// The points to convert do not buy one smallest unit.
    InsufficientPointsForPayout,
    /// The treasury cannot cover the payout.
    InsufficientTreasuryFunds,
    /// Conversions are paused.
    ConversionsPaused,
}

impl StakeError {
    /// The text shown to a user for this error.
    pub open spec fn message_spec(self) -> Seq<char> {
        match self {
            StakeError::Unauthorized => "Unauthorized access"@,
            StakeError::Overflow => "Arithmetic overflow"@,
            StakeError::Underflow => "Arithmetic underflow"@,
            StakeError::DivisionByZero => "Division by zero"@,
            StakeError::InvalidTimestamp => "Invalid timestamp"@,
            StakeError::InvalidAmount => "Amount must be greater than 0"@,
            StakeError::InsufficientStake => "Insufficient staked amount"@,
            StakeError::NoPointsToClaim => "No points available to claim"@,
            StakeError::InsufficientPoints => "Insufficient points"@,
            StakeError::InsufficientPointsForPayout => "Insufficient points for minimum payout"@,
            StakeError::InsufficientTreasuryFunds => "Treasury has insufficient funds"@,
            StakeError::ConversionsPaused => "Point conversions are temporarily paused"@,
        }
    }

    /// The text shown to a user for this error.
    pub fn message(&self) -> (text: String)
        ensures
            text@ == self.message_spec(),
    {
        match self {
            StakeError::Unauthorized => "Unauthorized access".to_string(),
            StakeError::Overflow => "Arithmetic overflow".to_string(),
            StakeError::Underflow => "Arithmetic underflow".to_string(),
            StakeError::DivisionByZero => "Division by zero".to_string(),
            StakeError::InvalidTimestamp => "Invalid timestamp".to_string(),
            StakeError::InvalidAmount => "Amount must be greater than 0".to_string(),
            StakeError::InsufficientStake => "Insufficient staked amount".to_string(),
            StakeError::NoPointsToClaim => "No points available to claim".to_string(),
            StakeError::InsufficientPoints => "Insufficient points".to_string(),
            StakeError::InsufficientPointsForPayout => "Insufficient points for minimum payout".to_string(),
            StakeError::InsufficientTreasuryFunds => "Treasury has insufficient funds".to_string(),
            StakeError::ConversionsPaused => "Point conversions are temporarily paused".to_string(),
        }
    }
}

/// One participant's staking account.
#[derive(Clone, Copy, Debug, PartialEq, Eq)]
pub struct StakeAccount {
    /// The participant who owns the account.
    pub owner: Pubkey,
    /// The amount staked at present.
    pub staked_amount: u64,
    /// The points earned and not yet claimed or converted.
    pub total_points: u64,
    /// Time up to which points have been counted.
    pub last_update_time: i64,
    /// Bump seed of the account's address.
    pub bump: u8,
}

/// The treasury that payouts come from.
#[derive(Clone, Copy, Debug, PartialEq, Eq)]
pub struct Treasury {
    /// The administrator: who may fund the treasury and pause conversions.
    pub admin: Pubkey,
    /// All that was ever put in.
    pub total_funded: u64,
    /// All that was ever paid out.
    pub total_paid_out: u64,
    /// Bump seed of the treasury's address.
    pub bump: u8,
    /// Whether conversions are paused.
    pub paused: bool,
}

/// The points that `staked_amount` earns in `elapsed` seconds, rounded down
/// first to whole-unit-seconds and then to days.
pub open spec fn points_earned(staked_amount: u64, elapsed: int) -> int {
    (staked_amount as int) * elapsed * (POINTS_PER_SOL_PER_DAY as int) / (LAMPORTS_PER_SOL as int)
        / (SECONDS_PER_DAY as int)
}

/// The points that `staked_amount` earns in `time_elapsed_seconds`; see
/// `points_earned`. Refused with `Overflow` exactly if they do not fit 64 bits.
pub fn calculate_points_earned(staked_amount: u64, time_elapsed_seconds: u64) -> (r: Result<
    u64,
    StakeError,
>)
    ensures
        r == (if points_earned(staked_amount, time_elapsed_seconds as int) > u64::MAX {
            Err::<u64, StakeError>(StakeError::Overflow)
        } else {
            Ok::<u64, StakeError>(points_earned(staked_amount, time_elapsed_seconds as int) as u64)
        }),
{
    let staked: u128 = staked_amount as u128;
    let elapsed: u128 = time_elapsed_seconds as u128;
    assert(staked * elapsed <= 0xffff_ffff_ffff_ffff * 0xffff_ffff_ffff_ffff) by (nonlinear_arith)
        requires
            staked <= 0xffff_ffff_ffff_ffff,
            elapsed <= 0xffff_ffff_ffff_ffff,
    ;
    let weighted: u128 = staked * elapsed;
    let scored: u128 = match weighted.checked_mul(POINTS_PER_SOL_PER_DAY as u128) {
        Some(s) => s,
        None => {
            proof {
                // A product beyond 128 bits is a score beyond 64 bits.
                let p = (staked_amount as int) * (time_elapsed_seconds as int) * 100_000;
                lemma_div_is_ordered(
                    0x1_0000_0000_0000_0000_0000_0000_0000_0000int,
                    p,
                    1_000_000_000int,
                );
                lemma_div_is_ordered(
                    0x1_0000_0000_0000_0000_0000_0000_0000_0000int / 1_000_000_000int,
                    p / 1_000_000_000int,
                    86_400int,
                );
            }
            return Err(StakeError::Overflow);
        },
    };
    let points: u128 = scored / (LAMPORTS_PER_SOL as u128) / (SECONDS_PER_DAY as u128);
    if points > u64::MAX as u128 {
        return Err(StakeError::Overflow);
    }
    Ok(points as u64)
}

impl StakeAccount {
    /// The account's points at time `now`: those it has, and those earned
    /// since its last update. Refused with `InvalidTimestamp` if `now` is
    /// before the last update, or further from it than 64 bits hold, and with
    /// `Overflow` if the points do not fit 64 bits.
    pub open spec fn points_at(self, now: i64) -> Result<u64, StakeError> {
        if now - self.last_update_time < 0 || now - self.last_update_time > i64::MAX {
            Err(StakeError::InvalidTimestamp)
        } else if self.total_points + points_earned(
            self.staked_amount,
            now - self.last_update_time,
        ) > u64::MAX {
            Err(StakeError::Overflow)
        } else {
            Ok(
                (self.total_points + points_earned(
                    self.staked_amount,
                    now - self.last_update_time,
                )) as u64,
            )
        }
    }

    /// The account with its points counted up to `now`.
    pub open spec fn updated(self, now: i64) -> Result<StakeAccount, StakeError> {
        match self.points_at(now) {
            Ok(points) => Ok(StakeAccount { total_points: points, last_update_time: now, ..self }),
            Err(e) => Err(e),
        }
    }

    /// The account's points at time `now`; see `points_at`. They are never
    /// fewer than the account has.
    pub fn current_points(&self, now: i64) -> (r: Result<u64, StakeError>)
        ensures
            r == self.points_at(now),
            r matches Ok(points) ==> points >= self.total_points,
    {
        let elapsed: i64 = match now.checked_sub(self.last_update_time) {
            Some(e) => e,
            None => {
                return Err(StakeError::InvalidTimestamp);
            },
        };
        if elapsed < 0 {
            return Err(StakeError::InvalidTimestamp);
        }
        let earned: u64 = if self.staked_amount > 0 && elapsed > 0 {
            match calculate_points_earned(self.staked_amount, elapsed as u64) {
                Ok(p) => p,
                Err(e) => {
                    return Err(e);
                },
            }
        } else {
            assert(points_earned(self.staked_amount, elapsed as int) == 0) by {
                if self.staked_amount == 0 {
                    assert(0 * (elapsed as int) == 0);
                } else {
                    assert((self.staked_amount as int) * 0 == 0);
                }
            }
            0
        };
        match self.total_points.checked_add(earned) {
            Some(p) => Ok(p),
            None => Err(StakeError::Overflow),
        }
    }
}

/// Counts the account's points up to `current_time`; see
/// `StakeAccount::updated`. On an error the account is left as it was. The
/// points never become fewer.
pub fn update_points(pda_account: &mut StakeAccount, current_time: i64) -> (r: Result<
    (),
    StakeError,
>)
    ensures
        match old(pda_account).updated(current_time) {
            Ok(a) => r is Ok && *final(pda_account) == a,
            Err(e) => r == Err::<(), StakeError>(e) && *final(pda_account) == *old(pda_account),
        },
        final(pda_account).total_points >= old(pda_account).total_points,
{
    let points = match pda_account.current_points(current_time) {
        Ok(p) => p,
        Err(e) => {
            return Err(e);
        },
    };
    pda_account.total_points = points;
    pda_account.last_update_time = current_time;
    Ok(())
}

/// The accounts of the creation of the treasury.
#[derive(Clone, Copy, Debug, PartialEq, Eq)]
pub struct InitializeTreasury {
    /// Who creates the treasury and becomes its administrator.
    pub admin: Pubkey,
    /// Bump seed of the treasury's address.
    pub bump: u8,
}

/// Creates the treasury: nothing funded, nothing paid out, conversions open.
pub fn initialize_treasury(ctx: &InitializeTreasury) -> (treasury: Treasury)
    ensures
        treasury == (Treasury {
            admin: ctx.admin,
            total_funded: 0,
            total_paid_out: 0,
            bump: ctx.bump,
            paused: false,
        }),
{
    Treasury { admin: ctx.admin, total_funded: 0, total_paid_out: 0, bump: ctx.bump, paused: false }
}

/// The accounts of a funding of the treasury.
#[derive(Clone, Copy, Debug, PartialEq, Eq)]
pub struct FundTreasury {
    /// The signer.
    pub admin: Pubkey,
    /// The treasury.
    pub treasury: Treasury,
}

/// What a funding with `amount` comes to: `Unauthorized` if the signer is not
/// the treasury's administrator, then `InvalidAmount` if the amount is zero,
/// then `Overflow` if the sum of all fundings does not fit 64 bits, and else
/// the treasury with `amount` more funded.
pub open spec fn funded(ctx: FundTreasury, amount: u64) -> Result<Treasury, StakeError> {
    if ctx.treasury.admin != ctx.admin {
        Err(StakeError::Unauthorized)
    } else if amount == 0 {
        Err(StakeError::InvalidAmount)
    } else if ctx.treasury.total_funded + amount > u64::MAX {
        Err(StakeError::Overflow)
    } else {
        Ok(Treasury { total_funded: (ctx.treasury.total_funded + amount) as u64, ..ctx.treasury })
    }
}

/// Books a funding of the treasury with `amount`; see `funded`. The caller
/// moves the amount from the administrator to the treasury.
pub fn fund_treasury(ctx: &mut FundTreasury, amount: u64) -> (r: Result<(), StakeError>)
    ensures
        match funded(*old(ctx), amount) {
            Ok(t) => r is Ok && *final(ctx) == (FundTreasury { treasury: t, ..*old(ctx) }),
            Err(e) => r == Err::<(), StakeError>(e) && *final(ctx) == *old(ctx),
        },
{
    if !(ctx.treasury.admin == ctx.admin) {
        return Err(StakeError::Unauthorized);
    }
    if amount == 0 {
        return Err(StakeError::InvalidAmount);
    }
    let total = match ctx.treasury.total_funded.checked_add(amount) {
        Some(t) => t,
        None => {
            return Err(StakeError::Overflow);
        },
    };
    ctx.treasury.total_funded = total;
    Ok(())
}

/// The accounts of the creation of a staking account.
#[derive(Clone, Copy, Debug, PartialEq, Eq)]
pub struct CreatePdaAccount {
    /// Who creates the account and owns it.
    pub payer: Pubkey,
    /// Bump seed of the account's address.
    pub bump: u8,
}

/// Creates a staking account at time `now`: nothing staked, no points, the
/// count of points starting at `now`.
pub fn create_pda_account(ctx: &CreatePdaAccount, now: i64) -> (account: StakeAccount)
    ensures
        account == (StakeAccount {
            owner: ctx.payer,
            staked_amount: 0,
            total_points: 0,
            last_update_time: now,
            bump: ctx.bump,
        }),
{
    StakeAccount {
        owner: ctx.payer,
        staked_amount: 0,
        total_points: 0,
        last_update_time: now,
        bump: ctx.bump,
    }
}

/// The accounts of a stake.
#[derive(Clone, Copy, Debug, PartialEq, Eq)]
pub struct Stake {
    /// The signer.
    pub user: Pubkey,
    /// The staking account.
    pub pda_account: StakeAccount,
}

/// What a stake of `amount` at time `now` comes to: `Unauthorized` if the
/// signer does not own the account, then `InvalidAmount` if the amount is
/// zero, then what the count of points up to `now` is refused for, then
/// `Overflow` if the stake does not fit 64 bits, and else the account with its
/// points counted and `amount` more staked.
pub open spec fn staked(ctx: Stake, amount: u64, now: i64) -> Result<StakeAccount, StakeError> {
    if ctx.pda_account.owner != ctx.user {
        Err(StakeError::Unauthorized)
    } else if amount == 0 {
        Err(StakeError::InvalidAmount)
    } else {
        match ctx.pda_account.updated(now) {
            Err(e) => Err(e),
            Ok(a) => if a.staked_amount + amount > u64::MAX {
                Err(StakeError::Overflow)
            } else {
                Ok(StakeAccount { staked_amount: (a.staked_amount + amount) as u64, ..a })
            },
        }
    }
}

/// Stakes `amount` at time `now`; see `staked`. The caller moves the amount
/// from the participant to the account.
pub fn stake(ctx: &mut Stake, amount: u64, now: i64) -> (r: Result<(), StakeError>)
    ensures
        match staked(*old(ctx), amount, now) {
            Ok(a) => r is Ok && *final(ctx) == (Stake { pda_account: a, ..*old(ctx) }),
            Err(e) => r == Err::<(), StakeError>(e) && *final(ctx) == *old(ctx),
        },
{
    if !(ctx.pda_account.owner == ctx.user) {
        return Err(StakeError::Unauthorized);
    }
    if amount == 0 {
        return Err(StakeError::InvalidAmount);
    }
    let mut account = ctx.pda_account;
    match update_points(&mut account, now) {
        Err(e) => {
            return Err(e);
        },
        Ok(()) => {},
    }
    let total = match account.staked_amount.checked_add(amount) {
        Some(t) => t,
        None => {
            return Err(StakeError::Overflow);
        },
    };
    account.staked_amount = total;
    ctx.pda_account = account;
    Ok(())
}

/// The accounts of an unstake.
#[derive(Clone, Copy, Debug, PartialEq, Eq)]
pub struct Unstake {
    /// The signer.
    pub user: Pubkey,
    /// The staking account.
    pub pda_account: StakeAccount,
}

/// What an unstake of `amount` at time `now` comes to: `Unauthorized` if the
/// signer does not own the account, then `InvalidAmount` if the amount is
/// zero, then `InsufficientStake` if the account holds less, then what the
/// count of points up to `now` is refused for, and else the account with its
/// points counted and `amount` less staked.
pub open spec fn unstaked(ctx: Unstake, amount: u64, now: i64) -> Result<StakeAccount, StakeError> {
    if ctx.pda_account.owner != ctx.user {
        Err(StakeError::Unauthorized)
    } else if amount == 0 {
        Err(StakeError::InvalidAmount)
    } else if ctx.pda_account.staked_amount < amount {
        Err(StakeError::InsufficientStake)
    } else {
        match ctx.pda_account.updated(now) {
            Err(e) => Err(e),
            Ok(a) => Ok(StakeAccount { staked_amount: (a.staked_amount - amount) as u64, ..a }),
        }
    }
}

/// Unstakes `amount` at time `now`; see `unstaked`. The caller moves the
/// amount from the account to the participant.
pub fn unstake(ctx: &mut Unstake, amount: u64, now: i64) -> (r: Result<(), StakeError>)
    ensures
        match unstaked(*old(ctx), amount, now) {
            Ok(a) => r is Ok && *final(ctx) == (Unstake { pda_account: a, ..*old(ctx) }),
            Err(e) => r == Err::<(), StakeError>(e) && *final(ctx) == *old(ctx),
        },
{
    if !(ctx.pda_account.owner == ctx.user) {
        return Err(StakeError::Unauthorized);
    }
    if amount == 0 {
        return Err(StakeError::InvalidAmount);
    }
    if ctx.pda_account.staked_amount < amount {
        return Err(StakeError::InsufficientStake);
    }
    let mut account = ctx.pda_account;
    match update_points(&mut account, now) {
        Err(e) => {
            return Err(e);
        },
        Ok(()) => {},
    }
    account.staked_amount = account.staked_amount - amount;
    ctx.pda_account = account;
    Ok(())
}

/// The accounts of a claim of points.
#[derive(Clone, Copy, Debug, PartialEq, Eq)]
pub struct ClaimPoints {
    /// The signer.
    pub user: Pubkey,
    /// The staking account.
    pub pda_account: StakeAccount,
}

/// What a claim at time `now` comes to: `Unauthorized` if the signer does not
/// own the account, then what the count of points up to `now` is refused for,
/// then `NoPointsToClaim` if there are none, and else the account with no
/// points left, and the points that it had.
pub open spec fn points_claimed(ctx: ClaimPoints, now: i64) -> Result<
    (StakeAccount, u64),
    StakeError,
> {
    if ctx.pda_account.owner != ctx.user {
        Err(StakeError::Unauthorized)
    } else {
        match ctx.pda_account.updated(now) {
            Err(e) => Err(e),
            Ok(a) => if a.total_points == 0 {
                Err(StakeError::NoPointsToClaim)
            } else {
                Ok((StakeAccount { total_points: 0, ..a }, a.total_points))
            },
        }
    }
}

/// Claims at time `now` all points of the account, and returns them; see
/// `points_claimed`.
pub fn claim_points(ctx: &mut ClaimPoints, now: i64) -> (r: Result<u64, StakeError>)
    ensures
        match points_claimed(*old(ctx), now) {
            Ok((a, points)) => r == Ok::<u64, StakeError>(points) && *final(ctx) == (ClaimPoints {
                pda_account: a,
                ..*old(ctx)
            }),
            Err(e) => r == Err::<u64, StakeError>(e) && *final(ctx) == *old(ctx),
        },
{
    if !(ctx.pda_account.owner == ctx.user) {
        return Err(StakeError::Unauthorized);
    }
    let mut account = ctx.pda_account;
    match update_points(&mut account, now) {
        Err(e) => {
            return Err(e);
        },
        Ok(()) => {},
    }
    let claimable = account.total_points;
    if claimable == 0 {
        return Err(StakeError::NoPointsToClaim);
    }
    account.total_points = 0;
    ctx.pda_account = account;
    Ok(claimable)
}

/// What of a treasury's balance may be paid out: what is above the balance
/// that its account has to keep, and nothing if it is below.
pub open spec fn available(balance: u64, rent_exemption: u64) -> u64 {
    if balance >= rent_exemption {
        (balance - rent_exemption) as u64
    } else {
        0
    }
}

/// What of a treasury's balance may be paid out; see `available`.
pub fn available_balance(balance: u64, rent_exemption: u64) -> (free: u64)
    ensures
        free == available(balance, rent_exemption),
{
    match balance.checked_sub(rent_exemption) {
        Some(free) => free,
        None => 0,
    }
}

/// The payout that `points` buy, in smallest units, rounded down.
pub open spec fn payout_for(points: u64) -> int {
    (points as int) * (LAMPORTS_PER_SOL as int) / (POINTS_PER_SOL_PAYOUT as int)
}

/// The accounts of a conversion of points.
#[derive(Clone, Copy, Debug, PartialEq, Eq)]
pub struct ConvertPointsToSol {
    /// The signer.
    pub user: Pubkey,
    /// The staking account.
    pub pda_account: StakeAccount,
    /// The treasury.
    pub treasury: Treasury,
    /// The balance of the treasury's account.
    pub treasury_lamports: u64,
    /// The balance that the treasury's account has to keep.
    pub rent_exemption: u64,
}

/// What a conversion of `points_to_convert` at time `now` comes to. Refused,
/// in this order: with `Unauthorized` if the signer does not own the account;
/// with `InvalidAmount` if no points are to be converted; with
/// `ConversionsPaused` if the treasury is paused; for what the count of points
/// up to `now` is refused for; with `InsufficientPoints` if the account has
/// fewer points; with `Overflow` if the points times `LAMPORTS_PER_SOL` do not
/// fit 64 bits; with `InsufficientPointsForPayout` if the payout is zero; with
/// `InsufficientTreasuryFunds` if the treasury cannot spare the payout; with
/// `Overflow` if the sum of all payouts does not fit 64 bits. Else the account
/// with its points counted and the converted ones taken, the treasury with the
/// payout booked, and the payout.
pub open spec fn converted(ctx: ConvertPointsToSol, points_to_convert: u64, now: i64) -> Result<
    (StakeAccount, Treasury, u64),
    StakeError,
> {
    if ctx.pda_account.owner != ctx.user {
        Err(StakeError::Unauthorized)
    } else if points_to_convert == 0 {
        Err(StakeError::InvalidAmount)
    } else if ctx.treasury.paused {
        Err(StakeError::ConversionsPaused)
    } else {
        match ctx.pda_account.updated(now) {
            Err(e) => Err(e),
            Ok(a) => if a.total_points < points_to_convert {
                Err(StakeError::InsufficientPoints)
            } else if points_to_convert * LAMPORTS_PER_SOL > u64::MAX {
                Err(StakeError::Overflow)
            } else if payout_for(points_to_convert) == 0 {
                Err(StakeError::InsufficientPointsForPayout)
            } else if available(ctx.treasury_lamports, ctx.rent_exemption) < payout_for(
                points_to_convert,
            ) {
                Err(StakeError::InsufficientTreasuryFunds)
            } else if ctx.treasury.total_paid_out + payout_for(points_to_convert) > u64::MAX {
                Err(StakeError::Overflow)
            } else {
                Ok(
                    (
                        StakeAccount {
                            total_points: (a.total_points - points_to_convert) as u64,
                            ..a
                        },
                        Treasury {
                            total_paid_out: (ctx.treasury.total_paid_out + payout_for(
                                points_to_convert,
                            )) as u64,
                            ..ctx.treasury
                        },
                        payout_for(points_to_convert) as u64,
                    ),
                )
            },
        }
    }
}

/// Converts `points_to_convert` points into a payout at time `now`, and
/// returns the payout; see `converted`. The caller moves the payout from the
/// treasury to the participant. The payout is never more than the treasury can
/// spare.
pub fn convert_points_to_sol(ctx: &mut ConvertPointsToSol, points_to_convert: u64, now: i64) -> (r:
    Result<u64, StakeError>)
    ensures
        match converted(*old(ctx), points_to_convert, now) {
            Ok((a, t, payout)) => r == Ok::<u64, StakeError>(payout) && *final(ctx) == (
            ConvertPointsToSol { pda_account: a, treasury: t, ..*old(ctx) }),
            Err(e) => r == Err::<u64, StakeError>(e) && *final(ctx) == *old(ctx),
        },
        r matches Ok(payout) ==> 0 < payout <= available(
            old(ctx).treasury_lamports,
            old(ctx).rent_exemption,
        ),
{
    if !(ctx.pda_account.owner == ctx.user) {
        return Err(StakeError::Unauthorized);
    }
    if points_to_convert == 0 {
        return Err(StakeError::InvalidAmount);
    }
    if ctx.treasury.paused {
        return Err(StakeError::ConversionsPaused);
    }
    let mut account = ctx.pda_account;
    match update_points(&mut account, now) {
        Err(e) => {
            return Err(e);
        },
        Ok(()) => {},
    }
    if account.total_points < points_to_convert {
        return Err(StakeError::InsufficientPoints);
    }
    let scaled = match points_to_convert.checked_mul(LAMPORTS_PER_SOL) {
        Some(s) => s,
        None => {
            return Err(StakeError::Overflow);
        },
    };
    let payout = scaled / POINTS_PER_SOL_PAYOUT;
    if payout == 0 {
        return Err(StakeError::InsufficientPointsForPayout);
    }
    if available_balance(ctx.treasury_lamports, ctx.rent_exemption) < payout {
        return Err(StakeError::InsufficientTreasuryFunds);
    }
    let paid = match ctx.treasury.total_paid_out.checked_add(payout) {
        Some(p) => p,
        None => {
            return Err(StakeError::Overflow);
        },
    };
    account.total_points = account.total_points - points_to_convert;
    ctx.pda_account = account;
    ctx.treasury.total_paid_out = paid;
    Ok(payout)
}

/// The accounts of a look at an account's points.
#[derive(Clone, Copy, Debug, PartialEq, Eq)]
pub struct GetPoints {
    /// The signer.
    pub user: Pubkey,
    /// The staking account.
    pub pda_account: StakeAccount,
}

/// The points that the account would have if they were counted up to `now`:
/// refused with `Unauthorized` if the signer does not own the account, and
/// else as `StakeAccount::points_at` says. The account is not changed.
pub fn get_points(ctx: &GetPoints, now: i64) -> (r: Result<u64, StakeError>)
    ensures
        r == (if ctx.pda_account.owner != ctx.user {
            Err::<u64, StakeError>(StakeError::Unauthorized)
        } else {
            ctx.pda_account.points_at(now)
        }),
{
    if !(ctx.pda_account.owner == ctx.user) {
        return Err(StakeError::Unauthorized);
    }
    ctx.pda_account.current_points(now)
}

/// The accounts of a look at the treasury.
#[derive(Clone, Copy, Debug, PartialEq, Eq)]
pub struct GetTreasuryInfo {
    /// The treasury.
    pub treasury: Treasury,
    /// The balance of the treasury's account.
    pub treasury_lamports: u64,
    /// The balance that the treasury's account has to keep.
    pub rent_exemption: u64,
}

/// The figures of a treasury.
#[derive(Clone, Copy, Debug, PartialEq, Eq)]
pub struct TreasuryInfo {
    /// The balance of the treasury's account.
    pub balance: u64,
    /// What of the balance may be paid out.
    pub available_balance: u64,
    /// All that was ever put in.
    pub total_funded: u64,
    /// All that was ever paid out.
    pub total_paid_out: u64,
}

/// The figures of the treasury: its balance, what of it may be paid out, and
/// the totals booked.
pub fn get_treasury_info(ctx: &GetTreasuryInfo) -> (info: TreasuryInfo)
    ensures
        info == (TreasuryInfo {
            balance: ctx.treasury_lamports,
            available_balance: available(ctx.treasury_lamports, ctx.rent_exemption),
            total_funded: ctx.treasury.total_funded,
            total_paid_out: ctx.treasury.total_paid_out,
        }),
{
    TreasuryInfo {
        balance: ctx.treasury_lamports,
        available_balance: available_balance(ctx.treasury_lamports, ctx.rent_exemption),
        total_funded: ctx.treasury.total_funded,
        total_paid_out: ctx.treasury.total_paid_out,
    }
}

/// The accounts of an operation that is the administrator's alone.
#[derive(Clone, Copy, Debug, PartialEq, Eq)]
pub struct AdminOnly {
    /// The signer.
    pub admin: Pubkey,
    /// The treasury.
    pub treasury: Treasury,
}

/// Pauses conversions: refused with `Unauthorized` exactly if the signer is
/// not the treasury's administrator.
pub fn pause_conversions(ctx: &mut AdminOnly) -> (r: Result<(), StakeError>)
    ensures
        old(ctx).treasury.admin == old(ctx).admin ==> r is Ok && *final(ctx) == (AdminOnly {
            treasury: Treasury { paused: true, ..old(ctx).treasury },
            ..*old(ctx)
        }),
        old(ctx).treasury.admin != old(ctx).admin ==> r == Err::<(), StakeError>(
            StakeError::Unauthorized,
        ) && *final(ctx) == *old(ctx),
{
    if !(ctx.treasury.admin == ctx.admin) {
        return Err(StakeError::Unauthorized);
    }
    ctx.treasury.paused = true;
    Ok(())
}

/// Opens conversions again: refused with `Unauthorized` exactly if the signer
/// is not the treasury's administrator.
pub fn unpause_conversions(ctx: &mut AdminOnly) -> (r: Result<(), StakeError>)
    ensures
        old(ctx).treasury.admin == old(ctx).admin ==> r is Ok && *final(ctx) == (AdminOnly {
            treasury: Treasury { paused: false, ..old(ctx).treasury },
            ..*old(ctx)
        }),
        old(ctx).treasury.admin != old(ctx).admin ==> r == Err::<(), StakeError>(
            StakeError::Unauthorized,
        ) && *final(ctx) == *old(ctx),
{
    if !(ctx.treasury.admin == ctx.admin) {
        return Err(StakeError::Unauthorized);
    }
    ctx.treasury.paused = false;
    Ok(())
}

} // verus!
