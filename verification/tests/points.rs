use token_vault::points::{
    available_balance, calculate_points_earned, claim_points, convert_points_to_sol,
    create_pda_account, fund_treasury, get_points, get_treasury_info, initialize_treasury,
    pause_conversions, stake, unpause_conversions, unstake, update_points, AdminOnly, ClaimPoints,
    ConvertPointsToSol, CreatePdaAccount, FundTreasury, GetPoints, GetTreasuryInfo,
    InitializeTreasury, Stake, StakeAccount, StakeError, Treasury, TreasuryInfo, Unstake,
    LAMPORTS_PER_SOL, POINTS_PER_SOL_PAYOUT, POINTS_PER_SOL_PER_DAY, SECONDS_PER_DAY,
};
use token_vault::pubkey::Pubkey;

fn key(tag: u8) -> Pubkey {
    Pubkey::new_from_array([tag; 32])
}

const ADMIN: u8 = 1;
const USER: u8 = 2;
const OTHER: u8 = 3;
const DAY: i64 = 86_400;
const SOL: u64 = 1_000_000_000;

fn account(staked_amount: u64, total_points: u64, last_update_time: i64) -> StakeAccount {
    StakeAccount { owner: key(USER), staked_amount, total_points, last_update_time, bump: 9 }
}

fn treasury(total_funded: u64, total_paid_out: u64, paused: bool) -> Treasury {
    Treasury { admin: key(ADMIN), total_funded, total_paid_out, bump: 8, paused }
}

fn conversion(points: u64, lamports: u64, rent: u64) -> ConvertPointsToSol {
    ConvertPointsToSol {
        user: key(USER),
        pda_account: account(0, points, 0),
        treasury: treasury(0, 0, false),
        treasury_lamports: lamports,
        rent_exemption: rent,
    }
}

#[test]
fn the_constants_are_what_they_are() {
    assert_eq!(POINTS_PER_SOL_PER_DAY, 100_000);
    assert_eq!(POINTS_PER_SOL_PAYOUT, 10_000_000_000);
    assert_eq!(SECONDS_PER_DAY, 86_400);
    assert_eq!(LAMPORTS_PER_SOL, 1_000_000_000);
}

#[test]
fn one_whole_unit_earns_its_points_in_a_day() {
    assert_eq!(calculate_points_earned(SOL, 86_400), Ok(100_000));
    assert_eq!(calculate_points_earned(SOL / 2, 43_200), Ok(25_000));
    assert_eq!(calculate_points_earned(3 * SOL, 2 * 86_400), Ok(600_000));
}

#[test]
fn points_are_rounded_down() {
    assert_eq!(calculate_points_earned(1, 1), Ok(0));
    assert_eq!(calculate_points_earned(10_000, 86_400), Ok(1));
    assert_eq!(calculate_points_earned(10_000, 86_399), Ok(0));
    assert_eq!(calculate_points_earned(0, 86_400), Ok(0));
    assert_eq!(calculate_points_earned(SOL, 0), Ok(0));
    // 19_999 * 86_400 * 10^5 / 10^9 = 172_791.36, and 172_791 / 86_400 = 1.
    assert_eq!(calculate_points_earned(19_999, 86_400), Ok(1));
}

#[test]
fn points_beyond_64_bits_are_refused() {
    assert_eq!(calculate_points_earned(u64::MAX, u64::MAX), Err(StakeError::Overflow));
    assert_eq!(calculate_points_earned(u64::MAX, 1_000_000_000), Err(StakeError::Overflow));
    assert_eq!(calculate_points_earned(u64::MAX, 864_000_000), Ok(u64::MAX));
    assert_eq!(calculate_points_earned(u64::MAX, 864_000_001), Err(StakeError::Overflow));
}

#[test]
fn update_counts_the_points_up_to_now() {
    let mut a = account(SOL, 7, 100);
    assert_eq!(update_points(&mut a, 100 + DAY), Ok(()));
    assert_eq!(a, account(SOL, 100_007, 100 + DAY));
    assert_eq!(update_points(&mut a, 100 + DAY), Ok(()));
    assert_eq!(a, account(SOL, 100_007, 100 + DAY));
}

#[test]
fn update_of_an_empty_account_moves_only_the_clock() {
    let mut a = account(0, 7, 100);
    assert_eq!(update_points(&mut a, 100 + DAY), Ok(()));
    assert_eq!(a, account(0, 7, 100 + DAY));
}

#[test]
fn update_refuses_a_clock_that_went_back() {
    let mut a = account(SOL, 7, 100);
    assert_eq!(update_points(&mut a, 99), Err(StakeError::InvalidTimestamp));
    assert_eq!(a, account(SOL, 7, 100));
    let mut a = account(0, 7, 100);
    assert_eq!(update_points(&mut a, 99), Err(StakeError::InvalidTimestamp));
    assert_eq!(a, account(0, 7, 100));
}

#[test]
fn update_refuses_a_span_beyond_64_bits() {
    let mut a = account(0, 7, -1);
    assert_eq!(update_points(&mut a, i64::MAX), Err(StakeError::InvalidTimestamp));
    assert_eq!(a, account(0, 7, -1));
    let mut a = account(0, 7, 0);
    assert_eq!(update_points(&mut a, i64::MAX), Ok(()));
    assert_eq!(a, account(0, 7, i64::MAX));
}

#[test]
fn update_refuses_points_beyond_64_bits() {
    let mut a = account(SOL, u64::MAX - 99_999, 0);
    assert_eq!(update_points(&mut a, DAY), Err(StakeError::Overflow));
    assert_eq!(a, account(SOL, u64::MAX - 99_999, 0));
    let mut a = account(SOL, u64::MAX - 100_000, 0);
    assert_eq!(update_points(&mut a, DAY), Ok(()));
    assert_eq!(a.total_points, u64::MAX);
    let mut a = account(u64::MAX, 0, 0);
    assert_eq!(update_points(&mut a, 864_000_001), Err(StakeError::Overflow));
}

#[test]
fn treasury_starts_empty_and_open() {
    let t = initialize_treasury(&InitializeTreasury { admin: key(ADMIN), bump: 8 });
    assert_eq!(t, treasury(0, 0, false));
}

#[test]
fn funding_is_booked() {
    let mut ctx = FundTreasury { admin: key(ADMIN), treasury: treasury(5, 1, false) };
    assert_eq!(fund_treasury(&mut ctx, 10), Ok(()));
    assert_eq!(ctx.treasury, treasury(15, 1, false));
}

#[test]
fn funding_is_refused() {
    let good = FundTreasury { admin: key(ADMIN), treasury: treasury(5, 1, false) };
    let mut ctx = good;
    assert_eq!(fund_treasury(&mut ctx, 0), Err(StakeError::InvalidAmount));
    assert_eq!(ctx, good);
    let mut ctx = FundTreasury { admin: key(OTHER), ..good };
    assert_eq!(fund_treasury(&mut ctx, 10), Err(StakeError::Unauthorized));
    assert_eq!(fund_treasury(&mut ctx, 0), Err(StakeError::Unauthorized));
    assert_eq!(ctx, FundTreasury { admin: key(OTHER), ..good });
    let mut ctx = FundTreasury { admin: key(ADMIN), treasury: treasury(u64::MAX, 0, false) };
    assert_eq!(fund_treasury(&mut ctx, 1), Err(StakeError::Overflow));
    assert_eq!(ctx.treasury, treasury(u64::MAX, 0, false));
}

#[test]
fn an_account_starts_empty_at_its_time() {
    let a = create_pda_account(&CreatePdaAccount { payer: key(USER), bump: 9 }, 1234);
    assert_eq!(a, account(0, 0, 1234));
}

#[test]
fn stake_counts_the_points_first() {
    let mut ctx = Stake { user: key(USER), pda_account: account(SOL, 0, 0) };
    assert_eq!(stake(&mut ctx, SOL, DAY), Ok(()));
    assert_eq!(ctx.pda_account, account(2 * SOL, 100_000, DAY));
    assert_eq!(stake(&mut ctx, 1, 2 * DAY), Ok(()));
    assert_eq!(ctx.pda_account, account(2 * SOL + 1, 300_000, 2 * DAY));
}

#[test]
fn stake_is_refused() {
    let good = Stake { user: key(USER), pda_account: account(SOL, 0, 100) };
    let mut ctx = good;
    assert_eq!(stake(&mut ctx, 0, 200), Err(StakeError::InvalidAmount));
    assert_eq!(ctx, good);
    assert_eq!(stake(&mut ctx, 1, 99), Err(StakeError::InvalidTimestamp));
    assert_eq!(ctx, good);
    assert_eq!(stake(&mut ctx, u64::MAX, 200), Err(StakeError::Overflow));
    assert_eq!(ctx, good);
    let mut ctx = Stake { user: key(OTHER), ..good };
    assert_eq!(stake(&mut ctx, 1, 200), Err(StakeError::Unauthorized));
    assert_eq!(stake(&mut ctx, 0, 200), Err(StakeError::Unauthorized));
    assert_eq!(ctx, Stake { user: key(OTHER), ..good });
}

#[test]
fn unstake_counts_the_points_first() {
    let mut ctx = Unstake { user: key(USER), pda_account: account(2 * SOL, 5, 0) };
    assert_eq!(unstake(&mut ctx, SOL, DAY), Ok(()));
    assert_eq!(ctx.pda_account, account(SOL, 200_005, DAY));
    assert_eq!(unstake(&mut ctx, SOL, 2 * DAY), Ok(()));
    assert_eq!(ctx.pda_account, account(0, 300_005, 2 * DAY));
}

#[test]
fn unstake_is_refused() {
    let good = Unstake { user: key(USER), pda_account: account(SOL, 0, 100) };
    let mut ctx = good;
    assert_eq!(unstake(&mut ctx, 0, 200), Err(StakeError::InvalidAmount));
    assert_eq!(unstake(&mut ctx, SOL + 1, 200), Err(StakeError::InsufficientStake));
    assert_eq!(unstake(&mut ctx, SOL + 1, 99), Err(StakeError::InsufficientStake));
    assert_eq!(unstake(&mut ctx, SOL, 99), Err(StakeError::InvalidTimestamp));
    assert_eq!(ctx, good);
    let mut ctx = Unstake { user: key(OTHER), ..good };
    assert_eq!(unstake(&mut ctx, 1, 200), Err(StakeError::Unauthorized));
    assert_eq!(unstake(&mut ctx, 0, 200), Err(StakeError::Unauthorized));
    assert_eq!(ctx, Unstake { user: key(OTHER), ..good });
}

#[test]
fn claim_takes_all_points() {
    let mut ctx = ClaimPoints { user: key(USER), pda_account: account(SOL, 5, 0) };
    assert_eq!(claim_points(&mut ctx, DAY), Ok(100_005));
    assert_eq!(ctx.pda_account, account(SOL, 0, DAY));
    let before = ctx;
    assert_eq!(claim_points(&mut ctx, DAY), Err(StakeError::NoPointsToClaim));
    assert_eq!(ctx, before);
    assert_eq!(claim_points(&mut ctx, DAY - 1), Err(StakeError::InvalidTimestamp));
    assert_eq!(ctx, before);
    let mut ctx = ClaimPoints { user: key(OTHER), pda_account: account(SOL, 5, 0) };
    assert_eq!(claim_points(&mut ctx, DAY), Err(StakeError::Unauthorized));
    assert_eq!(ctx.pda_account, account(SOL, 5, 0));
}

#[test]
fn what_may_be_paid_out_is_what_is_above_the_rent() {
    assert_eq!(available_balance(100, 30), 70);
    assert_eq!(available_balance(30, 30), 0);
    assert_eq!(available_balance(29, 30), 0);
    assert_eq!(available_balance(u64::MAX, 0), u64::MAX);
}

#[test]
fn conversion_pays_a_tenth_of_a_smallest_unit_per_point() {
    let mut ctx = conversion(POINTS_PER_SOL_PAYOUT + 25, 3 * SOL, SOL);
    ctx.pda_account.staked_amount = SOL;
    // A day goes by: 100_000 more points.
    assert_eq!(convert_points_to_sol(&mut ctx, POINTS_PER_SOL_PAYOUT, DAY), Ok(SOL));
    assert_eq!(ctx.pda_account, account(SOL, 100_025, DAY));
    assert_eq!(ctx.treasury, treasury(0, SOL, false));
    assert_eq!(ctx.treasury_lamports, 3 * SOL);
    assert_eq!(convert_points_to_sol(&mut ctx, 19, DAY), Ok(1));
    assert_eq!(ctx.pda_account, account(SOL, 100_006, DAY));
    assert_eq!(ctx.treasury, treasury(0, SOL + 1, false));
}

#[test]
fn conversion_is_refused() {
    let good = conversion(1_000, 100, 40);
    let mut ctx = good;
    assert_eq!(convert_points_to_sol(&mut ctx, 0, 0), Err(StakeError::InvalidAmount));
    assert_eq!(convert_points_to_sol(&mut ctx, 10, -1), Err(StakeError::InvalidTimestamp));
    assert_eq!(convert_points_to_sol(&mut ctx, 1_001, 0), Err(StakeError::InsufficientPoints));
    assert_eq!(
        convert_points_to_sol(&mut ctx, 9, 0),
        Err(StakeError::InsufficientPointsForPayout)
    );
    assert_eq!(
        convert_points_to_sol(&mut ctx, 610, 0),
        Err(StakeError::InsufficientTreasuryFunds)
    );
    assert_eq!(ctx, good);
    assert_eq!(convert_points_to_sol(&mut ctx, 600, 0), Ok(60));
    assert_eq!(ctx.pda_account.total_points, 400);

    let mut ctx = ConvertPointsToSol { user: key(OTHER), ..good };
    assert_eq!(convert_points_to_sol(&mut ctx, 10, 0), Err(StakeError::Unauthorized));
    assert_eq!(convert_points_to_sol(&mut ctx, 0, 0), Err(StakeError::Unauthorized));

    let mut ctx = ConvertPointsToSol { treasury: treasury(0, 0, true), ..good };
    assert_eq!(convert_points_to_sol(&mut ctx, 10, 0), Err(StakeError::ConversionsPaused));
    assert_eq!(convert_points_to_sol(&mut ctx, 0, 0), Err(StakeError::InvalidAmount));
    assert_eq!(convert_points_to_sol(&mut ctx, 5_000, -1), Err(StakeError::ConversionsPaused));

    let mut ctx = ConvertPointsToSol { rent_exemption: 200, ..good };
    assert_eq!(
        convert_points_to_sol(&mut ctx, 10, 0),
        Err(StakeError::InsufficientTreasuryFunds)
    );

    let mut ctx = ConvertPointsToSol { treasury: treasury(0, u64::MAX, false), ..good };
    assert_eq!(convert_points_to_sol(&mut ctx, 10, 0), Err(StakeError::Overflow));
    assert_eq!(ctx, ConvertPointsToSol { treasury: treasury(0, u64::MAX, false), ..good });
}

#[test]
fn conversion_refuses_points_whose_product_does_not_fit() {
    let mut ctx = conversion(u64::MAX, u64::MAX, 0);
    let before = ctx;
    assert_eq!(convert_points_to_sol(&mut ctx, 18_446_744_074, 0), Err(StakeError::Overflow));
    assert_eq!(ctx, before);
    assert_eq!(convert_points_to_sol(&mut ctx, 18_446_744_073, 0), Ok(1_844_674_407));
}

#[test]
fn a_look_at_the_points_changes_nothing() {
    let ctx = GetPoints { user: key(USER), pda_account: account(SOL, 5, 0) };
    assert_eq!(get_points(&ctx, DAY), Ok(100_005));
    assert_eq!(get_points(&ctx, 0), Ok(5));
    assert_eq!(get_points(&ctx, -1), Err(StakeError::InvalidTimestamp));
    assert_eq!(ctx.pda_account, account(SOL, 5, 0));
    assert_eq!(
        get_points(&GetPoints { user: key(OTHER), ..ctx }, DAY),
        Err(StakeError::Unauthorized)
    );
    let full = GetPoints { user: key(USER), pda_account: account(SOL, u64::MAX, 0) };
    assert_eq!(get_points(&full, DAY), Err(StakeError::Overflow));
    assert_eq!(get_points(&full, 0), Ok(u64::MAX));
}

#[test]
fn a_look_at_the_treasury_gives_its_figures() {
    let ctx = GetTreasuryInfo {
        treasury: treasury(500, 200, false),
        treasury_lamports: 340,
        rent_exemption: 40,
    };
    assert_eq!(
        get_treasury_info(&ctx),
        TreasuryInfo { balance: 340, available_balance: 300, total_funded: 500, total_paid_out: 200 }
    );
    let ctx = GetTreasuryInfo { rent_exemption: 400, ..ctx };
    assert_eq!(get_treasury_info(&ctx).available_balance, 0);
}

#[test]
fn conversions_are_paused_and_opened_by_the_administrator() {
    let mut ctx = AdminOnly { admin: key(ADMIN), treasury: treasury(5, 6, false) };
    assert_eq!(pause_conversions(&mut ctx), Ok(()));
    assert_eq!(ctx.treasury, treasury(5, 6, true));
    assert_eq!(pause_conversions(&mut ctx), Ok(()));
    assert_eq!(ctx.treasury, treasury(5, 6, true));
    assert_eq!(unpause_conversions(&mut ctx), Ok(()));
    assert_eq!(ctx.treasury, treasury(5, 6, false));

    let mut ctx = AdminOnly { admin: key(OTHER), treasury: treasury(5, 6, false) };
    assert_eq!(pause_conversions(&mut ctx), Err(StakeError::Unauthorized));
    assert_eq!(ctx.treasury, treasury(5, 6, false));
    ctx.treasury.paused = true;
    assert_eq!(unpause_conversions(&mut ctx), Err(StakeError::Unauthorized));
    assert_eq!(ctx.treasury, treasury(5, 6, true));
}

#[test]
fn each_points_error_has_its_message() {
    assert_eq!(StakeError::Unauthorized.message(), "Unauthorized access");
    assert_eq!(StakeError::Overflow.message(), "Arithmetic overflow");
    assert_eq!(StakeError::Underflow.message(), "Arithmetic underflow");
    assert_eq!(StakeError::DivisionByZero.message(), "Division by zero");
    assert_eq!(StakeError::InvalidTimestamp.message(), "Invalid timestamp");
    assert_eq!(StakeError::InvalidAmount.message(), "Amount must be greater than 0");
    assert_eq!(StakeError::InsufficientStake.message(), "Insufficient staked amount");
    assert_eq!(StakeError::NoPointsToClaim.message(), "No points available to claim");
    assert_eq!(StakeError::InsufficientPoints.message(), "Insufficient points");
    assert_eq!(
        StakeError::InsufficientPointsForPayout.message(),
        "Insufficient points for minimum payout"
    );
    assert_eq!(
        StakeError::InsufficientTreasuryFunds.message(),
        "Treasury has insufficient funds"
    );
    assert_eq!(
        StakeError::ConversionsPaused.message(),
        "Point conversions are temporarily paused"
    );
}
