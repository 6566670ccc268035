use helium_sub_daos::ErrorCode;
use helium_sub_daos::Lockup;
use helium_sub_daos::LockupKind;
use helium_sub_daos::OrArithError;
use helium_sub_daos::PurgeOutcome;
use helium_sub_daos::StakePositionV0;
use helium_sub_daos::SubDaoV0;
use helium_sub_daos::VotingMintConfig;
use helium_sub_daos::calculate_voting_power;
use helium_sub_daos::create_cron;
use helium_sub_daos::current_epoch;
use helium_sub_daos::i64_to_dec_string;
use helium_sub_daos::month_name;
use helium_sub_daos::next_epoch_ts;
use helium_sub_daos::process;
use helium_sub_daos::u64_to_dec_string;
use helium_sub_daos::update_subdao_vehnt;
use helium_sub_daos::MAX_VALID_UNIX_TS;
use helium_sub_daos::MIN_VALID_UNIX_TS;

fn pool(staked: u64, rate: u64, ts: i64) -> SubDaoV0 {
    SubDaoV0 { vehnt_staked: staked, vehnt_fall_rate: rate, vehnt_last_calculated_ts: ts }
}

fn position(fall_rate: u64, purged: bool) -> StakePositionV0 {
    StakePositionV0 { deposit_entry_idx: 0, fall_rate, purged }
}

fn cliff(end_ts: i64) -> Lockup {
    Lockup { kind: LockupKind::Cliff, start_ts: 0, end_ts }
}

#[test]
fn roll_forward_example() {
    let mut sub_dao = pool(1000, 10, 0);
    assert_eq!(update_subdao_vehnt(&mut sub_dao, 50), Ok(()));
    assert_eq!(sub_dao.vehnt_staked, 500);
    assert_eq!(sub_dao.vehnt_last_calculated_ts, 50);
    assert_eq!(sub_dao.vehnt_fall_rate, 10);
}

#[test]
fn roll_forward_idempotent_at_fixed_time() {
    let mut sub_dao = pool(1000, 10, 0);
    assert_eq!(update_subdao_vehnt(&mut sub_dao, 50), Ok(()));
    let after_first = sub_dao;
    assert_eq!(update_subdao_vehnt(&mut sub_dao, 50), Ok(()));
    assert_eq!(sub_dao, after_first);
}

#[test]
fn roll_forward_decays_linearly() {
    let mut one_step = pool(1000, 10, 0);
    assert_eq!(update_subdao_vehnt(&mut one_step, 50), Ok(()));
    let mut two_steps = pool(1000, 10, 0);
    assert_eq!(update_subdao_vehnt(&mut two_steps, 20), Ok(()));
    assert_eq!(two_steps.vehnt_staked, 800);
    assert_eq!(update_subdao_vehnt(&mut two_steps, 50), Ok(()));
    assert_eq!(two_steps, one_step);
    assert_eq!(two_steps.vehnt_staked, 800 - (50 - 20) * 10);
}

#[test]
fn roll_forward_underflow_fails_without_mutation() {
    let mut sub_dao = pool(100, 10, 0);
    assert_eq!(update_subdao_vehnt(&mut sub_dao, 20), Err(ErrorCode::ArithmeticError));
    assert_eq!(sub_dao, pool(100, 10, 0));
}

#[test]
fn epoch_arithmetic() {
    assert_eq!(current_epoch(0), 0);
    assert_eq!(current_epoch(86_399), 0);
    assert_eq!(current_epoch(86_400), 1);
    assert_eq!(next_epoch_ts(0), 86_400);
    assert_eq!(next_epoch_ts(86_400 * 3 + 5), 86_400 * 4);
}

#[test]
fn create_cron_renders_one_shot_expression() {
    // 3600 seconds after the Unix epoch: 1970-01-01 01:00:00 UTC.
    assert_eq!(create_cron(0, 3600), Ok(String::from("0 0 1 1 January * 1970")));
    // 2019-01-01 00:00:00 UTC.
    assert_eq!(create_cron(1_546_300_800, 0), Ok(String::from("0 0 0 1 January * 2019")));
    // 2019-01-01 23:59:00 UTC.
    assert_eq!(create_cron(1_546_387_140, 0), Ok(String::from("0 59 23 1 January * 2019")));
    // 1999-12-31 23:59:00 UTC.
    assert_eq!(create_cron(946_684_740, 0), Ok(String::from("0 59 23 31 December * 1999")));
    // Noon of the leap day 2024-02-29 UTC.
    assert_eq!(create_cron(1_709_164_800, 43_200), Ok(String::from("0 0 12 29 February * 2024")));
}

#[test]
fn create_cron_renders_negative_years() {
    assert_eq!(
        create_cron(MIN_VALID_UNIX_TS, 0),
        Ok(String::from("0 0 0 1 January * -9999"))
    );
}

#[test]
fn create_cron_rejects_invalid_instants() {
    assert_eq!(create_cron(MAX_VALID_UNIX_TS, 1), Err(ErrorCode::InvalidCalendarInstant));
    assert_eq!(create_cron(MIN_VALID_UNIX_TS, -1), Err(ErrorCode::InvalidCalendarInstant));
    assert_eq!(create_cron(i64::MAX, 1), Err(ErrorCode::InvalidCalendarInstant));
    assert_eq!(create_cron(MAX_VALID_UNIX_TS, 0).is_ok(), true);
}

#[test]
fn process_not_expired_reschedules_without_mutation() {
    let mut stake_position = position(5, false);
    let mut sub_dao = pool(1000, 10, 0);
    // Cliff ends ten days after the epoch; one hour past expiry is
    // 1970-01-11 01:00:00 UTC.
    let lockup = cliff(864_000);
    let r = process(&mut stake_position, &mut sub_dao, &lockup, 0);
    assert_eq!(
        r,
        Ok(PurgeOutcome::Rescheduled { schedule: String::from("0 0 1 11 January * 1970") })
    );
    assert_eq!(stake_position, position(5, false));
    assert_eq!(sub_dao, pool(1000, 10, 0));
}

#[test]
fn process_not_expired_rejects_unschedulable_expiry() {
    let mut stake_position = position(5, false);
    let mut sub_dao = pool(1000, 10, 0);
    let lockup = cliff(i64::MAX);
    let r = process(&mut stake_position, &mut sub_dao, &lockup, 0);
    assert_eq!(r, Err(ErrorCode::InvalidCalendarInstant));
    assert_eq!(stake_position, position(5, false));
    assert_eq!(sub_dao, pool(1000, 10, 0));
}

#[test]
fn process_already_finalized_fails_without_mutation() {
    let mut stake_position = position(5, true);
    let mut sub_dao = pool(1000, 10, 1000);
    let lockup = cliff(900);
    let r = process(&mut stake_position, &mut sub_dao, &lockup, 1000);
    assert_eq!(r, Err(ErrorCode::PositionAlreadyFinalized));
    assert_eq!(stake_position, position(5, true));
    assert_eq!(sub_dao, pool(1000, 10, 1000));
}

#[test]
fn process_finalizes_expired_position_exactly_once() {
    let mut stake_position = position(5, false);
    let mut sub_dao = pool(10_000, 20, 1000);
    // Expired 100 seconds before the call: the pool gets back 5 * 100 and
    // loses the position's fall rate.
    let lockup = cliff(900);
    let r = process(&mut stake_position, &mut sub_dao, &lockup, 1000);
    assert_eq!(r, Ok(PurgeOutcome::Finalized));
    assert_eq!(sub_dao.vehnt_staked, 10_000 + 5 * 100);
    assert_eq!(sub_dao.vehnt_fall_rate, 20 - 5);
    assert_eq!(sub_dao.vehnt_last_calculated_ts, 1000);
    assert!(stake_position.purged);

    let after_first_pool = sub_dao;
    let after_first_position = stake_position;
    let second = process(&mut stake_position, &mut sub_dao, &lockup, 1000);
    assert_eq!(second, Err(ErrorCode::PositionAlreadyFinalized));
    assert_eq!(sub_dao, after_first_pool);
    assert_eq!(stake_position, after_first_position);
}

#[test]
fn process_rolls_forward_before_finalizing() {
    let mut stake_position = position(5, false);
    let mut sub_dao = pool(10_000, 20, 0);
    let lockup = cliff(0);
    let r = process(&mut stake_position, &mut sub_dao, &lockup, 100);
    assert_eq!(r, Ok(PurgeOutcome::Finalized));
    // Rolled forward: 10000 - 100 * 20 = 8000; catch-up: + 5 * 100.
    assert_eq!(sub_dao.vehnt_staked, 8000 + 500);
    assert_eq!(sub_dao.vehnt_fall_rate, 15);
    assert_eq!(sub_dao.vehnt_last_calculated_ts, 100);
    assert!(stake_position.purged);
}

#[test]
fn process_finalize_arithmetic_error_mutates_nothing() {
    // The position claims a larger fall rate than the whole pool carries.
    let mut stake_position = position(50, false);
    let mut sub_dao = pool(10_000, 20, 1000);
    let lockup = cliff(900);
    let r = process(&mut stake_position, &mut sub_dao, &lockup, 1000);
    assert_eq!(r, Err(ErrorCode::ArithmeticError));
    assert_eq!(stake_position, position(50, false));
    assert_eq!(sub_dao, pool(10_000, 20, 1000));
}

fn config(
    baseline_factor: u64,
    max_extra_factor: u64,
    min_required_saturation: u64,
) -> VotingMintConfig {
    VotingMintConfig {
        baseline_vote_weight_scaled_factor: baseline_factor,
        min_required_lockup_vote_weight_scaled_factor: 1_000_000_000,
        max_extra_lockup_vote_weight_scaled_factor: max_extra_factor,
        lockup_saturation_secs: 86_400,
        min_required_lockup_saturation_secs: min_required_saturation,
    }
}

#[test]
fn voting_power_zero_for_unlocked_under_min_saturation() {
    let lockup = Lockup { kind: LockupKind::NoLockup, start_ts: 0, end_ts: 0 };
    let cfg = config(1_000_000_000, 2_000_000_000, 1);
    assert_eq!(calculate_voting_power(&lockup, &cfg, 0, 0, 0), Ok(0));
    assert_eq!(calculate_voting_power(&lockup, &cfg, u64::MAX, u64::MAX, 0), Ok(0));
}

#[test]
fn voting_power_adds_baseline_and_locked() {
    let lockup = cliff(86_400);
    // Baseline scales by one, the extra locked weight by two.
    let cfg = config(1_000_000_000, 2_000_000_000, 0);
    assert_eq!(calculate_voting_power(&lockup, &cfg, 1000, 100, 150), Ok(1150));
    // An unlocked deposit still earns the baseline when no minimum
    // saturation is demanded.
    let unlocked = Lockup { kind: LockupKind::NoLockup, start_ts: 0, end_ts: 0 };
    assert_eq!(calculate_voting_power(&unlocked, &cfg, 1000, 0, 0), Ok(1000));
}

#[test]
fn voting_power_rejects_locked_weight_over_maximum() {
    let lockup = cliff(86_400);
    let cfg = config(1_000_000_000, 2_000_000_000, 0);
    // The maximum extra locked weight of 100 initially locked is 200.
    assert_eq!(
        calculate_voting_power(&lockup, &cfg, 1000, 100, 201),
        Err(ErrorCode::FailedVotingPowerCalculation)
    );
}

#[test]
fn voting_power_surfaces_overflow() {
    let lockup = cliff(86_400);
    let cfg = config(u64::MAX, 2_000_000_000, 0);
    assert_eq!(
        calculate_voting_power(&lockup, &cfg, u64::MAX, 0, 0),
        Err(ErrorCode::ArithmeticError)
    );
    let cfg2 = config(1_000_000_000, 1_000_000_000, 0);
    assert_eq!(
        calculate_voting_power(&lockup, &cfg2, u64::MAX, u64::MAX, u64::MAX),
        Err(ErrorCode::FailedVotingPowerCalculation)
    );
}

#[test]
fn lockup_expiry_queries() {
    let unlocked = Lockup { kind: LockupKind::NoLockup, start_ts: 0, end_ts: 0 };
    assert!(unlocked.expired(0));
    assert_eq!(unlocked.seconds_left(0), 0);

    let c = cliff(100);
    assert!(!c.expired(99));
    assert_eq!(c.seconds_left(40), 60);
    assert!(c.expired(100));
    assert_eq!(c.seconds_since_expiry(100), 0);
    assert_eq!(c.seconds_since_expiry(175), 75);
    assert_eq!(c.seconds_since_expiry(50), 0);

    let constant = Lockup { kind: LockupKind::Constant, start_ts: 0, end_ts: 100 };
    assert!(!constant.expired(1_000_000));
    assert_eq!(constant.seconds_left(1_000_000), 100);
}

#[test]
fn or_arith_error_converts_options() {
    assert_eq!(Some(5u64).or_arith_error(), Ok(5));
    assert_eq!(None::<u64>.or_arith_error(), Err(ErrorCode::ArithmeticError));
    assert_eq!(Some(7u128).or_arith_error(), Ok(7));
    assert_eq!(None::<u128>.or_arith_error(), Err(ErrorCode::ArithmeticError));
}

#[test]
fn decimal_rendering() {
    assert_eq!(u64_to_dec_string(0), "0");
    assert_eq!(u64_to_dec_string(9), "9");
    assert_eq!(u64_to_dec_string(1_234_567_890), "1234567890");
    assert_eq!(u64_to_dec_string(u64::MAX), "18446744073709551615");
    assert_eq!(i64_to_dec_string(-2024), "-2024");
    assert_eq!(i64_to_dec_string(i64::MIN), "-9223372036854775808");
    assert_eq!(month_name(2), "February");
    assert_eq!(month_name(12), "December");
}
