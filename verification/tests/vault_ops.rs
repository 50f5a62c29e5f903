use eggyield::ErrorCode;
use eggyield::UserInteractions;
use eggyield::Vault;
use eggyield::create_egg_vault;
use eggyield::deposit_eggs;
use eggyield::withdraw_eggs;

fn fresh_vault(amount: u64, base_rate: f32, base_hour: u32) -> Vault {
    create_egg_vault(amount, base_rate.to_bits(), base_hour)
}

/// The caller-side reward scaling: whole periods times the stored rate times
/// the pool-depletion ratio, floored after division by the configured
/// scaling divisor.
fn scale_reward(periods: u64, vault: &Vault, amount: u64, divisor: f64) -> u64 {
    let pool_percent = vault.amount as f64 / vault.start_pool as f64;
    let final_multi = periods as f32 * f32::from_bits(vault.base_rate_bits) * pool_percent as f32;
    (amount as f64 * (final_multi as f64 / divisor)).floor() as u64
}

#[test]
fn create_initializes_ledger() {
    let v = fresh_vault(1000, 0.1, 1);
    assert_eq!(v.amount, 1000);
    assert_eq!(v.amount_staked, 0);
    assert_eq!(v.start_pool, 1000);
    assert_eq!(f32::from_bits(v.base_rate_bits), 0.1f32);
    assert_eq!(v.base_hour, 1);
    assert_eq!(v.total_stakers, 0);
    assert_eq!(v.current_stakers, 0);
}

#[test]
fn new_table_is_empty() {
    let s = UserInteractions::new();
    assert_eq!(s.total_deposits, [0u64; 5]);
    assert_eq!(s.time_deposits, [0u64; 5]);
    assert_eq!(s.stake_deposits, [0u64; 5]);
}

#[test]
fn deposit_writes_slot_and_staked_total() {
    let mut v = fresh_vault(1000, 0.1, 1);
    let mut s = UserInteractions::new();
    assert_eq!(deposit_eggs(&mut v, &mut s, 100, 2, 777), Ok(()));
    assert_eq!(s.total_deposits, [0, 0, 100, 0, 0]);
    assert_eq!(s.time_deposits, [0, 0, 777, 0, 0]);
    assert_eq!(s.stake_deposits, [0, 0, 777, 0, 0]);
    assert_eq!(v.amount_staked, 100);
    assert_eq!(v.amount, 1000);
}

#[test]
fn deposit_overwrites_active_slot() {
    let mut v = fresh_vault(1000, 0.1, 1);
    let mut s = UserInteractions::new();
    assert_eq!(deposit_eggs(&mut v, &mut s, 100, 0, 10), Ok(()));
    assert_eq!(deposit_eggs(&mut v, &mut s, 30, 0, 20), Ok(()));
    // The slot is overwritten, yet both principals stay in the staked total.
    assert_eq!(s.total_deposits, [30, 0, 0, 0, 0]);
    assert_eq!(s.stake_deposits, [20, 0, 0, 0, 0]);
    assert_eq!(v.amount_staked, 130);
}

#[test]
fn deposit_out_of_range_index_mutates_nothing() {
    let mut v = fresh_vault(1000, 0.1, 1);
    let mut s = UserInteractions::new();
    let (v0, s0) = (v, s);
    assert_eq!(deposit_eggs(&mut v, &mut s, 100, 5, 10), Err(ErrorCode::InvalidIndex));
    assert_eq!(v, v0);
    assert_eq!(s, s0);
    assert_eq!(deposit_eggs(&mut v, &mut s, 100, usize::MAX, 10), Err(ErrorCode::InvalidIndex));
    assert_eq!(v, v0);
    assert_eq!(s, s0);
}

#[test]
fn deposit_staked_total_overflow_mutates_nothing() {
    let mut v = fresh_vault(1000, 0.1, 1);
    v.amount_staked = u64::MAX - 5;
    let mut s = UserInteractions::new();
    let (v0, s0) = (v, s);
    assert_eq!(deposit_eggs(&mut v, &mut s, 6, 0, 10), Err(ErrorCode::Overflow));
    assert_eq!(v, v0);
    assert_eq!(s, s0);
    assert_eq!(deposit_eggs(&mut v, &mut s, 5, 0, 10), Ok(()));
    assert_eq!(v.amount_staked, u64::MAX);
}

#[test]
fn withdraw_out_of_range_index_mutates_nothing() {
    let mut v = fresh_vault(1000, 0.1, 1);
    let mut s = UserInteractions::new();
    deposit_eggs(&mut v, &mut s, 100, 0, 0).unwrap();
    let (v0, s0) = (v, s);
    assert_eq!(withdraw_eggs(&mut v, &mut s, 5, false, 10, 0), Err(ErrorCode::InvalidIndex));
    assert_eq!(v, v0);
    assert_eq!(s, s0);
}

#[test]
fn withdraw_backwards_clock_is_overflow() {
    let mut v = fresh_vault(1000, 0.1, 1);
    let mut s = UserInteractions::new();
    deposit_eggs(&mut v, &mut s, 100, 0, 50).unwrap();
    let (v0, s0) = (v, s);
    assert_eq!(withdraw_eggs(&mut v, &mut s, 0, false, 49, 0), Err(ErrorCode::Overflow));
    assert_eq!(v, v0);
    assert_eq!(s, s0);
}

#[test]
fn withdraw_full_scenario_one_hour() {
    // Pool of 1000, rate 0.1 per 1-hour period: deposit 100 at t=0 and
    // withdraw in full exactly one hour later.
    let mut v = fresh_vault(1000, 0.1, 1);
    let mut s = UserInteractions::new();
    v.current_stakers = 1;
    deposit_eggs(&mut v, &mut s, 100, 0, 0).unwrap();
    let basis = eggyield::reward_basis(&v, 3600, s.stake_deposits[0]).unwrap();
    assert_eq!(basis.elapsed_hours, 1);
    assert!(basis.accrues);
    assert_eq!(basis.held_hours, 1);
    assert_eq!(basis.periods, 1);
    // With a scaling divisor of 1 the payable reward is
    // floor(100 * (1 * 0.1f32 * 1.0)) = 10.
    let reward = scale_reward(basis.periods, &v, s.total_deposits[0], 1.0);
    assert_eq!(reward, 10);
    let payout = withdraw_eggs(&mut v, &mut s, 0, false, 3600, reward).unwrap();
    assert_eq!(payout, 110);
    assert_eq!(v.amount, 990);
    assert_eq!(v.amount_staked, 0);
    assert_eq!(v.current_stakers, 0);
    assert_eq!(s.total_deposits, [0u64; 5]);
    assert_eq!(s.time_deposits, [0u64; 5]);
    assert_eq!(s.stake_deposits, [0u64; 5]);
}

#[test]
fn withdraw_full_scenario_divisor_hundred() {
    // Same hour-long stake under a scaling divisor of 100: the reward floors
    // to zero and the payout is the bare principal.
    let mut v = fresh_vault(1000, 0.1, 1);
    let mut s = UserInteractions::new();
    v.current_stakers = 1;
    deposit_eggs(&mut v, &mut s, 100, 0, 0).unwrap();
    let basis = eggyield::reward_basis(&v, 3600, s.stake_deposits[0]).unwrap();
    let reward = scale_reward(basis.periods, &v, s.total_deposits[0], 100.0);
    assert_eq!(reward, 0);
    let payout = withdraw_eggs(&mut v, &mut s, 0, false, 3600, reward).unwrap();
    assert_eq!(payout, 100);
    assert_eq!(v.amount, 1000);
}

#[test]
fn withdraw_below_threshold_pays_principal_only() {
    let mut v = fresh_vault(1000, 0.1, 2);
    let mut s = UserInteractions::new();
    v.current_stakers = 1;
    deposit_eggs(&mut v, &mut s, 100, 0, 0).unwrap();
    // One hour elapsed, threshold is two: any reward argument is ignored.
    let payout = withdraw_eggs(&mut v, &mut s, 0, false, 3600, 999).unwrap();
    assert_eq!(payout, 100);
    assert_eq!(v.amount, 1000);
    assert_eq!(v.amount_staked, 0);
}

#[test]
fn reward_only_keeps_principal_and_restarts_clock() {
    let mut v = fresh_vault(1000, 0.1, 1);
    let mut s = UserInteractions::new();
    deposit_eggs(&mut v, &mut s, 100, 0, 0).unwrap();
    let payout = withdraw_eggs(&mut v, &mut s, 0, true, 7200, 5).unwrap();
    assert_eq!(payout, 5);
    assert_eq!(v.amount, 995);
    assert_eq!(v.amount_staked, 100);
    assert_eq!(s.total_deposits, [100, 0, 0, 0, 0]);
    assert_eq!(s.time_deposits, [0, 0, 0, 0, 0]);
    assert_eq!(s.stake_deposits, [7200, 0, 0, 0, 0]);
}

#[test]
fn consecutive_reward_only_withdrawals_pay_nothing() {
    let mut v = fresh_vault(1000, 0.1, 1);
    let mut s = UserInteractions::new();
    deposit_eggs(&mut v, &mut s, 100, 0, 3600).unwrap();
    // No time elapsed since the stake: both harvests yield zero and the
    // principal is never altered.
    assert_eq!(withdraw_eggs(&mut v, &mut s, 0, true, 3600, 0), Ok(0));
    assert_eq!(withdraw_eggs(&mut v, &mut s, 0, true, 3600, 0), Ok(0));
    assert_eq!(v.amount, 1000);
    assert_eq!(s.total_deposits, [100, 0, 0, 0, 0]);
    assert_eq!(s.stake_deposits, [3600, 0, 0, 0, 0]);
}

#[test]
fn staker_count_decrements_once_over_five_full_withdrawals() {
    let mut v = fresh_vault(1000, 0.1, 1);
    let mut s = UserInteractions::new();
    v.current_stakers = 1;
    for i in 0..5usize {
        deposit_eggs(&mut v, &mut s, 10, i, 0).unwrap();
    }
    assert_eq!(v.amount_staked, 50);
    for i in 0..5usize {
        assert_eq!(withdraw_eggs(&mut v, &mut s, i, false, 0, 0), Ok(10));
    }
    assert_eq!(v.current_stakers, 0);
    assert_eq!(v.amount_staked, 0);
}

#[test]
fn emptying_table_with_no_counted_staker_is_overflow() {
    let mut v = fresh_vault(1000, 0.1, 1);
    let mut s = UserInteractions::new();
    deposit_eggs(&mut v, &mut s, 100, 0, 0).unwrap();
    let (v0, s0) = (v, s);
    // Clearing the only active slot leaves the table uniformly inactive,
    // and no counted staker is left to remove.
    assert_eq!(withdraw_eggs(&mut v, &mut s, 0, false, 0, 0), Err(ErrorCode::Overflow));
    assert_eq!(v, v0);
    assert_eq!(s, s0);
}

#[test]
fn zero_start_pool_is_division_by_zero() {
    let mut v = fresh_vault(0, 0.1, 1);
    let mut s = UserInteractions::new();
    v.current_stakers = 1;
    deposit_eggs(&mut v, &mut s, 100, 0, 0).unwrap();
    let (v0, s0) = (v, s);
    assert_eq!(withdraw_eggs(&mut v, &mut s, 0, false, 3600, 0), Err(ErrorCode::DivisionByZero));
    assert_eq!(v, v0);
    assert_eq!(s, s0);
}

#[test]
fn zero_base_hour_is_overflow() {
    let mut v = fresh_vault(1000, 0.1, 0);
    let mut s = UserInteractions::new();
    v.current_stakers = 1;
    deposit_eggs(&mut v, &mut s, 100, 0, 0).unwrap();
    let (v0, s0) = (v, s);
    assert_eq!(withdraw_eggs(&mut v, &mut s, 0, false, 0, 0), Err(ErrorCode::Overflow));
    assert_eq!(v, v0);
    assert_eq!(s, s0);
}

#[test]
fn reward_beyond_pool_is_overflow() {
    let mut v = fresh_vault(1000, 0.1, 1);
    let mut s = UserInteractions::new();
    v.current_stakers = 1;
    deposit_eggs(&mut v, &mut s, 100, 0, 0).unwrap();
    let (v0, s0) = (v, s);
    assert_eq!(withdraw_eggs(&mut v, &mut s, 0, false, 3600, 1001), Err(ErrorCode::Overflow));
    assert_eq!(v, v0);
    assert_eq!(s, s0);
    assert_eq!(withdraw_eggs(&mut v, &mut s, 0, false, 3600, 1000), Ok(1100));
    assert_eq!(v.amount, 0);
}

#[test]
fn principal_beyond_staked_total_is_overflow() {
    let mut v = fresh_vault(1000, 0.1, 1);
    let mut s = UserInteractions::new();
    v.current_stakers = 1;
    deposit_eggs(&mut v, &mut s, 100, 0, 0).unwrap();
    v.amount_staked = 99;
    let (v0, s0) = (v, s);
    assert_eq!(withdraw_eggs(&mut v, &mut s, 0, false, 0, 0), Err(ErrorCode::Overflow));
    assert_eq!(v, v0);
    assert_eq!(s, s0);
}
