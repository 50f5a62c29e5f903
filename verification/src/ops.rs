//! The deposit and withdraw state transitions.

use vstd::prelude::*;
use vstd::array::spec_array_update;
use crate::errors::ErrorCode;
use crate::reward::elapsed_ok;
use crate::reward::spec_accrues;
use crate::reward::spec_hours;
use crate::reward::spec_reward_used;
use crate::reward::hours_elapsed;
use crate::slots::SLOT_COUNT;
use crate::slots::UserInteractions;
use crate::slots::iter_all_eq;
use crate::slots::slots_inactive;
use crate::vault::Vault;

verus! {

broadcast use vstd::array::group_array_axioms;

/// The deposit transition. A deposit writes one slot (principal and both
/// timestamps), adds the principal to the staked total, and asks the caller
/// to move the principal into vault custody. An index outside the table is
/// `InvalidIndex`; a staked total that would wrap is `Overflow`. On any
/// error nothing changes.
pub open spec fn spec_deposit(
    vault: Vault,
    slots: UserInteractions,
    amount: u64,
    index: usize,
    now: u64,
) -> Result<(Vault, UserInteractions), ErrorCode> {
    if index >= SLOT_COUNT {
        Err(ErrorCode::InvalidIndex)
    } else if vault.amount_staked + amount > u64::MAX {
        Err(ErrorCode::Overflow)
    } else {
        Ok(
            (
                Vault { amount_staked: (vault.amount_staked + amount) as u64, ..vault },
                UserInteractions {
                    total_deposits: spec_array_update(slots.total_deposits, index as int, amount),
                    time_deposits: spec_array_update(slots.time_deposits, index as int, now),
                    stake_deposits: spec_array_update(slots.stake_deposits, index as int, now),
                },
            ),
        )
    }
}

/// Stakes `amount` into slot `index` at time `now`. A deposit into an
/// already-active slot overwrites it; keeping concurrent stakes in distinct
/// slots is the caller's contract. On `Ok` the caller must transfer
/// `amount` from the depositor into vault custody, and discard these
/// records if that transfer fails.
pub fn deposit_eggs(
    vault: &mut Vault,
    slots: &mut UserInteractions,
    amount: u64,
    index: usize,
    now: u64,
) -> (r: Result<(), ErrorCode>)
    ensures
        match spec_deposit(*old(vault), *old(slots), amount, index, now) {
            Ok(t) => r is Ok && *final(vault) == t.0 && *final(slots) == t.1,
            Err(e) => r == Err::<(), ErrorCode>(e) && *final(vault) == *old(vault)
                && *final(slots) == *old(slots),
        },
{
    if index >= SLOT_COUNT {
        return Err(ErrorCode::InvalidIndex);
    }
    let staked = match vault.amount_staked.checked_add(amount) {
        Some(s) => s,
        None => {
            return Err(ErrorCode::Overflow);
        },
    };
    slots.write_deposit(index, amount, now);
    vault.amount_staked = staked;
    proof {
        let t = spec_deposit(*old(vault), *old(slots), amount, index, now)->Ok_0;
        assert(slots.total_deposits =~= t.1.total_deposits);
        assert(slots.time_deposits =~= t.1.time_deposits);
        assert(slots.stake_deposits =~= t.1.stake_deposits);
    }
    Ok(())
}

/// The withdraw transition. Reading slot `index` at time `now`, a full
/// withdrawal clears the slot and removes its principal from the staked
/// total; a reward-only withdrawal keeps the principal and restarts the
/// slot's accrual clock. Either way, once at least `base_hour` whole hours
/// elapsed the caller-scaled `reward_tokens` is paid out of the pool, and a
/// participant whose table reads uniformly inactive afterwards is removed
/// from the current-staker count. The payout (principal, if full, plus
/// reward) is what the caller must transfer out of vault custody; a zero
/// payout means no transfer at all. On any error nothing changes.
pub open spec fn spec_withdraw(
    vault: Vault,
    slots: UserInteractions,
    index: usize,
    reward_only: bool,
    now: u64,
    reward_tokens: u64,
) -> Result<(Vault, UserInteractions, u64), ErrorCode> {
    if index >= SLOT_COUNT {
        Err(ErrorCode::InvalidIndex)
    } else {
        let amount = slots.total_deposits@[index as int];
        let stake_time = slots.stake_deposits@[index as int];
        if !elapsed_ok(now, stake_time) {
            Err(ErrorCode::Overflow)
        } else {
            let hours = spec_hours(now, stake_time);
            let slots2 = if reward_only {
                UserInteractions {
                    stake_deposits: spec_array_update(slots.stake_deposits, index as int, now),
                    ..slots
                }
            } else {
                UserInteractions {
                    total_deposits: spec_array_update(slots.total_deposits, index as int, 0u64),
                    time_deposits: spec_array_update(slots.time_deposits, index as int, 0u64),
                    stake_deposits: spec_array_update(slots.stake_deposits, index as int, 0u64),
                }
            };
            let dec = slots_inactive(slots2.total_deposits@);
            if dec && vault.current_stakers == 0 {
                Err(ErrorCode::Overflow)
            } else if spec_accrues(vault.base_hour, hours) && vault.start_pool == 0 {
                Err(ErrorCode::DivisionByZero)
            } else if spec_accrues(vault.base_hour, hours) && vault.base_hour == 0 {
                Err(ErrorCode::Overflow)
            } else {
                let reward = spec_reward_used(vault.base_hour, hours, reward_tokens);
                let payout = (if reward_only {
                    0
                } else {
                    amount as int
                }) + reward;
                if vault.amount < reward {
                    Err(ErrorCode::Overflow)
                } else if !reward_only && vault.amount_staked < amount {
                    Err(ErrorCode::Overflow)
                } else if payout > u64::MAX {
                    Err(ErrorCode::Overflow)
                } else {
                    let vault2 = Vault {
                        amount: (vault.amount - reward) as u64,
                        amount_staked: if reward_only {
                            vault.amount_staked
                        } else {
                            (vault.amount_staked - amount) as u64
                        },
                        current_stakers: if dec {
                            (vault.current_stakers - 1) as u64
                        } else {
                            vault.current_stakers
                        },
                        ..vault
                    };
                    Ok((vault2, slots2, payout as u64))
                }
            }
        }
    }
}

/// Withdraws from slot `index` at time `now`. `reward_only` harvests the
/// reward and restarts the slot's clock without touching the principal; a
/// full withdrawal clears the slot. `reward_tokens` is the reward the
/// caller scaled from this slot's `reward_basis`; it is applied only when
/// the accrual threshold was reached. On `Ok(payout)` the caller must
/// transfer `payout` out of vault custody unless it is zero; every error
/// leaves the ledger and the table untouched.
pub fn withdraw_eggs(
    vault: &mut Vault,
    slots: &mut UserInteractions,
    index: usize,
    reward_only: bool,
    now: u64,
    reward_tokens: u64,
) -> (r: Result<u64, ErrorCode>)
    ensures
        match spec_withdraw(*old(vault), *old(slots), index, reward_only, now, reward_tokens) {
            Ok(t) => r == Ok::<u64, ErrorCode>(t.2) && *final(vault) == t.0 && *final(slots)
                == t.1,
            Err(e) => r == Err::<u64, ErrorCode>(e) && *final(vault) == *old(vault)
                && *final(slots) == *old(slots),
        },
        reward_only ==> final(slots).total_deposits@ == old(slots).total_deposits@
            && final(slots).time_deposits@ == old(slots).time_deposits@,
{
    if index >= SLOT_COUNT {
        return Err(ErrorCode::InvalidIndex);
    }
    let amount = slots.total_deposits[index];
    let stake_time = slots.stake_deposits[index];
    let hours = hours_elapsed(now, stake_time)?;

    let mut new_amounts = slots.total_deposits;
    if !reward_only {
        new_amounts[index] = 0;
    }
    let dec = new_amounts[0] == 0 && iter_all_eq(&new_amounts).is_some();
    let new_current = if dec {
        match vault.current_stakers.checked_sub(1) {
            Some(c) => c,
            None => {
                return Err(ErrorCode::Overflow);
            },
        }
    } else {
        vault.current_stakers
    };

    let reward = if hours >= vault.base_hour as u64 {
        if vault.start_pool == 0 {
            return Err(ErrorCode::DivisionByZero);
        }
        if vault.base_hour == 0 {
            return Err(ErrorCode::Overflow);
        }
        reward_tokens
    } else {
        0
    };

    let new_amount = match vault.amount.checked_sub(reward) {
        Some(a) => a,
        None => {
            return Err(ErrorCode::Overflow);
        },
    };
    let new_staked = if reward_only {
        vault.amount_staked
    } else {
        match vault.amount_staked.checked_sub(amount) {
            Some(s) => s,
            None => {
                return Err(ErrorCode::Overflow);
            },
        }
    };
    let payout = if reward_only {
        reward
    } else {
        match amount.checked_add(reward) {
            Some(p) => p,
            None => {
                return Err(ErrorCode::Overflow);
            },
        }
    };

    if !reward_only {
        slots.clear(index);
    } else {
        slots.restart_clock(index, now);
    }
    vault.amount = new_amount;
    vault.amount_staked = new_staked;
    vault.current_stakers = new_current;
    proof {
        let t = spec_withdraw(*old(vault), *old(slots), index, reward_only, now, reward_tokens)->Ok_0;
        assert(slots.total_deposits =~= t.1.total_deposits);
        assert(slots.time_deposits =~= t.1.time_deposits);
        assert(slots.stake_deposits =~= t.1.stake_deposits);
    }
    Ok(payout)
}

} // verus!
