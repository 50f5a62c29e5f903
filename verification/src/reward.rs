//! The integer half of the reward engine: elapsed time, the accrual
//! threshold, the 24-hour ceiling and whole-period counting. The remaining
//! half — scaling periods by the stored rate and the pool-depletion ratio —
//! is floating-point arithmetic and belongs to the caller.

use vstd::prelude::*;
use vstd::arithmetic::div_mod::lemma_div_denominator;
use vstd::arithmetic::div_mod::lemma_div_multiples_vanish;
use vstd::arithmetic::div_mod::lemma_div_pos_is_pos;
use vstd::arithmetic::div_mod::lemma_fundamental_div_mod;
use vstd::arithmetic::mul::lemma_mul_nonnegative;
use crate::errors::ErrorCode;
use crate::vault::Vault;

verus! {

pub const MILLISECONDS_IN_SECOND: u64 = 1000;
pub const SECONDS_IN_MINUTE: u64 = 60;
pub const MINUTES_IN_HOUR: u64 = 60;
/// Accrual counts at most this many elapsed hours, however long a stake sat.
pub const MAX_HELD_HOURS: u64 = 24;

/// The elapsed-time computation stays in range: the clock has not run
/// backwards past the stake time, and the elapsed seconds survive the
/// conversion to milliseconds.
pub open spec fn elapsed_ok(now: u64, stake_time: u64) -> bool {
    stake_time <= now && (now - stake_time) * 1000 <= u64::MAX
}

/// Whole hours elapsed between `stake_time` and `now`.
pub open spec fn spec_hours(now: u64, stake_time: u64) -> int {
    (now - stake_time) / 3600
}

/// Reward accrues only once at least `base_hour` whole hours have elapsed.
pub open spec fn spec_accrues(base_hour: u32, hours: int) -> bool {
    hours >= base_hour
}

/// Elapsed hours capped at the accrual ceiling.
pub open spec fn spec_held_hours(hours: int) -> int {
    if hours <= MAX_HELD_HOURS as int {
        hours
    } else {
        MAX_HELD_HOURS as int
    }
}

/// Whole `base_hour` periods inside the held hours.
pub open spec fn spec_periods(base_hour: u32, hours: int) -> int {
    spec_held_hours(hours) / (base_hour as int)
}

/// The reward a withdrawal applies: the caller-scaled reward when the
/// accrual threshold was reached, nothing otherwise.
pub open spec fn spec_reward_used(base_hour: u32, hours: int, reward_tokens: u64) -> int {
    if spec_accrues(base_hour, hours) {
        reward_tokens as int
    } else {
        0
    }
}

/// Whole hours elapsed since `stake_time`, computed as the ledger does:
/// seconds, then milliseconds (checked), then hours by successive division.
/// Fails with `Overflow` when the clock reads earlier than the stake time or
/// the millisecond count would wrap.
pub fn hours_elapsed(now: u64, stake_time: u64) -> (r: Result<u64, ErrorCode>)
    ensures
        r is Ok <==> elapsed_ok(now, stake_time),
        r matches Ok(h) ==> h == spec_hours(now, stake_time),
        r is Err ==> r == Err::<u64, ErrorCode>(ErrorCode::Overflow),
{
    let seconds = match now.checked_sub(stake_time) {
        Some(s) => s,
        None => {
            return Err(ErrorCode::Overflow);
        },
    };
    let time_elapsed = match seconds.checked_mul(MILLISECONDS_IN_SECOND) {
        Some(ms) => ms,
        None => {
            return Err(ErrorCode::Overflow);
        },
    };
    let hours = time_elapsed / MILLISECONDS_IN_SECOND / SECONDS_IN_MINUTE / MINUTES_IN_HOUR;
    proof {
        lemma_div_multiples_vanish(seconds as int, 1000);
        lemma_div_denominator(seconds as int, 60, 60);
    }
    Ok(hours)
}

/// Whole accrual periods in `held`: floor division by `base_hour`, written
/// via explicit remainder subtraction to make the truncation plain.
/// A zero `base_hour` cannot be divided by and is an `Overflow`.
pub fn reward_periods(held: u64, base_hour: u64) -> (r: Result<u64, ErrorCode>)
    ensures
        r is Ok <==> base_hour != 0,
        r matches Ok(m) ==> m == held as int / base_hour as int,
        r is Err ==> r == Err::<u64, ErrorCode>(ErrorCode::Overflow),
{
    if base_hour == 0 {
        return Err(ErrorCode::Overflow);
    }
    let remainder = held % base_hour;
    if remainder == 0 {
        Ok(held / base_hour)
    } else {
        proof {
            lemma_fundamental_div_mod(held as int, base_hour as int);
            lemma_div_pos_is_pos(held as int, base_hour as int);
            lemma_mul_nonnegative(base_hour as int, held as int / base_hour as int);
            lemma_div_multiples_vanish(held as int / base_hour as int, base_hour as int);
        }
        Ok((held - remainder) / base_hour)
    }
}

/// The integer inputs one withdrawal hands to the caller's reward-scaling
/// arithmetic.
#[derive(Clone, Copy, Debug, PartialEq, Eq, Structural)]
pub struct RewardBasis {
    /// Whole hours since the slot's stake time.
    pub elapsed_hours: u64,
    /// Whether the accrual threshold was reached.
    pub accrues: bool,
    /// Elapsed hours capped at the ceiling; zero when nothing accrues.
    pub held_hours: u64,
    /// Whole `base_hour` periods held; zero when nothing accrues.
    pub periods: u64,
}

/// Derives the reward basis for a slot staked at `stake_time`, read at
/// `now`, under `vault`'s parameters. Read-only: `withdraw_eggs` re-derives
/// the same values itself before it mutates anything, so a caller can scale
/// the reward between the two calls.
pub fn reward_basis(vault: &Vault, now: u64, stake_time: u64) -> (r: Result<
    RewardBasis,
    ErrorCode,
>)
    ensures
        r is Ok <==> (elapsed_ok(now, stake_time) && (spec_accrues(
            vault.base_hour,
            spec_hours(now, stake_time),
        ) ==> (vault.start_pool != 0 && vault.base_hour != 0))),
        r matches Ok(b) ==> {
            &&& b.elapsed_hours == spec_hours(now, stake_time)
            &&& b.accrues == spec_accrues(vault.base_hour, spec_hours(now, stake_time))
            &&& b.held_hours == (if b.accrues {
                spec_held_hours(spec_hours(now, stake_time))
            } else {
                0
            })
            &&& b.periods == (if b.accrues {
                spec_periods(vault.base_hour, spec_hours(now, stake_time))
            } else {
                0
            })
        },
        !elapsed_ok(now, stake_time) ==> r == Err::<RewardBasis, ErrorCode>(ErrorCode::Overflow),
        elapsed_ok(now, stake_time) && spec_accrues(vault.base_hour, spec_hours(now, stake_time))
            && vault.start_pool == 0 ==> r == Err::<RewardBasis, ErrorCode>(
            ErrorCode::DivisionByZero,
        ),
        elapsed_ok(now, stake_time) && spec_accrues(vault.base_hour, spec_hours(now, stake_time))
            && vault.start_pool != 0 && vault.base_hour == 0 ==> r == Err::<
            RewardBasis,
            ErrorCode,
        >(ErrorCode::Overflow),
{
    let hours = hours_elapsed(now, stake_time)?;
    if hours >= vault.base_hour as u64 {
        if vault.start_pool == 0 {
            return Err(ErrorCode::DivisionByZero);
        }
        let held = held_hours(hours);
        let periods = reward_periods(held, vault.base_hour as u64)?;
        Ok(
            RewardBasis {
                elapsed_hours: hours,
                accrues: true,
                held_hours: held,
                periods,
            },
        )
    } else {
        Ok(RewardBasis { elapsed_hours: hours, accrues: false, held_hours: 0, periods: 0 })
    }
}

/// Caps elapsed hours at the accrual ceiling.
pub fn held_hours(hours: u64) -> (r: u64)
    ensures
        r == spec_held_hours(hours as int),
{
    if hours < MAX_HELD_HOURS {
        hours
    } else {
        MAX_HELD_HOURS
    }
}

} // verus!
