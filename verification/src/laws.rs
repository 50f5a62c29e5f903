//! Laws of the vault: properties relating the transitions, proved once
//! and for all over their specifications.

use vstd::prelude::*;
use vstd::arithmetic::div_mod::lemma_div_by_self;
use crate::errors::ErrorCode;
use crate::ops::spec_deposit;
use crate::ops::spec_withdraw;
use crate::reward::spec_accrues;
use crate::reward::spec_held_hours;
use crate::reward::spec_hours;
use crate::reward::spec_periods;
use crate::reward::spec_reward_used;
use crate::slots::SLOT_COUNT;
use crate::slots::UserInteractions;
use crate::vault::Vault;

verus! {

broadcast use vstd::array::group_array_axioms;

/// An out-of-range slot index is rejected outright: both transitions answer
/// `InvalidIndex` before anything else is even examined, and the executable
/// operations then leave the ledger and the table untouched (their `ensures`
/// say so for every error).
pub proof fn lemma_invalid_index_rejected(
    vault: Vault,
    slots: UserInteractions,
    amount: u64,
    index: usize,
    reward_only: bool,
    now: u64,
    reward_tokens: u64,
)
    requires
        index >= SLOT_COUNT,
    ensures
        spec_deposit(vault, slots, amount, index, now) == Err::<
            (Vault, UserInteractions),
            ErrorCode,
        >(ErrorCode::InvalidIndex),
        spec_withdraw(vault, slots, index, reward_only, now, reward_tokens) == Err::<
            (Vault, UserInteractions, u64),
            ErrorCode,
        >(ErrorCode::InvalidIndex),
{
}

/// Conservation under a full withdrawal: when a slot holding `A` is
/// withdrawn in full and the formula applies reward `R`, the staked total
/// falls by exactly `A`, the pool by exactly `R`, and the payout owed to
/// the withdrawer is exactly `A + R`.
pub proof fn lemma_full_withdraw_conservation(
    vault: Vault,
    slots: UserInteractions,
    index: usize,
    now: u64,
    reward_tokens: u64,
)
    requires
        spec_withdraw(vault, slots, index, false, now, reward_tokens) is Ok,
    ensures
        ({
            let t = spec_withdraw(vault, slots, index, false, now, reward_tokens)->Ok_0;
            let a = slots.total_deposits@[index as int];
            let r = spec_reward_used(
                vault.base_hour,
                spec_hours(now, slots.stake_deposits@[index as int]),
                reward_tokens,
            );
            &&& t.0.amount_staked == vault.amount_staked - a
            &&& t.0.amount == vault.amount - r
            &&& t.2 == a + r
        }),
{
}

/// Reward-only harvesting never touches principal: the amounts and deposit
/// times of every slot are exactly as before, only the harvested slot's
/// accrual clock is rewritten to `now`. And when no time elapsed since the
/// slot's stake time, the harvest pays nothing — as does a second harvest
/// run straight after it at the same instant.
pub proof fn lemma_consecutive_harvests_pay_nothing(
    vault: Vault,
    slots: UserInteractions,
    index: usize,
    now: u64,
    r1: u64,
    r2: u64,
)
    requires
        index < SLOT_COUNT,
        vault.base_hour >= 1,
        slots.stake_deposits@[index as int] == now,
        spec_withdraw(vault, slots, index, true, now, r1) is Ok,
    ensures
        ({
            let t = spec_withdraw(vault, slots, index, true, now, r1)->Ok_0;
            &&& t.2 == 0
            &&& t.0.amount == vault.amount
            &&& t.1.total_deposits@ == slots.total_deposits@
            &&& t.1.time_deposits@ == slots.time_deposits@
            &&& t.1.stake_deposits@ == slots.stake_deposits@.update(index as int, now)
            &&& (spec_withdraw(t.0, t.1, index, true, now, r2) matches Ok(u) ==> u.2 == 0
                && u.1.total_deposits@ == slots.total_deposits@)
        }),
{
    let t = spec_withdraw(vault, slots, index, true, now, r1)->Ok_0;
    assert(spec_hours(now, now) == 0);
    assert(t.1.stake_deposits@ =~= slots.stake_deposits@.update(index as int, now));
    assert(t.1.stake_deposits@[index as int] == now);
    assert(spec_withdraw(t.0, t.1, index, true, now, r2) matches Ok(u) ==> u.2 == 0) by {
        assert(t.0.base_hour == vault.base_hour);
    }
}

/// The accrual threshold: below `base_hour` elapsed hours no reward is
/// applied at all, and at exactly `base_hour` elapsed hours exactly one
/// period has accrued. (Stated for rates whose period fits under the
/// 24-hour ceiling; a period longer than the ceiling can never complete.)
pub proof fn lemma_accrual_threshold(base_hour: u32, hours: int, reward_tokens: u64)
    requires
        1 <= base_hour <= 24,
    ensures
        hours < base_hour ==> spec_reward_used(base_hour, hours, reward_tokens) == 0,
        hours == base_hour ==> spec_periods(base_hour, hours) == 1,
{
    if hours == base_hour {
        assert(spec_held_hours(hours) == base_hour);
        lemma_div_by_self(base_hour as int);
    }
}

/// The 24-hour cap: any two elapsed durations at or beyond the ceiling are
/// indistinguishable to the formula — same held hours, same period count,
/// hence the same applied reward.
pub proof fn lemma_held_hours_cap(base_hour: u32, h1: int, h2: int, reward_tokens: u64)
    requires
        1 <= base_hour <= 24,
        h1 >= 24,
        h2 >= 24,
    ensures
        spec_held_hours(h1) == 24 && spec_held_hours(h2) == 24,
        spec_accrues(base_hour, h1) && spec_accrues(base_hour, h2),
        spec_periods(base_hour, h1) == spec_periods(base_hour, h2),
        spec_reward_used(base_hour, h1, reward_tokens) == spec_reward_used(
            base_hour,
            h2,
            reward_tokens,
        ),
{
}

/// Five full withdrawals in slot order, each taken before any further time
/// elapsed on its slot.
pub open spec fn spec_withdraw_chain(
    vault: Vault,
    slots: UserInteractions,
    nows: Seq<u64>,
    rewards: Seq<u64>,
    k: int,
) -> Result<(Vault, UserInteractions), ErrorCode>
    decreases SLOT_COUNT - k,
{
    if k < 0 || k >= SLOT_COUNT {
        Ok((vault, slots))
    } else {
        match spec_withdraw(vault, slots, k as usize, false, nows[k], rewards[k]) {
            Ok(t) => spec_withdraw_chain(t.0, t.1, nows, rewards, k + 1),
            Err(e) => Err(e),
        }
    }
}

/// Emptying a table decrements the staker count once, not five times: with
/// all five slots staked at the same positive amount, withdrawing all five
/// in full (here in slot order, each before further time elapsed on its
/// slot) succeeds and lowers `current_stakers` by exactly one — only the
/// withdrawal that empties the last slot triggers the decrement.
pub proof fn lemma_staker_count_decrements_once(
    vault: Vault,
    slots: UserInteractions,
    amount: u64,
    nows: Seq<u64>,
    rewards: Seq<u64>,
)
    requires
        amount > 0,
        vault.base_hour >= 1,
        vault.current_stakers >= 1,
        vault.amount_staked >= 5 * amount,
        nows.len() == 5,
        rewards.len() == 5,
        forall|i: int| 0 <= i < 5 ==> slots.total_deposits@[i] == amount,
        forall|i: int| 0 <= i < 5 ==> nows[i] == slots.stake_deposits@[i],
    ensures
        ({
            let r = spec_withdraw_chain(vault, slots, nows, rewards, 0);
            &&& r is Ok
            &&& r->Ok_0.0.current_stakers == vault.current_stakers - 1
        }),
{
    assert forall|i: int| 0 <= i < 5 implies spec_hours(nows[i], slots.stake_deposits@[i])
        == 0 by {}

    let s0 = spec_withdraw(vault, slots, 0, false, nows[0], rewards[0]);
    assert(!(spec_accrues(vault.base_hour, 0)));
    assert(s0 is Ok) by {
        let u = spec_withdraw(vault, slots, 0, false, nows[0], rewards[0]);
        assert(slots.total_deposits@.update(0, 0u64)[1] == amount);
    }
    let (v1, s1) = (s0->Ok_0.0, s0->Ok_0.1);
    assert(s1.total_deposits@ == slots.total_deposits@.update(0, 0u64));
    assert(v1.current_stakers == vault.current_stakers) by {
        assert(s1.total_deposits@[1] == amount && s1.total_deposits@[0] == 0);
    }

    let c1 = spec_withdraw(v1, s1, 1, false, nows[1], rewards[1]);
    assert(s1.stake_deposits@[1] == slots.stake_deposits@[1]);
    assert(c1 is Ok) by {
        assert(s1.total_deposits@.update(1, 0u64)[2] == amount);
    }
    let (v2, s2) = (c1->Ok_0.0, c1->Ok_0.1);
    assert(v2.current_stakers == vault.current_stakers) by {
        assert(s2.total_deposits@[2] == amount && s2.total_deposits@[0] == 0);
    }

    let c2 = spec_withdraw(v2, s2, 2, false, nows[2], rewards[2]);
    assert(s2.stake_deposits@[2] == slots.stake_deposits@[2]);
    assert(c2 is Ok) by {
        assert(s2.total_deposits@.update(2, 0u64)[3] == amount);
    }
    let (v3, s3) = (c2->Ok_0.0, c2->Ok_0.1);
    assert(v3.current_stakers == vault.current_stakers) by {
        assert(s3.total_deposits@[3] == amount && s3.total_deposits@[0] == 0);
    }

    let c3 = spec_withdraw(v3, s3, 3, false, nows[3], rewards[3]);
    assert(s3.stake_deposits@[3] == slots.stake_deposits@[3]);
    assert(c3 is Ok) by {
        assert(s3.total_deposits@.update(3, 0u64)[4] == amount);
    }
    let (v4, s4) = (c3->Ok_0.0, c3->Ok_0.1);
    assert(v4.current_stakers == vault.current_stakers) by {
        assert(s4.total_deposits@[4] == amount && s4.total_deposits@[0] == 0);
    }

    let c4 = spec_withdraw(v4, s4, 4, false, nows[4], rewards[4]);
    assert(s4.stake_deposits@[4] == slots.stake_deposits@[4]);
    assert(s4.total_deposits@.update(4, 0u64) =~= Seq::new(5, |i: int| 0u64));
    assert(c4 is Ok);
    let (v5, s5) = (c4->Ok_0.0, c4->Ok_0.1);
    assert(v5.current_stakers == vault.current_stakers - 1) by {
        assert(forall|i: int|
            0 <= i < 5 ==> #[trigger] s4.total_deposits@.update(4, 0u64)[i] == 0u64);
    }

    assert(spec_withdraw_chain(v5, s5, nows, rewards, 5) == Ok::<
        (Vault, UserInteractions),
        ErrorCode,
    >((v5, s5)));
    assert(spec_withdraw_chain(v4, s4, nows, rewards, 4) == spec_withdraw_chain(
        v5,
        s5,
        nows,
        rewards,
        5,
    ));
    assert(spec_withdraw_chain(v3, s3, nows, rewards, 3) == spec_withdraw_chain(
        v4,
        s4,
        nows,
        rewards,
        4,
    ));
    assert(spec_withdraw_chain(v2, s2, nows, rewards, 2) == spec_withdraw_chain(
        v3,
        s3,
        nows,
        rewards,
        3,
    ));
    assert(spec_withdraw_chain(v1, s1, nows, rewards, 1) == spec_withdraw_chain(
        v2,
        s2,
        nows,
        rewards,
        2,
    ));
    assert(spec_withdraw_chain(vault, slots, nows, rewards, 0) == spec_withdraw_chain(
        v1,
        s1,
        nows,
        rewards,
        1,
    ));
}

} // verus!
