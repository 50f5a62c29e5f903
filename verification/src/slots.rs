//! The per-participant deposit slot table and its accessors.

use vstd::prelude::*;
use crate::errors::ErrorCode;

verus! {

broadcast use vstd::array::group_array_axioms;

/// Number of independent deposit slots each participant holds.
pub const SLOT_COUNT: usize = 5;

/// A participant's deposit table: five independent stakes, kept as three
/// parallel arrays. `total_deposits[i]` is the principal in slot `i`
/// (zero meaning inactive), `time_deposits[i]` the timestamp of the deposit,
/// and `stake_deposits[i]` the timestamp from which reward accrual is
/// measured (rewritten by a reward-only withdrawal).
#[derive(Clone, Copy, Debug, PartialEq, Eq)]
pub struct UserInteractions {
    pub total_deposits: [u64; 5],
    pub time_deposits: [u64; 5],
    pub stake_deposits: [u64; 5],
}

/// Every element of `s` equals its first element.
pub open spec fn all_eq(s: Seq<u64>) -> bool {
    forall|i: int| 0 <= i < s.len() ==> #[trigger] s[i] == s[0]
}

/// The deactivation trigger for a participant: slot 0 reads zero and every
/// slot equals slot 0. (The ledger tests uniformity against slot 0 rather
/// than testing each slot for a literal zero.)
pub open spec fn slots_inactive(s: Seq<u64>) -> bool {
    s[0] == 0 && all_eq(s)
}

impl UserInteractions {
    /// A fresh table: all five slots inactive, all timestamps zero.
    pub fn new() -> (r: UserInteractions)
        ensures
            r.total_deposits@ =~= Seq::new(5, |i: int| 0u64),
            r.time_deposits@ =~= Seq::new(5, |i: int| 0u64),
            r.stake_deposits@ =~= Seq::new(5, |i: int| 0u64),
    {
        UserInteractions {
            total_deposits: [0u64, 0u64, 0u64, 0u64, 0u64],
            time_deposits: [0u64, 0u64, 0u64, 0u64, 0u64],
            stake_deposits: [0u64, 0u64, 0u64, 0u64, 0u64],
        }
    }

    /// Bounds-checked read of one slot: its principal, deposit time and
    /// stake time. Any index outside the table is `InvalidIndex`.
    pub fn get(&self, index: usize) -> (r: Result<(u64, u64, u64), ErrorCode>)
        ensures
            r is Ok <==> index < SLOT_COUNT,
            r matches Ok(t) ==> t == (
                self.total_deposits@[index as int],
                self.time_deposits@[index as int],
                self.stake_deposits@[index as int],
            ),
            r is Err ==> r == Err::<(u64, u64, u64), ErrorCode>(ErrorCode::InvalidIndex),
    {
        if index < SLOT_COUNT {
            Ok((self.total_deposits[index], self.time_deposits[index], self.stake_deposits[index]))
        } else {
            Err(ErrorCode::InvalidIndex)
        }
    }

    /// Writes a deposit of `amount` at time `now` into slot `index`,
    /// resetting both the deposit time and the accrual clock. A previously
    /// active slot is overwritten without further ado.
    pub fn write_deposit(&mut self, index: usize, amount: u64, now: u64)
        requires
            index < SLOT_COUNT,
        ensures
            final(self).total_deposits@ == old(self).total_deposits@.update(index as int, amount),
            final(self).time_deposits@ == old(self).time_deposits@.update(index as int, now),
            final(self).stake_deposits@ == old(self).stake_deposits@.update(index as int, now),
    {
        self.total_deposits[index] = amount;
        self.time_deposits[index] = now;
        self.stake_deposits[index] = now;
    }

    /// Empties slot `index` for a full withdrawal: all three fields of an
    /// inactive slot read as zero.
    pub fn clear(&mut self, index: usize)
        requires
            index < SLOT_COUNT,
        ensures
            final(self).total_deposits@ == old(self).total_deposits@.update(index as int, 0u64),
            final(self).time_deposits@ == old(self).time_deposits@.update(index as int, 0u64),
            final(self).stake_deposits@ == old(self).stake_deposits@.update(index as int, 0u64),
    {
        self.total_deposits[index] = 0;
        self.time_deposits[index] = 0;
        self.stake_deposits[index] = 0;
    }

    /// Restarts slot `index`'s accrual clock at `now` for a reward-only
    /// withdrawal, leaving its principal and deposit time untouched.
    pub fn restart_clock(&mut self, index: usize, now: u64)
        requires
            index < SLOT_COUNT,
        ensures
            final(self).total_deposits@ == old(self).total_deposits@,
            final(self).time_deposits@ == old(self).time_deposits@,
            final(self).stake_deposits@ == old(self).stake_deposits@.update(index as int, now),
    {
        self.stake_deposits[index] = now;
    }
}

/// Reports whether all five values are equal, handing back the common value.
pub fn iter_all_eq(values: &[u64; 5]) -> (r: Option<u64>)
    ensures
        r is Some <==> all_eq(values@),
        r matches Some(v) ==> v == values@[0],
{
    let first = values[0];
    let mut k: usize = 1;
    while k < 5
        invariant
            1 <= k <= 5,
            first == values@[0],
            forall|j: int| 0 <= j < k ==> #[trigger] values@[j] == values@[0],
        decreases 5 - k,
    {
        if values[k] != first {
            assert(values@[k as int] != values@[0]);
            return None;
        }
        k += 1;
    }
    Some(first)
}

} // verus!
