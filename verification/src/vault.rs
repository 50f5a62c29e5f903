//! The vault ledger record and its creation.

use vstd::prelude::*;

verus! {

/// The ledger of one staking pool.
///
/// `amount` is the token balance still held for rewards and principal: it is
/// set once at creation and only decreases afterwards, as rewards are paid.
/// `amount_staked` sums all currently-active deposit amounts. `start_pool`
/// snapshots `amount` at creation and serves only as the denominator of the
/// pool-depletion ratio. `base_rate_bits` carries the per-period reward rate
/// as the bit pattern of an IEEE-754 single-precision number: the ledger
/// never interprets it, only the caller's reward-scaling arithmetic does.
/// Reward accrues in whole steps of `base_hour` hours.
#[derive(Clone, Copy, Debug, PartialEq, Eq, Structural)]
pub struct Vault {
    pub amount: u64,
    pub amount_staked: u64,
    pub start_pool: u64,
    pub base_rate_bits: u32,
    pub base_hour: u32,
    pub total_stakers: u64,
    pub current_stakers: u64,
}

/// Initializes the ledger of a new vault: the pool and its snapshot both
/// start at `amount`, nothing is staked and no staker is counted. The caller
/// must then move `amount` tokens into the vault's custody, and abandon the
/// vault if that transfer fails.
pub fn create_egg_vault(amount: u64, base_rate_bits: u32, base_hour: u32) -> (v: Vault)
    ensures
        v == (Vault {
            amount,
            amount_staked: 0u64,
            start_pool: amount,
            base_rate_bits,
            base_hour,
            total_stakers: 0u64,
            current_stakers: 0u64,
        }),
{
    Vault {
        amount,
        amount_staked: 0,
        start_pool: amount,
        base_rate_bits,
        base_hour,
        total_stakers: 0,
        current_stakers: 0,
    }
}

} // verus!
