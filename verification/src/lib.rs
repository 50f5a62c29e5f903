//! A staking-vault accounting engine.
//!
//! The library owns the vault ledger (pool balance, staked total, reward-rate
//! parameters, staker counts), a fixed five-slot deposit table per
//! participant, and the integer half of the time-weighted reward formula.
//! Token custody, clocks and the floating-point reward scaling are the
//! caller's collaborators: operations take the current time and the scaled
//! reward as plain arguments and report the transfer the caller must perform.

pub mod errors;
pub mod laws;
pub mod slots;
pub mod ops;
pub mod reward;
pub mod vault;

pub use errors::ErrorCode;
pub use slots::UserInteractions;
pub use slots::iter_all_eq;
pub use ops::deposit_eggs;
pub use ops::withdraw_eggs;
pub use reward::RewardBasis;
pub use reward::hours_elapsed;
pub use reward::reward_basis;
pub use reward::reward_periods;
pub use reward::held_hours;
pub use vault::Vault;
pub use vault::create_egg_vault;
