//! A staking ledger: stakers lock lamports in a vault and accrue a reward
//! token at a fixed linear rate, capped after a fixed staking period.
//!
//! The library decides; the host moves assets. Each operation works on the
//! records it is handed, checks who may act, computes what is owed, and
//! updates the records. The asset transfers that go with a successful
//! operation are left to the caller, which applies them together with the
//! updated records as one atomic step.

pub mod accrual;
pub mod key;
pub mod laws;
pub mod ledger;

pub use accrual::{
    compute_reward, effective_claim_time, is_valid_stake_amount, LAMPORTS_PER_SOL,
    MAX_STAKE_AMOUNT_LAMPORTS, MIN_STAKE_AMOUNT_LAMPORTS, REWARD_PERIOD_DAYS,
    REWARD_PERIOD_SECONDS, REWARD_RATE, SECONDS_PER_DAY,
};
pub use key::Pubkey;
pub use ledger::{
    claim_rewards, initialize_vault, stake_sol, ClaimRewards, ErrorCode, InitializeVault,
    StakeAccount, StakeSol, Vault,
};
