//! The records of the ledger and the three operations on them.
use crate::accrual::{
    compute_reward, effective_claim_time, effective_time, is_valid_stake_amount,
    lemma_no_reward_before_checkpoint, reward_due, stake_amount_in_bounds,
};
use crate::key::Pubkey;
use vstd::prelude::*;

verus! {

#[derive(Clone, Copy, Debug, PartialEq, Eq)]
pub enum ErrorCode {
    /// The amount staked lies outside the accepted range.
    InvalidStakeAmount,
    /// Only the owner of a stake position may claim its rewards.
    Unauthorized,
    /// The slot for a new record already holds one.
    AlreadyInitialized,
}

/// A staking pool: names the token that it pays rewards in.
#[derive(Clone, Copy, Debug, PartialEq, Eq)]
pub struct Vault {
    pub reward_mint: Pubkey,
}

/// One stake position: who staked, how many lamports, when the position was
/// opened, and the checkpoint up to which rewards have been paid.
#[derive(Clone, Copy, Debug, PartialEq, Eq)]
pub struct StakeAccount {
    pub owner: Pubkey,
    pub sol_staked: u64,
    pub start_time: i64,
    pub last_claim_time: i64,
}

impl StakeAccount {
    /// The invariant of every position: an accepted amount, and a checkpoint
    /// no earlier than the opening.
    pub open spec fn wf(&self) -> bool {
        &&& stake_amount_in_bounds(self.sol_staked as int)
        &&& self.start_time <= self.last_claim_time
    }

    /// What a claim at `now` pays out on this position.
    pub open spec fn reward_due_at(&self, now: i64) -> int {
        reward_due(
            self.sol_staked as int,
            self.start_time as int,
            self.last_claim_time as int,
            now as int,
        )
    }

    /// The position after its owner claims at `now`: the checkpoint moves to
    /// the effective time when something is paid, and stays otherwise.
    pub open spec fn after_claim(self, now: i64) -> StakeAccount {
        if self.reward_due_at(now) > 0 {
            StakeAccount {
                last_claim_time: effective_time(self.start_time as int, now as int) as i64,
                ..self
            }
        } else {
            self
        }
    }
}

/// The records that creating a vault touches: the slot that receives it.
pub struct InitializeVault {
    pub vault: Option<Vault>,
}

/// The records that opening a position touches: the authenticated staker
/// and the slot that receives the new position.
pub struct StakeSol {
    pub staker: Pubkey,
    pub stake_account: Option<StakeAccount>,
}

/// The records that a claim touches: the authenticated caller and the
/// position claimed on.
pub struct ClaimRewards {
    pub staker: Pubkey,
    pub stake_account: StakeAccount,
}

/// Creates the vault, paying rewards in `reward_mint`, in an empty slot.
pub fn initialize_vault(ctx: &mut InitializeVault, reward_mint: Pubkey) -> (r: Result<
    (),
    ErrorCode,
>)
    ensures
        old(ctx).vault is Some ==> {
            &&& r == Err::<(), ErrorCode>(ErrorCode::AlreadyInitialized)
            &&& final(ctx).vault == old(ctx).vault
        },
        old(ctx).vault is None ==> {
            &&& r == Ok::<(), ErrorCode>(())
            &&& final(ctx).vault == Some(Vault { reward_mint })
        },
{
    if ctx.vault.is_some() {
        return Err(ErrorCode::AlreadyInitialized);
    }
    ctx.vault = Some(Vault { reward_mint });
    Ok(())
}

/// Opens a position of `amount` lamports for the staker at time `now`.
///
/// On success the caller moves `amount` lamports from the staker to the
/// vault, in the same atomic step that stores the new position.
pub fn stake_sol(ctx: &mut StakeSol, amount: u64, now: i64) -> (r: Result<(), ErrorCode>)
    ensures
        final(ctx).staker == old(ctx).staker,
        !stake_amount_in_bounds(amount as int) ==> {
            &&& r == Err::<(), ErrorCode>(ErrorCode::InvalidStakeAmount)
            &&& final(ctx).stake_account == old(ctx).stake_account
        },
        stake_amount_in_bounds(amount as int) && old(ctx).stake_account is Some ==> {
            &&& r == Err::<(), ErrorCode>(ErrorCode::AlreadyInitialized)
            &&& final(ctx).stake_account == old(ctx).stake_account
        },
        stake_amount_in_bounds(amount as int) && old(ctx).stake_account is None ==> {
            &&& r == Ok::<(), ErrorCode>(())
            &&& final(ctx).stake_account == Some(
                StakeAccount {
                    owner: old(ctx).staker,
                    sol_staked: amount,
                    start_time: now,
                    last_claim_time: now,
                },
            )
        },
        r is Ok ==> final(ctx).stake_account->Some_0.wf(),
{
    if !is_valid_stake_amount(amount) {
        return Err(ErrorCode::InvalidStakeAmount);
    }
    if ctx.stake_account.is_some() {
        return Err(ErrorCode::AlreadyInitialized);
    }
    ctx.stake_account = Some(
        StakeAccount {
            owner: ctx.staker,
            sol_staked: amount,
            start_time: now,
            last_claim_time: now,
        },
    );
    Ok(())
}

/// The owner's claim at time `now`: returns the reward owed and moves the
/// checkpoint when it is positive.
///
/// On a positive reward the caller moves that many reward tokens from the
/// vault to the staker, in the same atomic step that stores the position.
pub fn claim_rewards(ctx: &mut ClaimRewards, now: i64) -> (r: Result<u64, ErrorCode>)
    requires
        old(ctx).stake_account.wf(),
    ensures
        final(ctx).staker == old(ctx).staker,
        final(ctx).stake_account.wf(),
        final(ctx).stake_account.last_claim_time >= old(ctx).stake_account.last_claim_time,
        old(ctx).staker@ != old(ctx).stake_account.owner@ ==> {
            &&& r == Err::<u64, ErrorCode>(ErrorCode::Unauthorized)
            &&& final(ctx).stake_account == old(ctx).stake_account
        },
        old(ctx).staker@ == old(ctx).stake_account.owner@ ==> {
            &&& r matches Ok(reward) && reward == old(ctx).stake_account.reward_due_at(now)
            &&& final(ctx).stake_account == old(ctx).stake_account.after_claim(now)
        },
{
    let position = ctx.stake_account;
    if !ctx.staker.same_as(&position.owner) {
        return Err(ErrorCode::Unauthorized);
    }
    let effective = effective_claim_time(position.start_time, now);
    let rewards = compute_reward(
        position.sol_staked,
        position.start_time,
        position.last_claim_time,
        now,
    );
    if rewards > 0 {
        proof {
            // A positive reward means the effective time is past the checkpoint.
            if effective <= position.last_claim_time {
                lemma_no_reward_before_checkpoint(
                    position.sol_staked as int,
                    position.start_time as int,
                    position.last_claim_time as int,
                    now as int,
                );
            }
        }
        ctx.stake_account.last_claim_time = effective;
    }
    Ok(rewards)
}

} // verus!
