//! The accrual engine: stake bounds, the capped claim window, and the
//! reward owed for a span of whole days.
use vstd::prelude::*;

verus! {

/// Smallest stake accepted: 0.1 SOL.
pub const MIN_STAKE_AMOUNT_LAMPORTS: u64 = 100_000_000;

/// Largest stake accepted: 100 SOL.
pub const MAX_STAKE_AMOUNT_LAMPORTS: u64 = 100_000_000_000;

/// Lamports in one whole SOL.
pub const LAMPORTS_PER_SOL: u64 = 1_000_000_000;

pub const SECONDS_PER_DAY: i64 = 86_400;

/// Reward tokens paid per whole SOL staked per whole day elapsed.
pub const REWARD_RATE: u64 = 800;

/// Days after opening during which a position accrues rewards.
pub const REWARD_PERIOD_DAYS: i64 = 100;

pub const REWARD_PERIOD_SECONDS: i64 = REWARD_PERIOD_DAYS * SECONDS_PER_DAY;

pub open spec fn stake_amount_in_bounds(amount: int) -> bool {
    MIN_STAKE_AMOUNT_LAMPORTS <= amount <= MAX_STAKE_AMOUNT_LAMPORTS
}

/// The end of the accrual period of a position opened at `start`.
pub open spec fn period_end(start: int) -> int {
    start + REWARD_PERIOD_DAYS * SECONDS_PER_DAY
}

/// The time up to which a claim made at `now` can accrue: `now`, clamped to
/// the end of the accrual period.
pub open spec fn effective_time(start: int, now: int) -> int {
    if now <= period_end(start) {
        now
    } else {
        period_end(start)
    }
}

/// Whole days from the checkpoint `last` to the effective time, rounded
/// down; negative when the effective time lies before the checkpoint.
pub open spec fn elapsed_whole_days(start: int, last: int, now: int) -> int {
    (effective_time(start, now) - last) / (SECONDS_PER_DAY as int)
}

/// Whole SOL in a stake; a fraction of a SOL earns nothing.
pub open spec fn whole_units(staked: int) -> int {
    staked / (LAMPORTS_PER_SOL as int)
}

/// The linear accrual formula, before any decision to pay.
pub open spec fn accrued_reward(staked: int, start: int, last: int, now: int) -> int {
    whole_units(staked) * REWARD_RATE * elapsed_whole_days(start, last, now)
}

/// What a claim at `now` pays: the accrued reward when it is positive, else
/// nothing.
pub open spec fn reward_due(staked: int, start: int, last: int, now: int) -> int {
    let r = accrued_reward(staked, start, last, now);
    if r > 0 {
        r
    } else {
        0
    }
}

/// Whether `amount` lamports may be staked.
pub fn is_valid_stake_amount(amount: u64) -> (r: bool)
    ensures
        r == stake_amount_in_bounds(amount as int),
{
    amount >= MIN_STAKE_AMOUNT_LAMPORTS && amount <= MAX_STAKE_AMOUNT_LAMPORTS
}

/// The time up to which a claim at `now` accrues, for a position opened at
/// `start`.
pub fn effective_claim_time(start: i64, now: i64) -> (r: i64)
    ensures
        r == effective_time(start as int, now as int),
{
    // When the period end lies past the largest timestamp, `now` is before it.
    if start > i64::MAX - REWARD_PERIOD_SECONDS {
        now
    } else {
        let end = start + REWARD_PERIOD_SECONDS;
        if now <= end {
            now
        } else {
            end
        }
    }
}

/// The reward owed by a claim at `now` on a stake of `sol_staked` lamports
/// opened at `start_time` and last checkpointed at `last_claim_time`.
pub fn compute_reward(sol_staked: u64, start_time: i64, last_claim_time: i64, now: i64) -> (r: u64)
    requires
        sol_staked <= MAX_STAKE_AMOUNT_LAMPORTS,
        start_time <= last_claim_time,
    ensures
        r == reward_due(sol_staked as int, start_time as int, last_claim_time as int, now as int),
{
    let effective = effective_claim_time(start_time, now);
    let units = sol_staked / LAMPORTS_PER_SOL;
    proof {
        lemma_units_bound(sol_staked as int);
    }
    if effective <= last_claim_time {
        proof {
            lemma_no_reward_before_checkpoint(
                sol_staked as int,
                start_time as int,
                last_claim_time as int,
                now as int,
            );
        }
        return 0;
    }
    let elapsed = effective - last_claim_time;
    assert(0 < elapsed <= REWARD_PERIOD_SECONDS);
    let days = elapsed / SECONDS_PER_DAY;
    assert(0 <= days <= REWARD_PERIOD_DAYS) by (nonlinear_arith)
        requires
            0 < elapsed <= 8_640_000,
            days == elapsed / 86_400,
    ;
    let days = days as u64;
    assert(units * REWARD_RATE * days <= 100 * 800 * 100) by (nonlinear_arith)
        requires
            units <= 100,
            days <= 100,
            REWARD_RATE == 800,
    ;
    let reward = units * REWARD_RATE * days;
    assert(reward >= 0) by (nonlinear_arith)
        requires
            units >= 0,
            days >= 0,
            reward == units * 800 * days,
    ;
    reward
}

proof fn lemma_units_bound(staked: int)
    requires
        0 <= staked <= MAX_STAKE_AMOUNT_LAMPORTS,
    ensures
        0 <= whole_units(staked) <= 100,
{
    assert(0 <= staked / 1_000_000_000 <= 100) by (nonlinear_arith)
        requires
            0 <= staked <= 100_000_000_000,
    ;
}

/// No reward accrues while the effective time has not passed the checkpoint.
pub proof fn lemma_no_reward_before_checkpoint(staked: int, start: int, last: int, now: int)
    requires
        0 <= staked,
        effective_time(start, now) <= last,
    ensures
        elapsed_whole_days(start, last, now) <= 0,
        accrued_reward(staked, start, last, now) <= 0,
        reward_due(staked, start, last, now) == 0,
{
    let e = effective_time(start, now) - last;
    let d = elapsed_whole_days(start, last, now);
    let u = whole_units(staked);
    assert(d <= 0) by (nonlinear_arith)
        requires
            e <= 0,
            d == e / 86_400,
    ;
    assert(u >= 0) by (nonlinear_arith)
        requires
            staked >= 0,
            u == staked / 1_000_000_000,
    ;
    assert(u * 800 * d <= 0) by (nonlinear_arith)
        requires
            u >= 0,
            d <= 0,
    ;
}

} // verus!
