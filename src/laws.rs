//! Properties of the ledger that span several claims.
use crate::accrual::{
    accrued_reward, effective_time, elapsed_whole_days, lemma_no_reward_before_checkpoint,
    period_end, reward_due, whole_units, SECONDS_PER_DAY,
};
use crate::ledger::StakeAccount;
use vstd::prelude::*;

verus! {

/// The position after its owner claims at each of `times`, in order.
pub open spec fn claims_in_order(p: StakeAccount, times: Seq<i64>) -> StakeAccount
    decreases times.len(),
{
    if times.len() == 0 {
        p
    } else {
        claims_in_order(p, times.drop_last()).after_claim(times.last())
    }
}

/// A positive accrued reward needs at least one whole SOL staked and at
/// least one whole day elapsed.
proof fn lemma_positive_reward_factors(staked: int, start: int, last: int, now: int)
    requires
        0 <= staked,
        accrued_reward(staked, start, last, now) > 0,
    ensures
        whole_units(staked) >= 1,
        elapsed_whole_days(start, last, now) >= 1,
        effective_time(start, now) - last >= SECONDS_PER_DAY,
{
    let u = whole_units(staked);
    let d = elapsed_whole_days(start, last, now);
    let e = effective_time(start, now) - last;
    assert(u >= 0) by (nonlinear_arith)
        requires
            staked >= 0,
            u == staked / 1_000_000_000,
    ;
    assert(u >= 1 && d >= 1) by (nonlinear_arith)
        requires
            u >= 0,
            u * 800 * d > 0,
    ;
    assert(e >= 86_400) by (nonlinear_arith)
        requires
            d >= 1,
            d == e / 86_400,
    ;
}

/// A claim keeps a position well formed and never moves its checkpoint back.
pub proof fn lemma_claim_step(p: StakeAccount, now: i64)
    requires
        p.wf(),
    ensures
        p.after_claim(now).wf(),
        p.after_claim(now).last_claim_time >= p.last_claim_time,
        p.after_claim(now).owner == p.owner,
        p.after_claim(now).sol_staked == p.sol_staked,
        p.after_claim(now).start_time == p.start_time,
{
    if p.reward_due_at(now) > 0 {
        lemma_positive_reward_factors(
            p.sol_staked as int,
            p.start_time as int,
            p.last_claim_time as int,
            now as int,
        );
    }
}

/// Two claims that each come less than a whole day after the checkpoint
/// pay nothing and leave the checkpoint where it was.
pub proof fn lemma_claims_within_a_day_keep_checkpoint(p: StakeAccount, t1: i64, t2: i64)
    requires
        p.wf(),
        effective_time(p.start_time as int, t1 as int) - p.last_claim_time < SECONDS_PER_DAY,
        effective_time(p.start_time as int, t2 as int) - p.last_claim_time < SECONDS_PER_DAY,
    ensures
        p.reward_due_at(t1) == 0,
        p.after_claim(t1) == p,
        p.after_claim(t1).reward_due_at(t2) == 0,
        p.after_claim(t1).after_claim(t2) == p,
{
    if p.reward_due_at(t1) > 0 {
        lemma_positive_reward_factors(
            p.sol_staked as int,
            p.start_time as int,
            p.last_claim_time as int,
            t1 as int,
        );
    }
    if p.reward_due_at(t2) > 0 {
        lemma_positive_reward_factors(
            p.sol_staked as int,
            p.start_time as int,
            p.last_claim_time as int,
            t2 as int,
        );
    }
}

/// Claiming again at the same time changes nothing: a claim is idempotent.
pub proof fn lemma_repeated_claim_is_noop(p: StakeAccount, now: i64)
    requires
        p.wf(),
    ensures
        p.after_claim(now).reward_due_at(now) == 0,
        p.after_claim(now).after_claim(now) == p.after_claim(now),
{
    let q = p.after_claim(now);
    if p.reward_due_at(now) > 0 {
        lemma_positive_reward_factors(
            p.sol_staked as int,
            p.start_time as int,
            p.last_claim_time as int,
            now as int,
        );
        assert(q.last_claim_time == effective_time(q.start_time as int, now as int));
        lemma_no_reward_before_checkpoint(
            q.sol_staked as int,
            q.start_time as int,
            q.last_claim_time as int,
            now as int,
        );
    }
}

/// Over any sequence of claims the checkpoint never decreases: after `i`
/// claims it is no later than after `j >= i` of them.
pub proof fn lemma_checkpoint_never_decreases(p: StakeAccount, times: Seq<i64>, i: int, j: int)
    requires
        p.wf(),
        0 <= i <= j <= times.len(),
    ensures
        claims_in_order(p, times.take(j)).wf(),
        claims_in_order(p, times.take(i)).last_claim_time <= claims_in_order(
            p,
            times.take(j),
        ).last_claim_time,
    decreases j,
{
    if j == 0 {
        assert(times.take(0) =~= Seq::<i64>::empty());
    } else {
        let k = if i == j {
            j - 1
        } else {
            i
        };
        lemma_checkpoint_never_decreases(p, times, k, j - 1);
        assert(times.take(j).drop_last() =~= times.take(j - 1));
        lemma_claim_step(claims_in_order(p, times.take(j - 1)), times[j - 1]);
    }
}

/// A position whose checkpoint has reached the end of its accrual period
/// earns nothing more, whenever it is claimed.
pub proof fn lemma_no_reward_past_period_checkpoint(p: StakeAccount, now: i64)
    requires
        p.wf(),
        p.last_claim_time >= period_end(p.start_time as int),
    ensures
        p.reward_due_at(now) == 0,
        p.after_claim(now) == p,
{
    lemma_no_reward_before_checkpoint(
        p.sol_staked as int,
        p.start_time as int,
        p.last_claim_time as int,
        now as int,
    );
}

/// Once the owner has claimed at or after the end of the accrual period,
/// every later claim pays nothing.
pub proof fn lemma_no_reward_after_claim_past_period(p: StakeAccount, t1: i64, t2: i64)
    requires
        p.wf(),
        t1 >= period_end(p.start_time as int),
    ensures
        p.after_claim(t1).reward_due_at(t2) == 0,
{
    let q = p.after_claim(t1);
    lemma_claim_step(p, t1);
    if p.reward_due_at(t1) > 0 {
        lemma_no_reward_past_period_checkpoint(q, t2);
    } else if q.reward_due_at(t2) > 0 {
        lemma_positive_reward_factors(
            q.sol_staked as int,
            q.start_time as int,
            q.last_claim_time as int,
            t2 as int,
        );
        // The effective time of the first claim was the period end, and no
        // later effective time goes past it.
        assert(effective_time(p.start_time as int, t1 as int) == period_end(p.start_time as int));
        assert(effective_time(p.start_time as int, t1 as int) - p.last_claim_time >= SECONDS_PER_DAY);
        let e = effective_time(p.start_time as int, t1 as int) - p.last_claim_time;
        assert(elapsed_whole_days(p.start_time as int, p.last_claim_time as int, t1 as int) >= 1)
            by (nonlinear_arith)
            requires
                e >= 86_400,
                elapsed_whole_days(p.start_time as int, p.last_claim_time as int, t1 as int) == e
                    / 86_400,
        ;
        assert(accrued_reward(
            p.sol_staked as int,
            p.start_time as int,
            p.last_claim_time as int,
            t1 as int,
        ) > 0) by (nonlinear_arith)
            requires
                whole_units(p.sol_staked as int) >= 1,
                elapsed_whole_days(p.start_time as int, p.last_claim_time as int, t1 as int) >= 1,
                accrued_reward(
                    p.sol_staked as int,
                    p.start_time as int,
                    p.last_claim_time as int,
                    t1 as int,
                ) == whole_units(p.sol_staked as int) * 800 * elapsed_whole_days(
                    p.start_time as int,
                    p.last_claim_time as int,
                    t1 as int,
                ),
        ;
        assert(reward_due(
            p.sol_staked as int,
            p.start_time as int,
            p.last_claim_time as int,
            t1 as int,
        ) > 0);
    }
}

} // verus!
