use sol_staking_vault::{
    claim_rewards, compute_reward, effective_claim_time, initialize_vault, is_valid_stake_amount,
    stake_sol, ClaimRewards, ErrorCode, InitializeVault, Pubkey, StakeAccount, StakeSol,
    MAX_STAKE_AMOUNT_LAMPORTS, MIN_STAKE_AMOUNT_LAMPORTS, SECONDS_PER_DAY,
};

fn key(b: u8) -> Pubkey {
    Pubkey::new([b; 32])
}

fn open(owner: Pubkey, amount: u64, now: i64) -> StakeAccount {
    let mut ctx = StakeSol { staker: owner, stake_account: None };
    assert_eq!(stake_sol(&mut ctx, amount, now), Ok(()));
    ctx.stake_account.unwrap()
}

#[test]
fn hundred_sol_three_days() {
    let owner = key(1);
    let position = open(owner, 100_000_000_000, 0);
    let mut ctx = ClaimRewards { staker: owner, stake_account: position };
    assert_eq!(claim_rewards(&mut ctx, 86_400 * 3), Ok(240_000));
    assert_eq!(ctx.stake_account.last_claim_time, 259_200);
    assert_eq!(ctx.stake_account.start_time, 0);
    assert_eq!(ctx.stake_account.sol_staked, 100_000_000_000);
}

#[test]
fn stake_below_minimum_is_rejected() {
    let mut ctx = StakeSol { staker: key(1), stake_account: None };
    assert_eq!(stake_sol(&mut ctx, 50_000_000, 0), Err(ErrorCode::InvalidStakeAmount));
    assert_eq!(ctx.stake_account, None);
}

#[test]
fn stake_above_maximum_is_rejected() {
    let mut ctx = StakeSol { staker: key(1), stake_account: None };
    assert_eq!(
        stake_sol(&mut ctx, MAX_STAKE_AMOUNT_LAMPORTS + 1, 0),
        Err(ErrorCode::InvalidStakeAmount)
    );
    assert_eq!(ctx.stake_account, None);
}

#[test]
fn stake_bounds_are_inclusive() {
    assert!(is_valid_stake_amount(MIN_STAKE_AMOUNT_LAMPORTS));
    assert!(is_valid_stake_amount(MAX_STAKE_AMOUNT_LAMPORTS));
    assert!(!is_valid_stake_amount(MIN_STAKE_AMOUNT_LAMPORTS - 1));
    assert!(!is_valid_stake_amount(0));
    assert!(!is_valid_stake_amount(u64::MAX));
}

#[test]
fn fractional_sol_is_truncated() {
    let owner = key(2);
    let position = open(owner, 1_999_999_999, 0);
    let mut ctx = ClaimRewards { staker: owner, stake_account: position };
    assert_eq!(claim_rewards(&mut ctx, 86_400), Ok(800));
    assert_eq!(ctx.stake_account.last_claim_time, 86_400);
}

#[test]
fn reward_is_capped_at_hundred_days() {
    let owner = key(3);
    let position = open(owner, 100_000_000_000, 0);
    assert_eq!(effective_claim_time(0, 86_400 * 150), 8_640_000);
    let mut ctx = ClaimRewards { staker: owner, stake_account: position };
    assert_eq!(claim_rewards(&mut ctx, 86_400 * 150), Ok(100 * 800 * 100));
    assert_eq!(ctx.stake_account.last_claim_time, 8_640_000);
}

#[test]
fn new_position_checkpoint_is_opening_time() {
    let owner = key(4);
    let position = open(owner, 5_000_000_000, 1_700_000_000);
    assert_eq!(position.owner, owner);
    assert_eq!(position.sol_staked, 5_000_000_000);
    assert_eq!(position.start_time, 1_700_000_000);
    assert_eq!(position.last_claim_time, position.start_time);
}

#[test]
fn stake_into_occupied_slot_is_rejected() {
    let owner = key(4);
    let existing = open(owner, 5_000_000_000, 10);
    let mut ctx = StakeSol { staker: owner, stake_account: Some(existing) };
    assert_eq!(stake_sol(&mut ctx, 7_000_000_000, 20), Err(ErrorCode::AlreadyInitialized));
    assert_eq!(ctx.stake_account, Some(existing));
}

#[test]
fn claims_within_a_day_keep_checkpoint() {
    let owner = key(5);
    let position = open(owner, 10_000_000_000, 1_000);
    let mut ctx = ClaimRewards { staker: owner, stake_account: position };
    assert_eq!(claim_rewards(&mut ctx, 1_000 + 3_600), Ok(0));
    assert_eq!(ctx.stake_account, position);
    assert_eq!(claim_rewards(&mut ctx, 1_000 + 86_399), Ok(0));
    assert_eq!(ctx.stake_account, position);
}

#[test]
fn repeated_claim_at_same_time_pays_once() {
    let owner = key(5);
    let position = open(owner, 10_000_000_000, 0);
    let mut ctx = ClaimRewards { staker: owner, stake_account: position };
    assert_eq!(claim_rewards(&mut ctx, 86_400 * 2 + 500), Ok(10 * 800 * 2));
    let after_first = ctx.stake_account;
    assert_eq!(after_first.last_claim_time, 86_400 * 2 + 500);
    assert_eq!(claim_rewards(&mut ctx, 86_400 * 2 + 500), Ok(0));
    assert_eq!(ctx.stake_account, after_first);
}

#[test]
fn sub_day_remainder_is_discarded() {
    let owner = key(6);
    let position = open(owner, 1_000_000_000, 0);
    let mut ctx = ClaimRewards { staker: owner, stake_account: position };
    assert_eq!(claim_rewards(&mut ctx, 86_400 + 43_200), Ok(800));
    assert_eq!(ctx.stake_account.last_claim_time, 86_400 + 43_200);
    // Half a day of the first span plus half a day now is not a whole day.
    assert_eq!(claim_rewards(&mut ctx, 2 * 86_400 + 43_199), Ok(0));
    assert_eq!(ctx.stake_account.last_claim_time, 86_400 + 43_200);
}

#[test]
fn checkpoint_never_decreases_over_claims() {
    let owner = key(7);
    let position = open(owner, 3_000_000_000, 100);
    let mut ctx = ClaimRewards { staker: owner, stake_account: position };
    let mut last = ctx.stake_account.last_claim_time;
    for now in [50, 100, 90_000, 80_000, 500_000, 500_001, 9_000_000, 20_000_000, 0] {
        assert!(claim_rewards(&mut ctx, now).is_ok());
        assert!(ctx.stake_account.last_claim_time >= last);
        last = ctx.stake_account.last_claim_time;
    }
    assert_eq!(last, 100 + 8_640_000);
}

#[test]
fn no_reward_after_period_checkpoint() {
    let owner = key(8);
    let position = open(owner, 100_000_000_000, 0);
    let mut ctx = ClaimRewards { staker: owner, stake_account: position };
    assert_eq!(claim_rewards(&mut ctx, 100 * 86_400), Ok(8_000_000));
    let settled = ctx.stake_account;
    for now in [100 * 86_400, 101 * 86_400, 150 * 86_400, i64::MAX] {
        assert_eq!(claim_rewards(&mut ctx, now), Ok(0));
        assert_eq!(ctx.stake_account, settled);
    }
}

#[test]
fn less_than_a_day_short_of_the_end_earns_nothing_more() {
    let owner = key(8);
    let mut position = open(owner, 100_000_000_000, 0);
    position.last_claim_time = 100 * 86_400 - 1_000;
    let mut ctx = ClaimRewards { staker: owner, stake_account: position };
    assert_eq!(claim_rewards(&mut ctx, 120 * 86_400), Ok(0));
    assert_eq!(claim_rewards(&mut ctx, i64::MAX), Ok(0));
    assert_eq!(ctx.stake_account, position);
}

#[test]
fn claim_by_stranger_is_unauthorized() {
    let owner = key(9);
    let position = open(owner, 100_000_000_000, 0);
    let mut stranger_bytes = [9u8; 32];
    stranger_bytes[31] = 10;
    let mut ctx = ClaimRewards { staker: Pubkey::new(stranger_bytes), stake_account: position };
    assert_eq!(claim_rewards(&mut ctx, 86_400 * 10), Err(ErrorCode::Unauthorized));
    assert_eq!(ctx.stake_account, position);
}

#[test]
fn less_than_one_sol_never_earns() {
    let owner = key(10);
    let position = open(owner, 999_999_999, 0);
    let mut ctx = ClaimRewards { staker: owner, stake_account: position };
    assert_eq!(claim_rewards(&mut ctx, 86_400 * 99), Ok(0));
    assert_eq!(ctx.stake_account, position);
}

#[test]
fn clock_before_checkpoint_earns_nothing() {
    let owner = key(11);
    let position = open(owner, 50_000_000_000, 1_000_000);
    let mut ctx = ClaimRewards { staker: owner, stake_account: position };
    assert_eq!(claim_rewards(&mut ctx, 0), Ok(0));
    assert_eq!(claim_rewards(&mut ctx, i64::MIN), Ok(0));
    assert_eq!(ctx.stake_account, position);
}

#[test]
fn compute_reward_formula() {
    assert_eq!(compute_reward(100_000_000_000, 0, 0, 3 * SECONDS_PER_DAY), 240_000);
    assert_eq!(compute_reward(1_999_999_999, 0, 0, SECONDS_PER_DAY), 800);
    assert_eq!(compute_reward(42_500_000_000, 10, 10, 10 + 7 * SECONDS_PER_DAY + 5), 42 * 800 * 7);
    assert_eq!(compute_reward(100_000_000_000, 0, 0, 150 * SECONDS_PER_DAY), 8_000_000);
}

#[test]
fn effective_time_near_the_largest_timestamp() {
    assert_eq!(effective_claim_time(i64::MAX - 5, 0), 0);
    assert_eq!(effective_claim_time(i64::MAX - 5, i64::MAX), i64::MAX);
    assert_eq!(effective_claim_time(0, 1), 1);
    assert_eq!(effective_claim_time(0, i64::MAX), 8_640_000);
}

#[test]
fn vault_is_created_once() {
    let mut ctx = InitializeVault { vault: None };
    assert_eq!(initialize_vault(&mut ctx, key(20)), Ok(()));
    assert_eq!(ctx.vault.unwrap().reward_mint, key(20));
    assert_eq!(initialize_vault(&mut ctx, key(21)), Err(ErrorCode::AlreadyInitialized));
    assert_eq!(ctx.vault.unwrap().reward_mint, key(20));
}

#[test]
fn keys_compare_byte_for_byte() {
    let a = key(1);
    let mut bytes = [1u8; 32];
    assert!(a.same_as(&Pubkey::new(bytes)));
    bytes[0] = 2;
    assert!(!a.same_as(&Pubkey::new(bytes)));
    assert_eq!(Pubkey::new(bytes).to_bytes(), bytes);
}
