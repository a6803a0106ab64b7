use reward_distributor::engine::claim;
use reward_distributor::engine::commit_claim;
use reward_distributor::engine::commit_would_overflow;
use reward_distributor::engine::prepare_claim;
use reward_distributor::state::ClaimError;
use reward_distributor::state::ClaimOutcome;
use reward_distributor::state::ClaimPlan;
use reward_distributor::state::PayoutAction;
use reward_distributor::state::RewardDistributor;
use reward_distributor::state::RewardEntry;
use reward_distributor::state::StakeRecord;
use reward_distributor::state::KIND_CUSTODIAN;
use reward_distributor::state::KIND_ISSUER;

fn issuer(reward_amount: u64, reward_duration_seconds: u64, max_supply: Option<u64>) -> RewardDistributor {
    RewardDistributor {
        stake_pool_id: 7,
        reward_token_id: 11,
        signing_authority: 13,
        kind: KIND_ISSUER,
        reward_amount,
        reward_duration_seconds,
        max_supply,
        rewards_issued: 0,
    }
}

fn custodian(reward_amount: u64, reward_duration_seconds: u64, max_supply: Option<u64>) -> RewardDistributor {
    RewardDistributor { kind: KIND_CUSTODIAN, ..issuer(reward_amount, reward_duration_seconds, max_supply) }
}

fn entry(multiplier: u64) -> RewardEntry {
    RewardEntry {
        staked_asset_id: 21,
        multiplier,
        reward_seconds_received: 0,
        reward_amount_received: 0,
    }
}

fn stake(total_stake_seconds: u64) -> StakeRecord {
    StakeRecord { stake_pool_id: 7, staked_asset_id: 21, total_stake_seconds }
}

#[test]
fn scenario_uncapped_full_credit() {
    let mut d = issuer(100, 10, None);
    let mut e = entry(2);
    let s = stake(25);
    let r = claim(&mut d, &mut e, &s, None);
    assert_eq!(r, Ok(ClaimOutcome { amount_paid: 400 }));
    assert_eq!(d.rewards_issued, 400);
    assert_eq!(e.reward_amount_received, 400);
    assert_eq!(e.reward_seconds_received, 25);
}

#[test]
fn scenario_cap_clamps_amount_and_time() {
    let mut d = issuer(100, 10, Some(300));
    let mut e = entry(2);
    let s = stake(25);
    let r = claim(&mut d, &mut e, &s, None);
    assert_eq!(r, Ok(ClaimOutcome { amount_paid: 300 }));
    assert_eq!(d.rewards_issued, 300);
    assert_eq!(e.reward_amount_received, 300);
    // (300 / 100) * 10 / 2 = 15: ten stake-seconds are spent without reward.
    assert_eq!(e.reward_seconds_received, 15);
}

#[test]
fn scenario_treasury_clamp_truncates_seconds_to_zero() {
    let mut d = custodian(100, 10, None);
    let mut e = entry(2);
    let s = stake(25);
    let r = claim(&mut d, &mut e, &s, Some(50));
    assert_eq!(r, Ok(ClaimOutcome { amount_paid: 50 }));
    assert_eq!(d.rewards_issued, 50);
    assert_eq!(e.reward_amount_received, 50);
    // (50 / 100) * 10 / 2 = 0: a payout happened, yet no time advances.
    assert_eq!(e.reward_seconds_received, 0);
}

#[test]
fn scenario_zero_multiplier_consumes_time() {
    let mut d = issuer(100, 10, None);
    let mut e = entry(0);
    let s = stake(100);
    let r = claim(&mut d, &mut e, &s, None);
    assert_eq!(r, Ok(ClaimOutcome { amount_paid: 0 }));
    assert_eq!(d.rewards_issued, 0);
    assert_eq!(e.reward_amount_received, 0);
    // The whole unclaimed time is forfeited with zero payout.
    assert_eq!(e.reward_seconds_received, 100);
}

#[test]
fn partial_period_pays_nothing_but_credits_time() {
    let mut d = issuer(100, 10, None);
    let mut e = entry(2);
    let s = stake(9);
    let r = claim(&mut d, &mut e, &s, None);
    assert_eq!(r, Ok(ClaimOutcome { amount_paid: 0 }));
    assert_eq!(e.reward_seconds_received, 9);
}

#[test]
fn multiplier_scales_amount() {
    let mut d = issuer(10, 10, None);
    let mut e = entry(3);
    let s = stake(35);
    let r = claim(&mut d, &mut e, &s, None);
    assert_eq!(r, Ok(ClaimOutcome { amount_paid: 90 }));
    assert_eq!(e.reward_seconds_received, 35);
}

#[test]
fn noop_when_nothing_accrued() {
    let mut d = issuer(100, 10, None);
    let mut e = RewardEntry { reward_seconds_received: 30, ..entry(2) };
    let s = stake(25);
    let r = claim(&mut d, &mut e, &s, None);
    assert_eq!(r, Ok(ClaimOutcome { amount_paid: 0 }));
    assert_eq!(d.rewards_issued, 0);
    assert_eq!(e.reward_amount_received, 0);
    assert_eq!(e.reward_seconds_received, 30);
}

#[test]
fn noop_when_cap_exhausted() {
    let mut d = RewardDistributor { rewards_issued: 300, ..issuer(100, 10, Some(300)) };
    let mut e = entry(2);
    let s = stake(25);
    let r = claim(&mut d, &mut e, &s, None);
    assert_eq!(r, Ok(ClaimOutcome { amount_paid: 0 }));
    assert_eq!(d.rewards_issued, 300);
    assert_eq!(e.reward_seconds_received, 0);
}

#[test]
fn noop_even_with_invalid_kind_when_nothing_accrued() {
    let mut d = RewardDistributor { kind: 9, ..issuer(100, 10, None) };
    let mut e = RewardEntry { reward_seconds_received: 30, ..entry(2) };
    let s = stake(25);
    let r = claim(&mut d, &mut e, &s, None);
    assert_eq!(r, Ok(ClaimOutcome { amount_paid: 0 }));
}

#[test]
fn invalid_kind_is_an_error() {
    let mut d = RewardDistributor { kind: 9, ..issuer(100, 10, None) };
    let mut e = entry(2);
    let s = stake(25);
    let r = claim(&mut d, &mut e, &s, None);
    assert_eq!(r, Err(ClaimError::InvalidDistributorKind));
    assert_eq!(d.rewards_issued, 0);
    assert_eq!(e.reward_amount_received, 0);
    assert_eq!(e.reward_seconds_received, 0);
}

#[test]
fn zero_duration_is_a_division_error() {
    let mut d = issuer(100, 0, None);
    let mut e = entry(2);
    let s = stake(25);
    let r = claim(&mut d, &mut e, &s, None);
    assert_eq!(r, Err(ClaimError::DivisionByZero));
    assert_eq!(d.rewards_issued, 0);
    assert_eq!(e.reward_seconds_received, 0);
}

#[test]
fn accrual_overflow_is_an_error_and_a_no_op() {
    let mut d = issuer(2, 1, None);
    let mut e = entry(1);
    let s = stake(u64::MAX);
    let r = claim(&mut d, &mut e, &s, None);
    assert_eq!(r, Err(ClaimError::ArithmeticOverflow));
    assert_eq!(d.rewards_issued, 0);
    assert_eq!(e.reward_amount_received, 0);
    assert_eq!(e.reward_seconds_received, 0);
}

#[test]
fn commit_overflow_is_an_error_and_a_no_op() {
    let mut d = RewardDistributor { rewards_issued: u64::MAX, ..issuer(1, 1, None) };
    let mut e = entry(1);
    let s = stake(5);
    let r = claim(&mut d, &mut e, &s, None);
    assert_eq!(r, Err(ClaimError::ArithmeticOverflow));
    assert_eq!(d.rewards_issued, u64::MAX);
    assert_eq!(e.reward_amount_received, 0);
    assert_eq!(e.reward_seconds_received, 0);
}

#[test]
fn repeat_claim_pays_nothing() {
    let mut d = issuer(100, 10, None);
    let mut e = entry(2);
    let s = stake(25);
    let first = claim(&mut d, &mut e, &s, None);
    assert_eq!(first, Ok(ClaimOutcome { amount_paid: 400 }));
    let second = claim(&mut d, &mut e, &s, None);
    assert_eq!(second, Ok(ClaimOutcome { amount_paid: 0 }));
    assert_eq!(d.rewards_issued, 400);
    assert_eq!(e.reward_amount_received, 400);
    assert_eq!(e.reward_seconds_received, 25);
}

#[test]
fn repeat_claim_at_cap_pays_nothing() {
    let mut d = issuer(100, 10, Some(100));
    let mut e = entry(1);
    let s = stake(10);
    let first = claim(&mut d, &mut e, &s, None);
    assert_eq!(first, Ok(ClaimOutcome { amount_paid: 100 }));
    assert_eq!(d.rewards_issued, 100);
    assert_eq!(e.reward_seconds_received, 10);
    let second = claim(&mut d, &mut e, &s, None);
    assert_eq!(second, Ok(ClaimOutcome { amount_paid: 0 }));
    assert_eq!(d.rewards_issued, 100);
}

#[test]
fn repeat_after_treasury_clamp_consumes_residual_time() {
    let mut d = custodian(1, 10, None);
    let mut e = entry(2);
    let s = stake(10);
    // Owed 2 but the treasury holds 1: pay 1, credit (1/1)*10/2 = 5 seconds.
    let first = claim(&mut d, &mut e, &s, Some(1));
    assert_eq!(first, Ok(ClaimOutcome { amount_paid: 1 }));
    assert_eq!(e.reward_seconds_received, 5);
    // The treasury is now empty: the repeat pays nothing, yet the remaining
    // five seconds fall short of a whole period and are consumed unrewarded.
    let second = claim(&mut d, &mut e, &s, Some(0));
    assert_eq!(second, Ok(ClaimOutcome { amount_paid: 0 }));
    assert_eq!(d.rewards_issued, 1);
    assert_eq!(e.reward_amount_received, 1);
    assert_eq!(e.reward_seconds_received, 10);
}

#[test]
fn repeat_claim_can_fail_on_checked_add_after_treasury_clamp() {
    // A treasury clamp that credits zero seconds leaves the full accrual
    // pending. With the lifetime counter already close to the integer limit,
    // the repeat's cap projection overflows: it fails cleanly instead of
    // paying, and the records stay put.
    let mut d = RewardDistributor {
        rewards_issued: u64::MAX - 41,
        ..custodian(2, 1, Some(u64::MAX))
    };
    let mut e = entry(2);
    let s = stake(10);
    let first = claim(&mut d, &mut e, &s, Some(3));
    assert_eq!(first, Ok(ClaimOutcome { amount_paid: 3 }));
    assert_eq!(e.reward_seconds_received, 0);
    let issued_after_first = d.rewards_issued;
    let second = claim(&mut d, &mut e, &s, Some(0));
    assert_eq!(second, Err(ClaimError::ArithmeticOverflow));
    assert_eq!(d.rewards_issued, issued_after_first);
    assert_eq!(e.reward_amount_received, 3);
    assert_eq!(e.reward_seconds_received, 0);
}

#[test]
fn custodian_with_sufficient_treasury_is_not_clamped() {
    let mut d = custodian(100, 10, None);
    let mut e = entry(2);
    let s = stake(25);
    let r = claim(&mut d, &mut e, &s, Some(400));
    assert_eq!(r, Ok(ClaimOutcome { amount_paid: 400 }));
    assert_eq!(e.reward_seconds_received, 25);
}

#[test]
fn cap_reached_exactly_then_noop() {
    let mut d = issuer(100, 10, Some(100));
    let mut e = entry(1);
    let s = stake(10);
    let r = claim(&mut d, &mut e, &s, None);
    // Owed 100 against a cap of 100: the clamp leaves the full amount and
    // the full (100/100)*10/1 = 10 seconds.
    assert_eq!(r, Ok(ClaimOutcome { amount_paid: 100 }));
    assert_eq!(d.rewards_issued, 100);
    assert_eq!(e.reward_seconds_received, 10);
}

#[test]
fn counters_never_decrease_across_claims() {
    let mut d = issuer(7, 3, Some(500));
    let mut e = entry(2);
    let mut last_issued = 0u64;
    let mut last_amount = 0u64;
    let mut last_seconds = 0u64;
    for total in [5u64, 9, 14, 200, 200, 1000] {
        let s = stake(total);
        let r = claim(&mut d, &mut e, &s, None);
        assert!(r.is_ok());
        assert!(d.rewards_issued >= last_issued);
        assert!(e.reward_amount_received >= last_amount);
        assert!(e.reward_seconds_received >= last_seconds);
        assert!(e.reward_seconds_received <= total);
        if let Some(max) = d.max_supply {
            assert!(d.rewards_issued <= max);
        }
        last_issued = d.rewards_issued;
        last_amount = e.reward_amount_received;
        last_seconds = e.reward_seconds_received;
    }
}

#[test]
fn commit_overflow_is_predictable_before_payout() {
    let saturated = RewardDistributor { rewards_issued: u64::MAX, ..issuer(1, 1, None) };
    let fresh = issuer(1, 1, None);
    let e = entry(1);
    let plan = ClaimPlan { payout: PayoutAction::Mint, amount: 5, seconds_to_credit: 5 };
    assert!(commit_would_overflow(&saturated, &e, &plan));
    assert!(!commit_would_overflow(&fresh, &e, &plan));
}

#[test]
fn two_phase_claim_prepares_then_commits() {
    let mut d = custodian(100, 10, None);
    let mut e = entry(2);
    let s = stake(25);
    let plan = prepare_claim(&d, &e, &s, Some(50)).unwrap();
    assert_eq!(plan.payout, PayoutAction::Transfer);
    assert_eq!(plan.amount, 50);
    assert_eq!(plan.seconds_to_credit, 0);
    // Preparing changed nothing; the caller now performs the transfer and
    // only then commits.
    assert_eq!(d.rewards_issued, 0);
    let r = commit_claim(&mut d, &mut e, &plan);
    assert_eq!(r, Ok(ClaimOutcome { amount_paid: 50 }));
    assert_eq!(d.rewards_issued, 50);
    assert_eq!(e.reward_amount_received, 50);
    assert_eq!(e.reward_seconds_received, 0);
}

#[test]
fn prepare_noop_plan_has_no_payout() {
    let d = issuer(100, 10, None);
    let e = RewardEntry { reward_seconds_received: 30, ..entry(2) };
    let s = stake(25);
    let plan = prepare_claim(&d, &e, &s, None).unwrap();
    assert_eq!(plan.payout, PayoutAction::NoPayout);
    assert_eq!(plan.amount, 0);
    assert_eq!(plan.seconds_to_credit, 0);
}

#[test]
fn issuer_plan_asks_for_a_mint() {
    let d = issuer(100, 10, None);
    let e = entry(2);
    let s = stake(25);
    let plan = prepare_claim(&d, &e, &s, None).unwrap();
    assert_eq!(plan.payout, PayoutAction::Mint);
    assert_eq!(plan.amount, 400);
    assert_eq!(plan.seconds_to_credit, 25);
}
