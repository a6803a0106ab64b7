//! The reward-accrual engine: how much a participant is owed for unclaimed
//! stake-time, how that amount is clamped by the supply cap or the treasury
//! balance, which payout the claim asks for, and the atomic commit of the
//! three bookkeeping counters.
//!
//! A claim is computed in a fixed order of truncating integer steps, and the
//! order matters: each floor division discards a fractional period, so the
//! specification functions below restate the exact computation rather than an
//! algebraic simplification of it.
//!
//! A claim runs in two phases. [`prepare_claim`] reads the records and
//! computes a [`ClaimPlan`] without touching anything; the caller then
//! performs the plan's external payout; [`commit_claim`] applies the counter
//! updates, all of them or none. [`claim`] composes the two phases for a
//! payout executor that cannot fail.

use vstd::prelude::*;

use crate::state::ClaimError;
use crate::state::ClaimOutcome;
use crate::state::ClaimPlan;
use crate::state::PayoutAction;
use crate::state::RewardDistributor;
use crate::state::RewardEntry;
use crate::state::StakeRecord;
use crate::state::KIND_CUSTODIAN;
use crate::state::KIND_ISSUER;

verus! {

/// A claim makes progress only when the entry has unconverted stake-time and
/// the distributor's emission is not exhausted. When this guard fails the
/// claim is a successful no-op, not an error: nothing is paid, nothing moves.
pub open spec fn claim_makes_progress(
    d: RewardDistributor,
    e: RewardEntry,
    total_stake_seconds: u64,
) -> bool {
    &&& e.reward_seconds_received <= total_stake_seconds
    &&& (d.max_supply is Some ==> d.rewards_issued < d.max_supply.unwrap())
}

/// Reward units owed for `unclaimed` stake-seconds before any clamp: the
/// number of whole reward periods (floor), times the per-period amount, times
/// the entry's multiplier — in that order.
pub open spec fn owed_for(d: RewardDistributor, e: RewardEntry, unclaimed: u64) -> int
    recommends
        d.reward_duration_seconds > 0,
{
    ((unclaimed as int / d.reward_duration_seconds as int) * d.reward_amount as int)
        * e.multiplier as int
}

/// Stake-seconds credited for a clamped amount: the inverse mapping with the
/// same truncating order — floor-divide by the per-period amount, scale by
/// the period length, floor-divide by the multiplier. Residual time beyond
/// what maps back to the clamped amount is forfeited, not preserved.
pub open spec fn seconds_for_amount(d: RewardDistributor, e: RewardEntry, amount: u64) -> int
    recommends
        d.reward_amount > 0,
        e.multiplier > 0,
{
    ((amount as int / d.reward_amount as int) * d.reward_duration_seconds as int)
        / e.multiplier as int
}

/// [`seconds_for_amount`] with the checked-arithmetic failure cases of the
/// clamp recomputation, in the order the steps run: divide, multiply, divide.
pub open spec fn spec_clamped_seconds(
    d: RewardDistributor,
    e: RewardEntry,
    amount: u64,
) -> Result<u64, ClaimError> {
    if d.reward_amount == 0 {
        Err(ClaimError::DivisionByZero)
    } else if (amount as int / d.reward_amount as int) * d.reward_duration_seconds as int
        > u64::MAX {
        Err(ClaimError::ArithmeticOverflow)
    } else if e.multiplier == 0 {
        Err(ClaimError::DivisionByZero)
    } else {
        Ok(seconds_for_amount(d, e, amount) as u64)
    }
}

/// The payout dispatch on a computed amount: an issuer mints it as it stands;
/// a custodian first clamps it to what the treasury actually holds, crediting
/// only the stake-time that maps back to the reduced amount; any other kind
/// is a configuration error.
pub open spec fn spec_dispatch(
    d: RewardDistributor,
    e: RewardEntry,
    amount: u64,
    seconds_to_credit: u64,
    treasury_balance: Option<u64>,
) -> Result<ClaimPlan, ClaimError> {
    if d.kind == KIND_ISSUER {
        Ok(ClaimPlan { payout: PayoutAction::Mint, amount, seconds_to_credit })
    } else if d.kind == KIND_CUSTODIAN {
        let balance = treasury_balance.unwrap();
        if amount > balance {
            match spec_clamped_seconds(d, e, balance) {
                Ok(s) => Ok(
                    ClaimPlan { payout: PayoutAction::Transfer, amount: balance, seconds_to_credit: s },
                ),
                Err(err) => Err(err),
            }
        } else {
            Ok(ClaimPlan { payout: PayoutAction::Transfer, amount, seconds_to_credit })
        }
    } else {
        Err(ClaimError::InvalidDistributorKind)
    }
}

/// The full claim computation, record reads to plan: the no-op guard, the
/// owed amount in its exact truncating order, the supply-cap clamp, and the
/// payout dispatch with its treasury clamp. Every checked step that fails
/// turns into the corresponding error, before anything is mutated.
pub open spec fn spec_prepare(
    d: RewardDistributor,
    e: RewardEntry,
    total_stake_seconds: u64,
    treasury_balance: Option<u64>,
) -> Result<ClaimPlan, ClaimError> {
    if !claim_makes_progress(d, e, total_stake_seconds) {
        Ok(ClaimPlan { payout: PayoutAction::NoPayout, amount: 0, seconds_to_credit: 0 })
    } else if d.reward_duration_seconds == 0 {
        Err(ClaimError::DivisionByZero)
    } else {
        let unclaimed = (total_stake_seconds - e.reward_seconds_received) as u64;
        let periods = unclaimed as int / d.reward_duration_seconds as int;
        if periods * d.reward_amount as int > u64::MAX {
            Err(ClaimError::ArithmeticOverflow)
        } else if (periods * d.reward_amount as int) * e.multiplier as int > u64::MAX {
            Err(ClaimError::ArithmeticOverflow)
        } else {
            let owed = owed_for(d, e, unclaimed) as u64;
            if d.max_supply is Some && d.rewards_issued as int + owed as int > u64::MAX {
                Err(ClaimError::ArithmeticOverflow)
            } else if d.max_supply is Some && d.rewards_issued + owed >= d.max_supply.unwrap() {
                let capped = (d.max_supply.unwrap() - d.rewards_issued) as u64;
                match spec_clamped_seconds(d, e, capped) {
                    Ok(s) => spec_dispatch(d, e, capped, s, treasury_balance),
                    Err(err) => Err(err),
                }
            } else {
                spec_dispatch(d, e, owed, unclaimed, treasury_balance)
            }
        }
    }
}

/// The commit of a prepared claim: all three counters advance, or an overflow
/// fails the claim with none of them changed.
pub open spec fn spec_commit(
    d: RewardDistributor,
    e: RewardEntry,
    plan: ClaimPlan,
) -> Result<(RewardDistributor, RewardEntry), ClaimError> {
    if d.rewards_issued as int + plan.amount as int > u64::MAX {
        Err(ClaimError::ArithmeticOverflow)
    } else if e.reward_amount_received as int + plan.amount as int > u64::MAX {
        Err(ClaimError::ArithmeticOverflow)
    } else if e.reward_seconds_received as int + plan.seconds_to_credit as int > u64::MAX {
        Err(ClaimError::ArithmeticOverflow)
    } else {
        Ok(
            (
                RewardDistributor {
                    rewards_issued: (d.rewards_issued + plan.amount) as u64,
                    ..d
                },
                RewardEntry {
                    reward_amount_received: (e.reward_amount_received + plan.amount) as u64,
                    reward_seconds_received: (e.reward_seconds_received + plan.seconds_to_credit)
                        as u64,
                    ..e
                },
            ),
        )
    }
}

/// The whole state transition of one claim whose external payout succeeds:
/// prepare, then commit, yielding the updated records and the amount paid.
pub open spec fn spec_claim(
    d: RewardDistributor,
    e: RewardEntry,
    total_stake_seconds: u64,
    treasury_balance: Option<u64>,
) -> Result<(RewardDistributor, RewardEntry, u64), ClaimError> {
    match spec_prepare(d, e, total_stake_seconds, treasury_balance) {
        Ok(plan) => match spec_commit(d, e, plan) {
            Ok((d2, e2)) => Ok((d2, e2, plan.amount)),
            Err(err) => Err(err),
        },
        Err(err) => Err(err),
    }
}

/// The clamp recomputation: stake-seconds credited for an amount reduced by
/// the supply cap or the treasury balance.
fn clamped_seconds(d: &RewardDistributor, e: &RewardEntry, amount: u64) -> (r: Result<
    u64,
    ClaimError,
>)
    ensures
        r == spec_clamped_seconds(*d, *e, amount),
{
    let per_period = match amount.checked_div(d.reward_amount) {
        Some(q) => q,
        None => { return Err(ClaimError::DivisionByZero) },
    };
    let scaled = match per_period.checked_mul(d.reward_duration_seconds) {
        Some(x) => x,
        None => { return Err(ClaimError::ArithmeticOverflow) },
    };
    match scaled.checked_div(e.multiplier) {
        Some(s) => Ok(s),
        None => Err(ClaimError::DivisionByZero),
    }
}

/// Computes one claim without changing anything: how much is owed for the
/// stake-time this entry has not yet converted, clamped to what the cap and
/// (for a custodian) the treasury can still pay, and which payout the caller
/// must perform before committing.
///
/// The relationship preconditions — the distributor governs the pool that
/// owns the stake, and the entry tracks the staked asset — are validated at
/// the boundary before the engine runs, and a custodian's caller must have
/// read the treasury balance the transfer would draw from.
pub fn prepare_claim(
    d: &RewardDistributor,
    e: &RewardEntry,
    stake: &StakeRecord,
    treasury_balance: Option<u64>,
) -> (r: Result<ClaimPlan, ClaimError>)
    requires
        d.stake_pool_id == stake.stake_pool_id,
        e.staked_asset_id == stake.staked_asset_id,
        d.kind == KIND_CUSTODIAN ==> treasury_balance is Some,
    ensures
        r == spec_prepare(*d, *e, stake.total_stake_seconds, treasury_balance),
{
    if !(e.reward_seconds_received <= stake.total_stake_seconds && (d.max_supply.is_none()
        || d.rewards_issued < d.max_supply.unwrap())) {
        return Ok(ClaimPlan { payout: PayoutAction::NoPayout, amount: 0, seconds_to_credit: 0 });
    }
    let unclaimed: u64 = stake.total_stake_seconds - e.reward_seconds_received;
    let periods = match unclaimed.checked_div(d.reward_duration_seconds) {
        Some(p) => p,
        None => { return Err(ClaimError::DivisionByZero) },
    };
    let base = match periods.checked_mul(d.reward_amount) {
        Some(x) => x,
        None => { return Err(ClaimError::ArithmeticOverflow) },
    };
    let mut amount = match base.checked_mul(e.multiplier) {
        Some(x) => x,
        None => { return Err(ClaimError::ArithmeticOverflow) },
    };
    let mut seconds_to_credit = unclaimed;

    if d.max_supply.is_some() {
        let max_supply = d.max_supply.unwrap();
        let projected = match d.rewards_issued.checked_add(amount) {
            Some(x) => x,
            None => { return Err(ClaimError::ArithmeticOverflow) },
        };
        if projected >= max_supply {
            amount = max_supply - d.rewards_issued;
            seconds_to_credit = match clamped_seconds(d, e, amount) {
                Ok(s) => s,
                Err(err) => { return Err(err) },
            };
        }
    }

    if d.kind == KIND_ISSUER {
        Ok(ClaimPlan { payout: PayoutAction::Mint, amount, seconds_to_credit })
    } else if d.kind == KIND_CUSTODIAN {
        let balance = treasury_balance.unwrap();
        if amount > balance {
            amount = balance;
            seconds_to_credit = match clamped_seconds(d, e, amount) {
                Ok(s) => s,
                Err(err) => { return Err(err) },
            };
        }
        Ok(ClaimPlan { payout: PayoutAction::Transfer, amount, seconds_to_credit })
    } else {
        Err(ClaimError::InvalidDistributorKind)
    }
}

/// Whether committing `plan` would fail on a checked addition. A caller
/// whose payout cannot be undone checks this before performing it: when this
/// returns false, [`commit_claim`] on the same records and plan succeeds, so
/// the payout and the counter updates stand or fall together.
pub fn commit_would_overflow(d: &RewardDistributor, e: &RewardEntry, plan: &ClaimPlan) -> (r:
    bool)
    ensures
        r == (spec_commit(*d, *e, *plan) is Err),
{
    d.rewards_issued > u64::MAX - plan.amount || e.reward_amount_received > u64::MAX
        - plan.amount || e.reward_seconds_received > u64::MAX - plan.seconds_to_credit
}

/// Applies a prepared claim to the records, to be called only once the plan's
/// external payout has succeeded. Either all three counters advance — the
/// distributor's lifetime total and the entry's amount and seconds — or an
/// overflow fails the claim and both records are exactly as they were.
pub fn commit_claim(d: &mut RewardDistributor, e: &mut RewardEntry, plan: &ClaimPlan) -> (r:
    Result<ClaimOutcome, ClaimError>)
    ensures
        (match spec_commit(*old(d), *old(e), *plan) {
            Ok((d2, e2)) => *final(d) == d2 && *final(e) == e2 && r == Ok::<
                ClaimOutcome,
                ClaimError,
            >(ClaimOutcome { amount_paid: plan.amount }),
            Err(err) => *final(d) == *old(d) && *final(e) == *old(e) && r == Err::<
                ClaimOutcome,
                ClaimError,
            >(err),
        }),
        r is Err ==> *final(d) == *old(d) && *final(e) == *old(e),
{
    let new_issued = match d.rewards_issued.checked_add(plan.amount) {
        Some(x) => x,
        None => { return Err(ClaimError::ArithmeticOverflow) },
    };
    let new_amount_received = match e.reward_amount_received.checked_add(plan.amount) {
        Some(x) => x,
        None => { return Err(ClaimError::ArithmeticOverflow) },
    };
    let new_seconds_received = match e.reward_seconds_received.checked_add(plan.seconds_to_credit) {
        Some(x) => x,
        None => { return Err(ClaimError::ArithmeticOverflow) },
    };
    d.rewards_issued = new_issued;
    e.reward_amount_received = new_amount_received;
    e.reward_seconds_received = new_seconds_received;
    Ok(ClaimOutcome { amount_paid: plan.amount })
}

/// One whole claim against a payout executor that cannot fail: prepare the
/// plan and commit it in one step, reporting the amount paid (possibly zero).
/// A caller whose payout can fail uses [`prepare_claim`] and [`commit_claim`]
/// around the payout instead, so that a failed payout commits nothing.
pub fn claim(
    d: &mut RewardDistributor,
    e: &mut RewardEntry,
    stake: &StakeRecord,
    treasury_balance: Option<u64>,
) -> (r: Result<ClaimOutcome, ClaimError>)
    requires
        old(d).stake_pool_id == stake.stake_pool_id,
        old(e).staked_asset_id == stake.staked_asset_id,
        old(d).kind == KIND_CUSTODIAN ==> treasury_balance is Some,
    ensures
        (match spec_claim(*old(d), *old(e), stake.total_stake_seconds, treasury_balance) {
            Ok((d2, e2, amount)) => *final(d) == d2 && *final(e) == e2 && r == Ok::<
                ClaimOutcome,
                ClaimError,
            >(ClaimOutcome { amount_paid: amount }),
            Err(err) => r == Err::<ClaimOutcome, ClaimError>(err),
        }),
        // A failed claim is a no-op: both records exactly as they were.
        r is Err ==> *final(d) == *old(d) && *final(e) == *old(e),
        // Bookkeeping: a successful claim advances the distributor's lifetime
        // total and the entry's received amount by exactly what it paid.
        (match r {
            Ok(out) => final(d).rewards_issued == old(d).rewards_issued + out.amount_paid
                && final(e).reward_amount_received == old(e).reward_amount_received
                + out.amount_paid,
            Err(_) => true,
        }),
        // Monotonicity: no counter ever decreases.
        final(d).rewards_issued >= old(d).rewards_issued,
        final(e).reward_amount_received >= old(e).reward_amount_received,
        final(e).reward_seconds_received >= old(e).reward_seconds_received,
        // Only the counters move; the configuration fields are untouched.
        *final(d) == (RewardDistributor { rewards_issued: final(d).rewards_issued, ..*old(d) }),
        *final(e) == (RewardEntry {
            reward_amount_received: final(e).reward_amount_received,
            reward_seconds_received: final(e).reward_seconds_received,
            ..*old(e)
        }),
        // Cap invariant: a capped distributor never exceeds its cap.
        (old(d).max_supply is Some && old(d).rewards_issued <= old(d).max_supply.unwrap())
            ==> final(d).rewards_issued <= old(d).max_supply.unwrap(),
        // No over-credit: converted seconds never pass the ledger's total.
        old(e).reward_seconds_received <= stake.total_stake_seconds
            ==> final(e).reward_seconds_received <= stake.total_stake_seconds,
{
    let plan = match prepare_claim(d, e, stake, treasury_balance) {
        Ok(p) => p,
        Err(err) => { return Err(err) },
    };
    proof {
        crate::laws::lemma_claim_monotonic(*d, *e, stake.total_stake_seconds, treasury_balance);
        if d.max_supply is Some && d.rewards_issued <= d.max_supply.unwrap() {
            crate::laws::lemma_cap_invariant(*d, *e, stake.total_stake_seconds, treasury_balance);
        }
        if e.reward_seconds_received <= stake.total_stake_seconds {
            crate::laws::lemma_no_over_credit(*d, *e, stake.total_stake_seconds, treasury_balance);
        }
    }
    commit_claim(d, e, &plan)
}

} // verus!
