//! The laws of the accrual engine, stated over the specification-level claim
//! transition [`spec_claim`] and proved once for every input: counters only
//! grow, a cap is never exceeded and an exhausted cap makes claims no-ops,
//! converted time never passes the ledger's total, and an immediately
//! repeated claim pays nothing.

use vstd::prelude::*;

use crate::engine::claim_makes_progress;
use crate::engine::owed_for;
use crate::engine::seconds_for_amount;
use crate::engine::spec_claim;
use crate::engine::spec_clamped_seconds;
use crate::engine::spec_prepare;
use crate::state::ClaimError;
use crate::state::RewardDistributor;
use crate::state::RewardEntry;
use crate::state::KIND_CUSTODIAN;
use crate::state::KIND_ISSUER;

verus! {

/// Monotonicity: a successful claim never decreases any of the three
/// counters — the distributor's lifetime total issued, the entry's amount
/// received, and the entry's seconds received. Across any sequence of claims
/// each counter is therefore non-decreasing.
pub proof fn lemma_claim_monotonic(
    d: RewardDistributor,
    e: RewardEntry,
    total_stake_seconds: u64,
    treasury_balance: Option<u64>,
)
    ensures
        (match spec_claim(d, e, total_stake_seconds, treasury_balance) {
            Ok((d2, e2, _)) => d2.rewards_issued >= d.rewards_issued
                && e2.reward_amount_received >= e.reward_amount_received
                && e2.reward_seconds_received >= e.reward_seconds_received,
            Err(_) => true,
        }),
{
}

/// Cap invariant: a claim against a capped distributor that has not already
/// exceeded its cap leaves `rewards_issued` at or below `max_supply`.
pub proof fn lemma_cap_invariant(
    d: RewardDistributor,
    e: RewardEntry,
    total_stake_seconds: u64,
    treasury_balance: Option<u64>,
)
    requires
        d.max_supply is Some,
        d.rewards_issued <= d.max_supply.unwrap(),
    ensures
        (match spec_claim(d, e, total_stake_seconds, treasury_balance) {
            Ok((d2, _, _)) => d2.rewards_issued <= d.max_supply.unwrap(),
            Err(_) => true,
        }),
{
}

/// An exhausted cap makes every claim a complete no-op: the claim succeeds,
/// pays nothing, and leaves both records exactly as they were.
pub proof fn lemma_cap_exhausted_noop(
    d: RewardDistributor,
    e: RewardEntry,
    total_stake_seconds: u64,
    treasury_balance: Option<u64>,
)
    requires
        d.max_supply is Some,
        d.rewards_issued >= d.max_supply.unwrap(),
    ensures
        spec_claim(d, e, total_stake_seconds, treasury_balance) == Ok::<
            (RewardDistributor, RewardEntry, u64),
            ClaimError,
        >((d, e, 0u64)),
{
}

/// No over-credit: starting from an entry whose converted time is within the
/// ledger's total, a successful claim keeps it within that total.
pub proof fn lemma_no_over_credit(
    d: RewardDistributor,
    e: RewardEntry,
    total_stake_seconds: u64,
    treasury_balance: Option<u64>,
)
    requires
        e.reward_seconds_received <= total_stake_seconds,
    ensures
        (match spec_claim(d, e, total_stake_seconds, treasury_balance) {
            Ok((_, e2, _)) => e2.reward_seconds_received <= total_stake_seconds,
            Err(_) => true,
        }),
{
    lemma_plan_seconds_bounded(d, e, total_stake_seconds, treasury_balance);
}

/// The seconds a prepared plan credits never exceed the entry's unconverted
/// stake-time.
proof fn lemma_plan_seconds_bounded(
    d: RewardDistributor,
    e: RewardEntry,
    total_stake_seconds: u64,
    treasury_balance: Option<u64>,
)
    requires
        e.reward_seconds_received <= total_stake_seconds,
    ensures
        (match spec_prepare(d, e, total_stake_seconds, treasury_balance) {
            Ok(plan) => plan.seconds_to_credit <= total_stake_seconds - e.reward_seconds_received,
            Err(_) => true,
        }),
{
    if claim_makes_progress(d, e, total_stake_seconds) && d.reward_duration_seconds > 0 {
        let unclaimed = (total_stake_seconds - e.reward_seconds_received) as u64;
        let periods = unclaimed as int / d.reward_duration_seconds as int;
        if periods * d.reward_amount as int <= u64::MAX && (periods * d.reward_amount as int)
            * e.multiplier as int <= u64::MAX {
            let owed = owed_for(d, e, unclaimed) as u64;
            let balance = treasury_balance.unwrap();
            if d.max_supply is Some && d.rewards_issued as int + owed as int <= u64::MAX
                && d.rewards_issued + owed >= d.max_supply.unwrap() {
                let capped = (d.max_supply.unwrap() - d.rewards_issued) as u64;
                lemma_owed_nonnegative(d, e, unclaimed);
                if spec_clamped_seconds(d, e, capped) is Ok {
                    lemma_clamped_seconds_bounded(d, e, unclaimed, capped);
                    if d.kind == KIND_CUSTODIAN && capped > balance {
                        lemma_clamped_seconds_bounded(d, e, unclaimed, balance);
                    }
                }
            } else {
                // With a zero divisor the treasury clamp fails the claim
                // outright, so only the positive case needs the bound.
                if d.kind == KIND_CUSTODIAN && owed > balance && d.reward_amount > 0
                    && e.multiplier > 0 {
                    lemma_owed_nonnegative(d, e, unclaimed);
                    lemma_clamped_seconds_bounded(d, e, unclaimed, balance);
                }
            }
        }
    }
}

/// The owed amount is a product of non-negative factors.
proof fn lemma_owed_nonnegative(d: RewardDistributor, e: RewardEntry, unclaimed: u64)
    requires
        d.reward_duration_seconds > 0,
    ensures
        owed_for(d, e, unclaimed) >= 0,
        owed_for(d, e, unclaimed) as u64 as int == owed_for(d, e, unclaimed) || owed_for(
            d,
            e,
            unclaimed,
        ) > u64::MAX,
{
    let dur = d.reward_duration_seconds as int;
    let periods = unclaimed as int / dur;
    vstd::arithmetic::div_mod::lemma_div_pos_is_pos(unclaimed as int, dur);
    vstd::arithmetic::mul::lemma_mul_nonnegative(periods, d.reward_amount as int);
    vstd::arithmetic::mul::lemma_mul_nonnegative(
        periods * d.reward_amount as int,
        e.multiplier as int,
    );
}

/// Core clamp bound: when an amount no larger than what `unclaimed` seconds
/// earned is mapped back to seconds, the result stays within `unclaimed`.
/// Truncation only loses time, never manufactures it.
proof fn lemma_clamped_seconds_bounded(
    d: RewardDistributor,
    e: RewardEntry,
    unclaimed: u64,
    amount: u64,
)
    requires
        d.reward_duration_seconds > 0,
        d.reward_amount > 0,
        e.multiplier > 0,
        amount as int <= owed_for(d, e, unclaimed),
    ensures
        0 <= seconds_for_amount(d, e, amount) <= unclaimed,
{
    let dur = d.reward_duration_seconds as int;
    let ra = d.reward_amount as int;
    let mult = e.multiplier as int;
    let u = unclaimed as int;
    let amt = amount as int;
    let periods = u / dur;
    let per_mult = periods * mult;
    vstd::arithmetic::div_mod::lemma_div_pos_is_pos(u, dur);
    vstd::arithmetic::mul::lemma_mul_nonnegative(periods, mult);
    vstd::arithmetic::mul::lemma_mul_is_associative(periods, ra, mult);
    vstd::arithmetic::mul::lemma_mul_is_commutative(ra, mult);
    vstd::arithmetic::mul::lemma_mul_is_associative(periods, mult, ra);
    vstd::arithmetic::mul::lemma_mul_is_commutative(per_mult, ra);
    assert((periods * ra) * mult == ra * per_mult);
    // The floor quotient of the amount is at most `periods * mult`.
    vstd::arithmetic::div_mod::lemma_div_is_ordered(amt, ra * per_mult, ra);
    vstd::arithmetic::div_mod::lemma_div_multiples_vanish(per_mult, ra);
    let q = amt / ra;
    assert(q <= per_mult);
    // Scaling by the period length keeps the order, and dividing out the
    // multiplier lands at `periods * dur`, which is at most `u`.
    vstd::arithmetic::mul::lemma_mul_inequality(q, per_mult, dur);
    vstd::arithmetic::mul::lemma_mul_is_associative(periods, mult, dur);
    vstd::arithmetic::mul::lemma_mul_is_commutative(mult, dur);
    vstd::arithmetic::mul::lemma_mul_is_associative(periods, dur, mult);
    vstd::arithmetic::mul::lemma_mul_is_commutative(periods * dur, mult);
    assert(per_mult * dur == mult * (periods * dur));
    vstd::arithmetic::div_mod::lemma_div_multiples_vanish(periods * dur, mult);
    vstd::arithmetic::div_mod::lemma_div_is_ordered(q * dur, per_mult * dur, mult);
    assert((q * dur) / mult <= periods * dur);
    vstd::arithmetic::div_mod::lemma_fundamental_div_mod(u, dur);
    vstd::arithmetic::div_mod::lemma_mod_division_less_than_divisor(u, dur);
    vstd::arithmetic::mul::lemma_mul_is_commutative(periods, dur);
    assert(periods * dur <= u);
    vstd::arithmetic::div_mod::lemma_div_pos_is_pos(amt, ra);
    vstd::arithmetic::mul::lemma_mul_nonnegative(q, dur);
    vstd::arithmetic::div_mod::lemma_div_pos_is_pos(q * dur, mult);
}

/// A custodian never pays out more than the treasury balance it was shown.
pub proof fn lemma_custodian_within_balance(
    d: RewardDistributor,
    e: RewardEntry,
    total_stake_seconds: u64,
    treasury_balance: Option<u64>,
)
    requires
        d.kind == KIND_CUSTODIAN,
    ensures
        (match spec_claim(d, e, total_stake_seconds, treasury_balance) {
            Ok((_, _, amount)) => amount <= treasury_balance.unwrap(),
            Err(_) => true,
        }),
{
}

/// Idempotent no-op: immediately repeating a successful claim, with the
/// ledger's total unchanged and (for a custodian) a treasury holding at most
/// what the first claim left, pays nothing. The repeat either succeeds with
/// amount zero or fails on a checked addition; it never pays a second time.
pub proof fn lemma_repeat_claim_pays_nothing(
    d: RewardDistributor,
    e: RewardEntry,
    total_stake_seconds: u64,
    treasury_balance: Option<u64>,
    balance_after: Option<u64>,
)
    requires
        spec_claim(d, e, total_stake_seconds, treasury_balance) is Ok,
        (match spec_claim(d, e, total_stake_seconds, treasury_balance) {
            Ok((_, _, amount)) => d.kind == KIND_CUSTODIAN ==> balance_after is Some
                && balance_after.unwrap() as int <= treasury_balance.unwrap() as int - amount,
            Err(_) => true,
        }),
    ensures
        (match spec_claim(d, e, total_stake_seconds, treasury_balance) {
            Ok((d2, e2, _)) => match spec_claim(d2, e2, total_stake_seconds, balance_after) {
                Ok((_, _, amount2)) => amount2 == 0,
                Err(err) => err == ClaimError::ArithmeticOverflow,
            },
            Err(_) => true,
        }),
{
    let step = spec_claim(d, e, total_stake_seconds, treasury_balance);
    let d2 = step->Ok_0.0;
    let e2 = step->Ok_0.1;
    let amount = step->Ok_0.2;
    if !claim_makes_progress(d, e, total_stake_seconds) {
        // The first claim was itself a no-op, so nothing moved and the
        // repeat meets the same guard.
        assert(d2 == d && e2 == e);
    } else {
        // The first claim made progress, so its configuration is sound.
        let dur = d.reward_duration_seconds;
        assert(dur > 0);
        assert(d.kind == KIND_ISSUER || d.kind == KIND_CUSTODIAN);
        if claim_makes_progress(d2, e2, total_stake_seconds) {
            lemma_repeat_progress_pays_nothing(
                d,
                e,
                total_stake_seconds,
                treasury_balance,
                balance_after,
            );
        }
    }
}

/// The demanding half of the idempotence law: the first claim made progress
/// and the repeat does too, so the repeat's own arithmetic must be walked to
/// see that every surviving path pays zero.
proof fn lemma_repeat_progress_pays_nothing(
    d: RewardDistributor,
    e: RewardEntry,
    total_stake_seconds: u64,
    treasury_balance: Option<u64>,
    balance_after: Option<u64>,
)
    requires
        spec_claim(d, e, total_stake_seconds, treasury_balance) is Ok,
        claim_makes_progress(d, e, total_stake_seconds),
        (match spec_claim(d, e, total_stake_seconds, treasury_balance) {
            Ok((d2, e2, amount)) => claim_makes_progress(d2, e2, total_stake_seconds) && (d.kind
                == KIND_CUSTODIAN ==> balance_after is Some && balance_after.unwrap() as int
                <= treasury_balance.unwrap() as int - amount),
            Err(_) => true,
        }),
    ensures
        (match spec_claim(d, e, total_stake_seconds, treasury_balance) {
            Ok((d2, e2, _)) => match spec_claim(d2, e2, total_stake_seconds, balance_after) {
                Ok((_, _, amount2)) => amount2 == 0,
                Err(err) => err == ClaimError::ArithmeticOverflow,
            },
            Err(_) => true,
        }),
{
    let total = total_stake_seconds;
    let step = spec_claim(d, e, total, treasury_balance);
    let d2 = step->Ok_0.0;
    let e2 = step->Ok_0.1;
    let amount = step->Ok_0.2;
    let plan = spec_prepare(d, e, total, treasury_balance)->Ok_0;
    let dur = d.reward_duration_seconds;
    let unclaimed = (total - e.reward_seconds_received) as u64;
    let periods = unclaimed as int / dur as int;
    let owed = owed_for(d, e, unclaimed) as u64;
    let balance = treasury_balance.unwrap();

    // The repeat's own quantities.
    let unclaimed2 = (total - e2.reward_seconds_received) as u64;
    let periods2 = unclaimed2 as int / dur as int;

    let capped_first = d.max_supply is Some && d.rewards_issued as int + owed as int <= u64::MAX
        && d.rewards_issued + owed >= d.max_supply.unwrap();
    if capped_first {
        let capped = (d.max_supply.unwrap() - d.rewards_issued) as u64;
        if d.kind == KIND_CUSTODIAN && capped > balance {
            // The treasury, not the cap, bounded the payout, so the repeat
            // starts below the cap but against an empty treasury.
            assert(amount == balance);
            assert(balance_after.unwrap() == 0);
            lemma_broke_custodian_pays_nothing(d2, e2, total, balance_after);
        } else {
            // The payout reached the cap exactly, so the repeat's guard
            // cannot pass: emission is exhausted.
            assert(d2.rewards_issued == d.max_supply.unwrap());
            assert(!claim_makes_progress(d2, e2, total));
        }
    } else {
        if d.kind == KIND_CUSTODIAN && owed > balance {
            // Treasury clamp: the repeat faces an empty treasury.
            assert(amount == balance);
            assert(balance_after.unwrap() == 0);
            lemma_broke_custodian_pays_nothing(d2, e2, total, balance_after);
        } else {
            // The full unclaimed time was credited, so nothing has accrued
            // for the repeat and nothing is owed.
            assert(plan.seconds_to_credit == unclaimed);
            assert(e2.reward_seconds_received == total);
            assert(unclaimed2 == 0);
            vstd::arithmetic::div_mod::lemma_div_of0(dur as int);
            assert(periods2 == 0);
            vstd::arithmetic::mul::lemma_mul_basics(d2.reward_amount as int);
            vstd::arithmetic::mul::lemma_mul_basics(e2.multiplier as int);
            assert(owed_for(d2, e2, unclaimed2) == 0);
        }
    }
}

/// A custodian claim against an empty treasury pays nothing, whatever is
/// owed: any positive amount is clamped to the zero balance, and the claim
/// can otherwise only fail on a checked addition.
proof fn lemma_broke_custodian_pays_nothing(
    d: RewardDistributor,
    e: RewardEntry,
    total_stake_seconds: u64,
    treasury_balance: Option<u64>,
)
    requires
        d.kind == KIND_CUSTODIAN,
        d.reward_duration_seconds > 0,
        treasury_balance is Some,
        treasury_balance.unwrap() == 0,
    ensures
        (match spec_claim(d, e, total_stake_seconds, treasury_balance) {
            Ok((_, _, amount)) => amount == 0,
            Err(err) => err == ClaimError::ArithmeticOverflow,
        }),
{
    let total = total_stake_seconds;
    if claim_makes_progress(d, e, total) {
        let unclaimed = (total - e.reward_seconds_received) as u64;
        let periods = unclaimed as int / d.reward_duration_seconds as int;
        let ra = d.reward_amount as int;
        let mult = e.multiplier as int;
        if periods * ra <= u64::MAX && (periods * ra) * mult <= u64::MAX {
            let owed = owed_for(d, e, unclaimed) as u64;
            lemma_owed_nonnegative(d, e, unclaimed);
            // A positive amount forces both clamp divisors to be positive:
            // had either been zero, the owed product would have been zero.
            if owed > 0 {
                if d.reward_amount == 0 {
                    vstd::arithmetic::mul::lemma_mul_basics(periods);
                    vstd::arithmetic::mul::lemma_mul_basics(mult);
                    assert((periods * ra) * mult == 0);
                }
                if e.multiplier == 0 {
                    vstd::arithmetic::mul::lemma_mul_basics(periods * ra);
                    assert((periods * ra) * mult == 0);
                }
                assert(d.reward_amount > 0 && e.multiplier > 0);
            }
            let capped_now = d.max_supply is Some && d.rewards_issued as int + owed as int
                <= u64::MAX && d.rewards_issued + owed >= d.max_supply.unwrap();
            if capped_now {
                let capped = (d.max_supply.unwrap() - d.rewards_issued) as u64;
                assert(owed > 0);
                vstd::arithmetic::div_mod::lemma_div_of0(ra);
            } else {
                if owed > 0 {
                    vstd::arithmetic::div_mod::lemma_div_of0(ra);
                }
            }
        }
    }
}

/// After an exhausted cap no-op the counters are untouched, so a capped
/// distributor that reaches its cap stays a no-op for every later claim:
/// [`lemma_cap_invariant`] and [`lemma_cap_exhausted_noop`] together close
/// the loop once `rewards_issued` equals `max_supply`.
pub proof fn lemma_claim_after_cap_reached_is_noop(
    d: RewardDistributor,
    e: RewardEntry,
    total_stake_seconds: u64,
    treasury_balance: Option<u64>,
)
    requires
        d.max_supply is Some,
        d.rewards_issued == d.max_supply.unwrap(),
    ensures
        spec_claim(d, e, total_stake_seconds, treasury_balance) == Ok::<
            (RewardDistributor, RewardEntry, u64),
            ClaimError,
        >((d, e, 0u64)),
{
    lemma_cap_exhausted_noop(d, e, total_stake_seconds, treasury_balance);
}

} // verus!
