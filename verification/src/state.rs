//! The records the reward-accrual engine works over: the per-pool distributor
//! configuration with its lifetime counters, the per-participant claim record,
//! the read-only stake-time snapshot, and the plan / outcome / error types of
//! a claim.

use vstd::prelude::*;

verus! {

/// `kind` value of a distributor that pays by minting new reward-token units
/// under its signing authority.
pub const KIND_ISSUER: u8 = 1;

/// `kind` value of a distributor that pays by transferring existing units out
/// of a pre-funded treasury account.
pub const KIND_CUSTODIAN: u8 = 2;

/// Per-pool reward configuration and its lifetime counters.
///
/// One distributor serves all participants of a staking pool. Everything but
/// `rewards_issued` is fixed at creation; `rewards_issued` grows only through
/// successful claims.
#[derive(Clone, Copy, Debug)]
pub struct RewardDistributor {
    /// The staking pool this distributor serves.
    pub stake_pool_id: u64,
    /// The token unit being distributed.
    pub reward_token_id: u64,
    /// Opaque credential under which payouts are authorized; derived outside
    /// the engine and only handed through to the payout executor.
    pub signing_authority: u64,
    /// Selects the payout mechanism: [`KIND_ISSUER`] or [`KIND_CUSTODIAN`].
    /// Any other value is a fatal configuration error.
    pub kind: u8,
    /// Reward units granted per full `reward_duration_seconds` of accrued
    /// stake-time, before the entry's multiplier.
    pub reward_amount: u64,
    /// The time quantum of accrual; zero is a fatal configuration error.
    pub reward_duration_seconds: u64,
    /// Optional lifetime cap on `rewards_issued`; `None` means uncapped.
    pub max_supply: Option<u64>,
    /// Cumulative reward units ever disbursed by this distributor.
    pub rewards_issued: u64,
}

/// Per-participant claim record for one staked asset.
#[derive(Clone, Copy, Debug)]
pub struct RewardEntry {
    /// The staked asset this entry tracks; must match the stake record it is
    /// claimed against.
    pub staked_asset_id: u64,
    /// Scaling factor on this participant's accrual rate. A multiplier of
    /// zero makes every claim pay nothing while still consuming accrued time.
    pub multiplier: u64,
    /// Cumulative stake-time already converted into rewards.
    pub reward_seconds_received: u64,
    /// Cumulative reward units already paid to this entry.
    pub reward_amount_received: u64,
}

/// Read-only snapshot of the external stake ledger for one staked asset:
/// which pool and asset it belongs to, and the non-decreasing total of
/// accumulated stake-time.
#[derive(Clone, Copy, Debug)]
pub struct StakeRecord {
    /// The staking pool the stake belongs to.
    pub stake_pool_id: u64,
    /// The staked asset the stake belongs to.
    pub staked_asset_id: u64,
    /// Total stake-seconds ever accumulated for this asset.
    pub total_stake_seconds: u64,
}

/// The external payout a prepared claim asks its caller to perform before the
/// counters may be committed.
#[derive(Clone, Copy, Debug, PartialEq, Eq, Structural)]
pub enum PayoutAction {
    /// Nothing accrued (or emission is exhausted): no payout, and the commit
    /// leaves every counter unchanged.
    NoPayout,
    /// Mint `ClaimPlan::amount` new units to the participant, authorized by
    /// the distributor's signing authority.
    Mint,
    /// Transfer `ClaimPlan::amount` units from the distributor's treasury to
    /// the participant.
    Transfer,
}

/// A fully computed claim, ready to be paid out and committed.
#[derive(Clone, Copy, Debug, PartialEq, Eq, Structural)]
pub struct ClaimPlan {
    /// What the payout executor must do before the commit.
    pub payout: PayoutAction,
    /// Reward units being disbursed by this claim (possibly zero).
    pub amount: u64,
    /// Stake-seconds consumed by this claim (possibly zero, and possibly less
    /// than the accrued time when a clamp forfeited the remainder).
    pub seconds_to_credit: u64,
}

/// What a committed claim reports back to the caller.
#[derive(Clone, Copy, Debug, PartialEq, Eq, Structural)]
pub struct ClaimOutcome {
    /// The amount actually paid, zero when nothing was owed.
    pub amount_paid: u64,
}

/// The ways a claim can fail. Every failure is all-or-nothing: a claim that
/// returns an error leaves all counters exactly as they were.
#[derive(Clone, Copy, Debug, PartialEq, Eq, Structural)]
pub enum ClaimError {
    /// A checked addition or multiplication overflowed its integer width.
    ArithmeticOverflow,
    /// A division met a zero divisor: the distributor is misconfigured with
    /// `reward_duration_seconds == 0`, or a clamp recomputation divided by a
    /// zero `reward_amount` or multiplier.
    DivisionByZero,
    /// The distributor's `kind` selects neither payout mechanism.
    InvalidDistributorKind,
    /// The external payout executor reported failure; the claim aborts with
    /// no counter updates.
    PayoutFailure,
}

} // verus!
