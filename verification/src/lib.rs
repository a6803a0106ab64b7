//! A reward-accrual core for a staking program.
//!
//! Participants accumulate stake-seconds in an external staking subsystem; a
//! per-pool reward distributor periodically converts the unclaimed portion of
//! that time into reward-token payouts. This crate holds the verified heart of
//! that conversion: the truncating fixed-point arithmetic that derives the
//! amount owed, the clamping against an optional lifetime supply cap or an
//! underfunded treasury, the dispatch between the two payout mechanisms
//! (minting new supply vs. draining a pre-funded pool), and the atomic commit
//! of the bookkeeping counters that keeps rewards from ever being paid twice.
//!
//! The actual token custody (minting and transferring units) is an external
//! collaborator: the engine hands its caller a [`engine::prepare_claim`] plan
//! naming the payout to perform, and the caller commits the counters with
//! [`engine::commit_claim`] once that payout has succeeded.

pub mod engine;
pub mod laws;
pub mod state;
