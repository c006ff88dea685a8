//! A prediction-market settlement engine: market lifecycle, a constant-product
//! market maker with liquidity accounting, resolution from authority, oracle or
//! community vote, payout arithmetic and threshold-multisig emergency actions.
//!
//! Every operation works on plain values. Custody of funds, account storage,
//! signature checks and the clock belong to the caller, which hands the current
//! time and the relevant records in, and carries out the transfers that an
//! operation reports.
pub mod types;
pub mod error;
pub mod market;
pub mod position;
pub mod profile;
pub mod amm;
pub mod settlement;
pub mod text;
pub mod resolution;
pub mod governance;
pub mod eligibility;
pub mod simple;
pub mod moderation;
pub mod evidence;
pub mod meta;
