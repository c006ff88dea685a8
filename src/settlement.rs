use vstd::prelude::*;
use crate::amm::{fee_of, lemma_mul_u64_fits, BPS, FEE_BPS};
use crate::error::ErrorCode;
use crate::market::PredictionMarket;
use crate::position::UserPosition;
use crate::types::{MarketStatus, Outcome};

verus! {

/// The two payout formulas a market can settle by.
#[derive(Clone, Copy, Debug, PartialEq, Eq, Structural)]
pub enum PayoutPolicy {
    /// The winner takes the stake's share of the whole pot, with no fee.
    PotSplit,
    /// The winner gets the stake back plus its share of the losing pool, less
    /// the platform fee.
    FeeAdjusted,
}

/// What a claim pays: the gross amount, the fee routed to the treasury and
/// the rest, which goes to the winner.
#[derive(Clone, Copy, Debug, PartialEq, Eq, Structural)]
pub struct Payout {
    pub gross: u64,
    pub fee: u64,
    pub net: u64,
}

/// The stake's share of the whole pot, rounded down.
pub open spec fn pot_split(amount: int, total: int, winning: int) -> int {
    amount * total / winning
}

/// The stake plus its share of the losing pool, rounded down, before the fee.
pub open spec fn fee_adjusted_gross(amount: int, total: int, winning: int) -> int {
    amount + amount * (total - winning) / winning
}

pub open spec fn payout_error(policy: PayoutPolicy, amount: u64, total: u64, winning: u64) -> Option<ErrorCode> {
    if winning == 0 {
        Some(ErrorCode::NoWinnings)
    } else if total < winning {
        Some(ErrorCode::InvalidInputParameters)
    } else {
        match policy {
            PayoutPolicy::PotSplit => if pot_split(amount as int, total as int, winning as int) > u64::MAX {
                Some(ErrorCode::MathOverflow)
            } else {
                None
            },
            PayoutPolicy::FeeAdjusted => if fee_adjusted_gross(amount as int, total as int, winning as int) * 50
                > u64::MAX {
                Some(ErrorCode::MathOverflow)
            } else {
                None
            },
        }
    }
}

pub open spec fn payout_spec(policy: PayoutPolicy, amount: u64, total: u64, winning: u64) -> Payout {
    match policy {
        PayoutPolicy::PotSplit => {
            let w = pot_split(amount as int, total as int, winning as int) as u64;
            Payout { gross: w, fee: 0, net: w }
        },
        PayoutPolicy::FeeAdjusted => {
            let g = fee_adjusted_gross(amount as int, total as int, winning as int);
            Payout { gross: g as u64, fee: fee_of(g) as u64, net: (g - fee_of(g)) as u64 }
        },
    }
}

/// Computes what a winning stake of `amount` is paid from a pot of `total`
/// whose winning side holds `winning`.
pub fn compute_payout(policy: PayoutPolicy, amount: u64, total: u64, winning: u64) -> (r: Result<
    Payout,
    ErrorCode,
>)
    ensures
        r is Ok <==> payout_error(policy, amount, total, winning) is None,
        r matches Err(e) ==> payout_error(policy, amount, total, winning) == Some(e),
        r matches Ok(p) ==> p == payout_spec(policy, amount, total, winning),
{
    if winning == 0 {
        return Err(ErrorCode::NoWinnings);
    }
    if total < winning {
        return Err(ErrorCode::InvalidInputParameters);
    }
    match policy {
        PayoutPolicy::PotSplit => {
            proof {
                lemma_mul_u64_fits(amount as int, total as int);
            }
            let w = (amount as u128) * (total as u128) / (winning as u128);
            if w > u64::MAX as u128 {
                return Err(ErrorCode::MathOverflow);
            }
            Ok(Payout { gross: w as u64, fee: 0, net: w as u64 })
        },
        PayoutPolicy::FeeAdjusted => {
            let losing = total - winning;
            proof {
                lemma_mul_u64_fits(amount as int, losing as int);
            }
            let share = (amount as u128) * (losing as u128) / (winning as u128);
            if share > (u64::MAX / FEE_BPS) as u128 || amount > u64::MAX / FEE_BPS - share as u64 {
                return Err(ErrorCode::MathOverflow);
            }
            let gross = amount + share as u64;
            let fee = gross * FEE_BPS / BPS;
            Ok(Payout { gross, fee, net: gross - fee })
        },
    }
}

/// The pool that won, for a binary outcome.
pub open spec fn winning_pool_of(m: PredictionMarket, outcome: Outcome) -> u64 {
    match outcome {
        Outcome::Yes => m.yes_pool,
        _ => m.no_pool,
    }
}

/// The first reason for which a claim is refused, if any.
pub open spec fn claim_winnings_error(m: PredictionMarket, pos: UserPosition, policy: PayoutPolicy) -> Option<
    ErrorCode,
> {
    match m.resolution_data {
        None => Some(ErrorCode::MarketNotResolved),
        Some(res) => if m.status != MarketStatus::Resolved {
            Some(ErrorCode::MarketNotResolved)
        } else if pos.outcome != res.outcome {
            Some(ErrorCode::PositionNotWinning)
        } else if pos.claimed {
            Some(ErrorCode::AlreadyClaimed)
        } else if res.outcome is Other {
            Some(ErrorCode::InvalidInputParameters)
        } else {
            payout_error(policy, pos.amount, m.total_pool, winning_pool_of(m, res.outcome))
        },
    }
}

/// Settles a winning position of a resolved market and marks it claimed, so
/// that a position is paid at most once.
pub fn claim_winnings(market: &PredictionMarket, position: &mut UserPosition, policy: PayoutPolicy) -> (r:
    Result<Payout, ErrorCode>)
    requires
        market.wf(),
    ensures
        r is Ok <==> claim_winnings_error(*market, *old(position), policy) is None,
        r matches Err(e) ==> {
            &&& claim_winnings_error(*market, *old(position), policy) == Some(e)
            &&& *final(position) == *old(position)
        },
        r matches Ok(p) ==> {
            &&& p == payout_spec(
                policy,
                old(position).amount,
                market.total_pool,
                winning_pool_of(*market, old(position).outcome),
            )
            &&& *final(position) == (UserPosition { claimed: true, ..*old(position) })
        },
{
    let outcome = match &market.resolution_data {
        None => {
            return Err(ErrorCode::MarketNotResolved);
        },
        Some(res) => res.outcome,
    };
    if market.status != MarketStatus::Resolved {
        return Err(ErrorCode::MarketNotResolved);
    }
    if position.outcome != outcome {
        return Err(ErrorCode::PositionNotWinning);
    }
    if position.claimed {
        return Err(ErrorCode::AlreadyClaimed);
    }
    let winning = match outcome {
        Outcome::Yes => market.yes_pool,
        Outcome::No => market.no_pool,
        Outcome::Other(_) => {
            return Err(ErrorCode::InvalidInputParameters);
        },
    };
    let payout = compute_payout(policy, position.amount, market.total_pool, winning)?;
    position.claimed = true;
    Ok(payout)
}

/// The first reason for which `calculate_payout` refuses, if any.
pub open spec fn calculate_payout_error(amount: u64, outcome: Outcome, m: PredictionMarket) -> Option<
    ErrorCode,
> {
    if outcome is Other {
        Some(ErrorCode::InvalidInputParameters)
    } else {
        payout_error(PayoutPolicy::PotSplit, amount, m.total_pool, winning_pool_of(m, outcome))
    }
}

/// What a stake of `amount` on `outcome` would be paid by the pot split if
/// that outcome won now.
pub fn calculate_payout(amount: u64, outcome: &Outcome, market: &PredictionMarket) -> (r: Result<
    u64,
    ErrorCode,
>)
    requires
        market.wf(),
    ensures
        r is Ok <==> calculate_payout_error(amount, *outcome, *market) is None,
        r matches Err(e) ==> calculate_payout_error(amount, *outcome, *market) == Some(e),
        r matches Ok(w) ==> w == pot_split(
            amount as int,
            market.total_pool as int,
            winning_pool_of(*market, *outcome) as int,
        ),
{
    let winning = match outcome {
        Outcome::Yes => market.yes_pool,
        Outcome::No => market.no_pool,
        Outcome::Other(_) => {
            return Err(ErrorCode::InvalidInputParameters);
        },
    };
    let p = compute_payout(PayoutPolicy::PotSplit, amount, market.total_pool, winning)?;
    Ok(p.net)
}

} // verus!

verus! {

/// A position that a claim has paid is refused with `AlreadyClaimed` by every
/// later claim, which then changes nothing.
pub proof fn lemma_claim_pays_once(m: PredictionMarket, pos: UserPosition, policy: PayoutPolicy, again: PayoutPolicy)
    requires
        m.wf(),
        claim_winnings_error(m, pos, policy) is None,
    ensures
        claim_winnings_error(m, UserPosition { claimed: true, ..pos }, again) == Some(ErrorCode::AlreadyClaimed),
{
}

} // verus!
