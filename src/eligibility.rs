use vstd::prelude::*;
use crate::error::ErrorCode;
use crate::market::PredictionMarket;
use crate::types::{AccountKey, MarketStatus};

verus! {

/// Reputation a voter needs to take part in an eligibility vote.
pub const MIN_VOTER_REPUTATION: u32 = 100;

/// The running, reputation-weighted tally of a market's eligibility vote.
/// `threshold` is the percentage of weighted No votes that a market may carry
/// and stay eligible.
pub struct EligibilityRegistry {
    pub market: AccountKey,
    pub total_votes: u32,
    pub yes_votes: u32,
    pub no_votes: u32,
    pub weighted_yes: u64,
    pub weighted_no: u64,
    pub threshold: u8,
    pub eligible: bool,
    pub created_at: i64,
    pub updated_at: i64,
}

/// One voter's ballot in a market's eligibility vote.
pub struct EligibilityVote {
    pub market: AccountKey,
    pub voter: AccountKey,
    pub vote: bool,
    pub reason: String,
    pub voted_at: i64,
    pub reputation_weight: u32,
}

/// Whether a tally keeps the market eligible: the weighted No share does not
/// exceed the threshold percentage.
pub open spec fn tally_eligible(weighted_yes: int, weighted_no: int, threshold: int) -> bool {
    !(weighted_no * 100 > threshold * (weighted_yes + weighted_no))
}

pub open spec fn vote_error(reg: EligibilityRegistry, voter_reputation: u32, vote: bool) -> Option<ErrorCode> {
    if voter_reputation < MIN_VOTER_REPUTATION {
        Some(ErrorCode::InsufficientReputation)
    } else if reg.total_votes == u32::MAX || (vote && reg.yes_votes == u32::MAX) || (!vote
        && reg.no_votes == u32::MAX) {
        Some(ErrorCode::MathOverflow)
    } else if reg.weighted_yes + reg.weighted_no + voter_reputation > u64::MAX {
        Some(ErrorCode::MathOverflow)
    } else {
        None
    }
}

/// The market's status once the tally says `eligible`: an active market that
/// loses eligibility is blacklisted, a blacklisted one that regains it is
/// active again, and any other status stays.
pub open spec fn status_after_vote(status: MarketStatus, eligible: bool) -> MarketStatus {
    if !eligible && status == MarketStatus::Active {
        MarketStatus::Blacklisted
    } else if eligible && status == MarketStatus::Blacklisted {
        MarketStatus::Active
    } else {
        status
    }
}

/// Records a vote, weighted by the voter's reputation, on whether `market`
/// may stay listed, and moves the market between active and blacklisted as
/// the tally decides. Returns the voter's ballot.
pub fn vote_on_eligibility(
    registry: &mut EligibilityRegistry,
    market: &mut PredictionMarket,
    market_key: AccountKey,
    voter: AccountKey,
    voter_reputation: u32,
    vote: bool,
    reason: String,
    now: i64,
) -> (r: Result<EligibilityVote, ErrorCode>)
    requires
        old(market).wf(),
    ensures
        final(market).wf(),
        r is Ok <==> vote_error(*old(registry), voter_reputation, vote) is None,
        r matches Err(e) ==> {
            &&& vote_error(*old(registry), voter_reputation, vote) == Some(e)
            &&& *final(registry) == *old(registry)
            &&& *final(market) == *old(market)
        },
        r matches Ok(ballot) ==> ballot == (EligibilityVote {
            market: market_key,
            voter,
            vote,
            reason,
            voted_at: now,
            reputation_weight: voter_reputation,
        }),
        r is Ok ==> {
            let wy = old(registry).weighted_yes + if vote { voter_reputation as int } else { 0 };
            let wn = old(registry).weighted_no + if vote { 0 } else { voter_reputation as int };
            let decided = wy + wn > 0;
            let eligible = if decided {
                tally_eligible(wy, wn, old(registry).threshold as int)
            } else {
                old(registry).eligible
            };
            &&& *final(registry) == (EligibilityRegistry {
                market: market_key,
                total_votes: (old(registry).total_votes + 1) as u32,
                yes_votes: if vote { (old(registry).yes_votes + 1) as u32 } else { old(registry).yes_votes },
                no_votes: if vote { old(registry).no_votes } else { (old(registry).no_votes + 1) as u32 },
                weighted_yes: wy as u64,
                weighted_no: wn as u64,
                eligible,
                updated_at: now,
                ..*old(registry)
            })
            &&& *final(market) == (PredictionMarket {
                status: if decided { status_after_vote(old(market).status, eligible) } else { old(market).status },
                ..*old(market)
            })
        },
{
    if voter_reputation < MIN_VOTER_REPUTATION {
        return Err(ErrorCode::InsufficientReputation);
    }
    if registry.total_votes == u32::MAX || (vote && registry.yes_votes == u32::MAX) || (!vote
        && registry.no_votes == u32::MAX) {
        return Err(ErrorCode::MathOverflow);
    }
    if registry.weighted_yes > u64::MAX - registry.weighted_no || registry.weighted_yes
        + registry.weighted_no > u64::MAX - voter_reputation as u64 {
        return Err(ErrorCode::MathOverflow);
    }
    registry.market = market_key;
    registry.total_votes = registry.total_votes + 1;
    if vote {
        registry.yes_votes = registry.yes_votes + 1;
        registry.weighted_yes = registry.weighted_yes + voter_reputation as u64;
    } else {
        registry.no_votes = registry.no_votes + 1;
        registry.weighted_no = registry.weighted_no + voter_reputation as u64;
    }
    let total = registry.weighted_yes + registry.weighted_no;
    if total > 0 {
        proof {
            crate::amm::lemma_mul_u64_fits(registry.threshold as int, total as int);
        }
        let eligible = !((registry.weighted_no as u128) * 100 > (registry.threshold as u128) * (
        total as u128));
        registry.eligible = eligible;
        if !eligible && market.status == MarketStatus::Active {
            market.status = MarketStatus::Blacklisted;
        } else if eligible && market.status == MarketStatus::Blacklisted {
            market.status = MarketStatus::Active;
        }
    }
    registry.updated_at = now;
    Ok(
        EligibilityVote {
            market: market_key,
            voter,
            vote,
            reason,
            voted_at: now,
            reputation_weight: voter_reputation,
        },
    )
}

} // verus!
