use vstd::prelude::*;
use crate::error::ErrorCode;
use crate::market::{OracleData, PredictionMarket, ResolutionData};
use crate::text::{affirmative, lower_of, mentions_affirmative};
use crate::types::{AccountKey, MarketStatus, Outcome, ResolutionMethod};

verus! {

/// Least confidence, in percent, at which an oracle reading may resolve a market.
pub const MIN_ORACLE_CONFIDENCE: u8 = 80;

/// The outcome an oracle reading gives. A numeric reading decides by whether
/// it exceeds one half (`Some(above_half)`); any other reading is affirmative
/// when, in lower case, it contains "yes" or "true".
pub open spec fn oracle_outcome(value: Seq<char>, numeric: Option<bool>) -> Outcome {
    match numeric {
        Some(above_half) => if above_half {
            Outcome::Yes
        } else {
            Outcome::No
        },
        None => if affirmative(lower_of(value)) {
            Outcome::Yes
        } else {
            Outcome::No
        },
    }
}

/// The outcome an oracle reading gives, from its text and, when the text is a
/// number, whether that number exceeds one half.
pub fn outcome_from_oracle(value: &String, numeric: Option<bool>) -> (r: Outcome)
    ensures
        r == oracle_outcome(value@, numeric),
{
    match numeric {
        Some(above_half) => if above_half {
            Outcome::Yes
        } else {
            Outcome::No
        },
        None => if mentions_affirmative(value.as_str()) {
            Outcome::Yes
        } else {
            Outcome::No
        },
    }
}

/// Refusals shared by every resolution method: a resolved market stays
/// resolved, only an active market resolves, and not before its date.
pub open spec fn resolution_window_error(m: PredictionMarket, now: i64) -> Option<ErrorCode> {
    if m.status == MarketStatus::Resolved {
        Some(ErrorCode::AlreadyResolved)
    } else if m.status != MarketStatus::Active {
        Some(ErrorCode::MarketNotActive)
    } else if now < m.resolution_date {
        Some(ErrorCode::MarketNotExpired)
    } else {
        None
    }
}

pub open spec fn oracle_resolution_error(m: PredictionMarket, confidence: u8, now: i64) -> Option<ErrorCode> {
    if resolution_window_error(m, now) is Some {
        resolution_window_error(m, now)
    } else if confidence < MIN_ORACLE_CONFIDENCE {
        Some(ErrorCode::InsufficientOracleConfidence)
    } else if m.oracle_integration is Some && confidence < m.oracle_integration->0.threshold_confidence {
        Some(ErrorCode::InsufficientOracleConfidence)
    } else {
        None
    }
}

/// The market once resolved to `outcome` at `now`.
pub open spec fn resolved_market(
    m: PredictionMarket,
    outcome: Outcome,
    now: i64,
    oracle: Option<OracleData>,
    method: ResolutionMethod,
) -> PredictionMarket {
    PredictionMarket {
        status: MarketStatus::Resolved,
        resolution_data: Some(
            ResolutionData { outcome, resolved_at: now, oracle_data: oracle, resolution_method: method },
        ),
        ..m
    }
}

/// Resolves a market from an oracle reading. The reading needs a confidence
/// of at least 80, and at least the threshold of the market's oracle
/// integration if it has one. `numeric` says, for a reading whose value is a
/// number, whether it exceeds one half; it is `None` for any other reading.
pub fn resolve_market_with_oracle(
    market: &mut PredictionMarket,
    oracle_data: OracleData,
    numeric: Option<bool>,
    now: i64,
) -> (r: Result<Outcome, ErrorCode>)
    requires
        old(market).wf(),
    ensures
        final(market).wf(),
        r is Ok <==> oracle_resolution_error(*old(market), oracle_data.confidence, now) is None,
        r matches Err(e) ==> {
            &&& oracle_resolution_error(*old(market), oracle_data.confidence, now) == Some(e)
            &&& *final(market) == *old(market)
        },
        r matches Ok(outcome) ==> {
            &&& outcome == oracle_outcome(oracle_data.value@, numeric)
            &&& *final(market) == resolved_market(
                *old(market),
                outcome,
                now,
                Some(oracle_data),
                ResolutionMethod::Oracle,
            )
        },
{
    if market.status == MarketStatus::Resolved {
        return Err(ErrorCode::AlreadyResolved);
    }
    if market.status != MarketStatus::Active {
        return Err(ErrorCode::MarketNotActive);
    }
    if now < market.resolution_date {
        return Err(ErrorCode::MarketNotExpired);
    }
    if oracle_data.confidence < MIN_ORACLE_CONFIDENCE {
        return Err(ErrorCode::InsufficientOracleConfidence);
    }
    match &market.oracle_integration {
        Some(integration) => {
            if oracle_data.confidence < integration.threshold_confidence {
                return Err(ErrorCode::InsufficientOracleConfidence);
            }
        },
        None => {},
    }
    let outcome = outcome_from_oracle(&oracle_data.value, numeric);
    market.status = MarketStatus::Resolved;
    market.resolution_data = Some(
        ResolutionData {
            outcome,
            resolved_at: now,
            oracle_data: Some(oracle_data),
            resolution_method: ResolutionMethod::Oracle,
        },
    );
    Ok(outcome)
}

pub open spec fn authority_resolution_error(
    m: PredictionMarket,
    caller: AccountKey,
    outcome: Outcome,
    method: ResolutionMethod,
    now: i64,
) -> Option<ErrorCode> {
    if resolution_window_error(m, now) is Some {
        resolution_window_error(m, now)
    } else if caller.bytes@ != m.authority.bytes@ {
        Some(ErrorCode::Unauthorized)
    } else if method == ResolutionMethod::Oracle || outcome is Other {
        Some(ErrorCode::InvalidInputParameters)
    } else {
        None
    }
}

/// Resolves a market by its authority's decision, recorded under `method`
/// (an oracle reading goes through `resolve_market_with_oracle`).
pub fn resolve_market(
    market: &mut PredictionMarket,
    caller: AccountKey,
    outcome: Outcome,
    method: ResolutionMethod,
    now: i64,
) -> (r: Result<(), ErrorCode>)
    requires
        old(market).wf(),
    ensures
        final(market).wf(),
        r is Ok <==> authority_resolution_error(*old(market), caller, outcome, method, now) is None,
        r matches Err(e) ==> {
            &&& authority_resolution_error(*old(market), caller, outcome, method, now) == Some(e)
            &&& *final(market) == *old(market)
        },
        r is Ok ==> *final(market) == resolved_market(*old(market), outcome, now, None, method),
{
    if market.status == MarketStatus::Resolved {
        return Err(ErrorCode::AlreadyResolved);
    }
    if market.status != MarketStatus::Active {
        return Err(ErrorCode::MarketNotActive);
    }
    if now < market.resolution_date {
        return Err(ErrorCode::MarketNotExpired);
    }
    if !caller.same_as(&market.authority) {
        return Err(ErrorCode::Unauthorized);
    }
    if method == ResolutionMethod::Oracle {
        return Err(ErrorCode::InvalidInputParameters);
    }
    if let Outcome::Other(_) = outcome {
        return Err(ErrorCode::InvalidInputParameters);
    }
    market.status = MarketStatus::Resolved;
    market.resolution_data = Some(
        ResolutionData { outcome, resolved_at: now, oracle_data: None, resolution_method: method },
    );
    Ok(())
}

/// The side a reputation-weighted tally favours; a tie favours neither.
pub open spec fn tally_outcome(weighted_yes: u64, weighted_no: u64) -> Option<Outcome> {
    if weighted_yes > weighted_no {
        Some(Outcome::Yes)
    } else if weighted_no > weighted_yes {
        Some(Outcome::No)
    } else {
        None
    }
}

pub open spec fn community_resolution_error(m: PredictionMarket, weighted_yes: u64, weighted_no: u64, now: i64) -> Option<
    ErrorCode,
> {
    if resolution_window_error(m, now) is Some {
        resolution_window_error(m, now)
    } else if tally_outcome(weighted_yes, weighted_no) is None {
        Some(ErrorCode::InvalidInputParameters)
    } else {
        None
    }
}

/// Resolves a market by a community vote, given its reputation-weighted Yes
/// and No tallies; the heavier side wins, and a tie resolves nothing.
pub fn resolve_by_community_vote(
    market: &mut PredictionMarket,
    weighted_yes: u64,
    weighted_no: u64,
    now: i64,
) -> (r: Result<Outcome, ErrorCode>)
    requires
        old(market).wf(),
    ensures
        final(market).wf(),
        r is Ok <==> community_resolution_error(*old(market), weighted_yes, weighted_no, now) is None,
        r matches Err(e) ==> {
            &&& community_resolution_error(*old(market), weighted_yes, weighted_no, now) == Some(e)
            &&& *final(market) == *old(market)
        },
        r matches Ok(outcome) ==> {
            &&& Some(outcome) == tally_outcome(weighted_yes, weighted_no)
            &&& *final(market) == resolved_market(*old(market), outcome, now, None, ResolutionMethod::CommunityVote)
        },
{
    if market.status == MarketStatus::Resolved {
        return Err(ErrorCode::AlreadyResolved);
    }
    if market.status != MarketStatus::Active {
        return Err(ErrorCode::MarketNotActive);
    }
    if now < market.resolution_date {
        return Err(ErrorCode::MarketNotExpired);
    }
    let outcome = if weighted_yes > weighted_no {
        Outcome::Yes
    } else if weighted_no > weighted_yes {
        Outcome::No
    } else {
        return Err(ErrorCode::InvalidInputParameters);
    };
    market.status = MarketStatus::Resolved;
    market.resolution_data = Some(
        ResolutionData {
            outcome,
            resolved_at: now,
            oracle_data: None,
            resolution_method: ResolutionMethod::CommunityVote,
        },
    );
    Ok(outcome)
}

} // verus!
