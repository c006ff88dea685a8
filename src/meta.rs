use vstd::prelude::*;
use crate::error::ErrorCode;
use crate::market::{byte_len, text_len, PredictionMarket, MAX_DESCRIPTION_LEN, MAX_QUESTION_LEN, MIN_QUESTION_LEN};
use crate::types::{AccountKey, FactCheckVerdict, MarketStatus, MetaPredictionType};

verus! {

/// Reputation a user needs to open a meta-prediction.
pub const MIN_META_CREATOR_REPUTATION: u32 = 100;
/// A meta-prediction resolves this many seconds before its parent.
pub const META_LEAD_SECONDS: i64 = 86400;

pub struct FactCheckResult {
    pub claim: String,
    pub verdict: FactCheckVerdict,
    pub confidence: u8,
    pub sources: Vec<String>,
}

pub struct MediaAnalysisData {
    /// -10 to +10.
    pub sentiment_score: i8,
    pub bias_detection: Vec<String>,
    pub source_credibility: u8,
    pub fact_check_results: Vec<FactCheckResult>,
    pub analysis_timestamp: i64,
}

pub struct MetaPredictionData {
    pub question: String,
    pub description: String,
    pub prediction_type: MetaPredictionType,
    pub media_analysis: Option<MediaAnalysisData>,
}

/// A market on how another market's question will play out in public.
pub struct MetaPredictionMarket {
    pub parent_market: AccountKey,
    pub creator: AccountKey,
    pub question: String,
    pub description: String,
    pub prediction_type: MetaPredictionType,
    pub media_analysis: Option<MediaAnalysisData>,
    pub created_at: i64,
    pub resolution_date: i64,
    pub status: MarketStatus,
}

pub open spec fn meta_error(parent: PredictionMarket, reputation: u32, data: MetaPredictionData, now: i64) -> Option<ErrorCode> {
    if reputation < MIN_META_CREATOR_REPUTATION {
        Some(ErrorCode::InsufficientReputation)
    } else if !(MIN_QUESTION_LEN < text_len(data.question@) <= MAX_QUESTION_LEN) {
        Some(ErrorCode::InvalidQuestionLength)
    } else if text_len(data.description@) > MAX_DESCRIPTION_LEN {
        Some(ErrorCode::InvalidDescriptionLength)
    } else if parent.status != MarketStatus::Active {
        Some(ErrorCode::ParentMarketNotActive)
    } else if parent.resolution_date - META_LEAD_SECONDS < i64::MIN {
        Some(ErrorCode::MathOverflow)
    } else if parent.resolution_date - META_LEAD_SECONDS <= now {
        Some(ErrorCode::InvalidResolutionDate)
    } else {
        None
    }
}

/// Opens a meta-prediction on an active parent market. It resolves a day
/// before its parent, which must still lie in the future, and the parent
/// records it among its meta-markets.
pub fn create_meta_prediction(
    parent: &mut PredictionMarket,
    parent_key: AccountKey,
    meta_key: AccountKey,
    creator: AccountKey,
    creator_reputation: u32,
    meta_data: MetaPredictionData,
    now: i64,
) -> (r: Result<MetaPredictionMarket, ErrorCode>)
    requires
        old(parent).wf(),
    ensures
        final(parent).wf(),
        r is Ok <==> meta_error(*old(parent), creator_reputation, meta_data, now) is None,
        r matches Err(e) ==> {
            &&& meta_error(*old(parent), creator_reputation, meta_data, now) == Some(e)
            &&& *final(parent) == *old(parent)
        },
        r matches Ok(mm) ==> {
            &&& mm == (MetaPredictionMarket {
                parent_market: parent_key,
                creator,
                question: meta_data.question,
                description: meta_data.description,
                prediction_type: meta_data.prediction_type,
                media_analysis: meta_data.media_analysis,
                created_at: now,
                resolution_date: (old(parent).resolution_date - META_LEAD_SECONDS) as i64,
                status: MarketStatus::Active,
            })
            &&& final(parent).meta_markets@ == old(parent).meta_markets@.push(meta_key)
            &&& *final(parent) == (PredictionMarket { meta_markets: final(parent).meta_markets, ..*old(parent) })
        },
{
    if creator_reputation < MIN_META_CREATOR_REPUTATION {
        return Err(ErrorCode::InsufficientReputation);
    }
    let qlen = byte_len(&meta_data.question);
    if !(MIN_QUESTION_LEN < qlen && qlen <= MAX_QUESTION_LEN) {
        return Err(ErrorCode::InvalidQuestionLength);
    }
    if byte_len(&meta_data.description) > MAX_DESCRIPTION_LEN {
        return Err(ErrorCode::InvalidDescriptionLength);
    }
    if parent.status != MarketStatus::Active {
        return Err(ErrorCode::ParentMarketNotActive);
    }
    if parent.resolution_date < i64::MIN + META_LEAD_SECONDS {
        return Err(ErrorCode::MathOverflow);
    }
    let resolution_date = parent.resolution_date - META_LEAD_SECONDS;
    if resolution_date <= now {
        return Err(ErrorCode::InvalidResolutionDate);
    }
    parent.meta_markets.push(meta_key);
    Ok(
        MetaPredictionMarket {
            parent_market: parent_key,
            creator,
            question: meta_data.question,
            description: meta_data.description,
            prediction_type: meta_data.prediction_type,
            media_analysis: meta_data.media_analysis,
            created_at: now,
            resolution_date,
            status: MarketStatus::Active,
        },
    )
}

} // verus!
