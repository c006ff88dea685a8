use vstd::prelude::*;
use crate::error::ErrorCode;
use crate::types::{AccountKey, EvidenceType, MarketStatus, ModerationType, Outcome, ResolutionMethod};

verus! {

pub const MIN_QUESTION_LEN: usize = 10;
pub const MAX_QUESTION_LEN: usize = 200;
pub const MAX_DESCRIPTION_LEN: usize = 500;
pub const MAX_CATEGORY_LEN: usize = 50;
/// Reputation a creator needs to open a market.
pub const MIN_CREATOR_REPUTATION: u32 = 50;
/// Creators at or above this reputation open markets to everyone.
pub const TRUSTED_CREATOR_REPUTATION: u32 = 200;
/// Participation threshold of a market opened by a less trusted creator.
pub const DEFAULT_REPUTATION_THRESHOLD: u8 = 25;

/// Length of a text in bytes of its UTF-8 encoding.
pub open spec fn text_len(s: Seq<char>) -> nat {
    vstd::utf8::encode_utf8(s).len()
}

pub fn byte_len(s: &String) -> (r: usize)
    ensures
        r == text_len(s@),
{
    s.as_str().as_bytes().len()
}

pub struct EvidenceRequirements {
    pub min_evidence_count: u8,
    pub required_types: Vec<EvidenceType>,
    pub oracle_required: bool,
    pub scientific_peer_review: bool,
    pub government_source_required: bool,
}

pub struct OracleData {
    pub oracle_provider: String,
    pub data_source: String,
    pub value: String,
    pub confidence: u8,
    pub timestamp: i64,
}

pub struct OracleIntegration {
    pub provider: String,
    pub feed_address: AccountKey,
    pub update_frequency: u64,
    pub threshold_confidence: u8,
}

pub struct ResolutionData {
    pub outcome: Outcome,
    pub resolved_at: i64,
    pub oracle_data: Option<OracleData>,
    pub resolution_method: ResolutionMethod,
}

pub struct ModerationFlag {
    pub flag_type: ModerationType,
    pub reason: String,
    pub flagged_by: AccountKey,
    pub flagged_at: i64,
    pub resolved: bool,
    pub resolution: Option<String>,
}

/// What a creator supplies to open a market.
pub struct MarketData {
    pub question: String,
    pub description: String,
    pub category: String,
    pub resolution_date: i64,
    pub initial_liquidity: u64,
}

/// A binary market with its two pools. `total_lp_supply` counts the liquidity
/// tokens outstanding against the pools; the creator's seed liquidity counts
/// towards it.
pub struct PredictionMarket {
    pub authority: AccountKey,
    pub creator: AccountKey,
    pub status: MarketStatus,
    pub created_at: i64,
    pub resolution_date: i64,
    pub question: String,
    pub description: String,
    pub category: String,
    pub evidence_requirements: EvidenceRequirements,
    pub total_pool: u64,
    pub yes_pool: u64,
    pub no_pool: u64,
    pub total_lp_supply: u64,
    pub total_participants: u32,
    pub resolution_data: Option<ResolutionData>,
    pub moderation_flags: Vec<ModerationFlag>,
    pub reputation_threshold: u8,
    pub human_verified_required: bool,
    pub oracle_integration: Option<OracleIntegration>,
    pub meta_markets: Vec<AccountKey>,
}

impl PredictionMarket {
    /// The market's invariant: the total pool is the sum of the two pools, the
    /// pools are empty when no LP tokens are outstanding, and resolution data
    /// is present exactly when the market is resolved.
    pub open spec fn wf(&self) -> bool {
        &&& self.total_pool as int == self.yes_pool as int + self.no_pool as int
        &&& self.total_lp_supply == 0 ==> self.total_pool == 0
        &&& (self.resolution_data is Some <==> self.status == MarketStatus::Resolved)
    }

    /// Whether the market's invariant holds.
    pub fn is_well_formed(&self) -> (r: bool)
        ensures
            r == self.wf(),
    {
        self.yes_pool as u128 + self.no_pool as u128 == self.total_pool as u128
            && (self.total_lp_supply != 0 || self.total_pool == 0)
            && (self.resolution_data.is_some() == (self.status == MarketStatus::Resolved))
    }

    /// The pool that backs `outcome` (zero for a multi-outcome value).
    pub open spec fn pool_of(&self, outcome: Outcome) -> nat {
        match outcome {
            Outcome::Yes => self.yes_pool as nat,
            Outcome::No => self.no_pool as nat,
            Outcome::Other(_) => 0,
        }
    }

    /// The same market with other pool balances and LP supply.
    pub open spec fn with_pools(self, yes: u64, no: u64, lp_supply: u64) -> PredictionMarket {
        PredictionMarket {
            yes_pool: yes,
            no_pool: no,
            total_pool: (yes + no) as u64,
            total_lp_supply: lp_supply,
            ..self
        }
    }
}

/// Whether the lifecycle allows a move from `from` to `to`: an active market
/// may be paused, resolved or blacklisted, and a paused or blacklisted one may
/// be restored. A resolved market never moves again.
pub open spec fn transition_allowed(from: MarketStatus, to: MarketStatus) -> bool {
    match from {
        MarketStatus::Active => to == MarketStatus::Paused || to == MarketStatus::Resolved
            || to == MarketStatus::Blacklisted,
        MarketStatus::Paused | MarketStatus::Blacklisted => to == MarketStatus::Active,
        _ => false,
    }
}

pub open spec fn transition_error(from: MarketStatus, to: MarketStatus) -> Option<ErrorCode> {
    if transition_allowed(from, to) {
        None
    } else if from == MarketStatus::Resolved {
        Some(ErrorCode::AlreadyResolved)
    } else {
        Some(ErrorCode::MarketNotActive)
    }
}

/// Checks a lifecycle move.
pub fn check_transition(from: MarketStatus, to: MarketStatus) -> (r: Result<(), ErrorCode>)
    ensures
        r is Ok <==> transition_allowed(from, to),
        r matches Err(e) ==> transition_error(from, to) == Some(e),
{
    match from {
        MarketStatus::Active => {
            if to == MarketStatus::Paused || to == MarketStatus::Resolved || to
                == MarketStatus::Blacklisted {
                Ok(())
            } else {
                Err(ErrorCode::MarketNotActive)
            }
        },
        MarketStatus::Paused | MarketStatus::Blacklisted => {
            if to == MarketStatus::Active {
                Ok(())
            } else {
                Err(ErrorCode::MarketNotActive)
            }
        },
        MarketStatus::Resolved => Err(ErrorCode::AlreadyResolved),
        MarketStatus::Disputed => Err(ErrorCode::MarketNotActive),
    }
}

/// The first reason for which `create_market` refuses its inputs, if any.
pub open spec fn create_market_error(
    data: &MarketData,
    creator_reputation: u32,
    now: i64,
) -> Option<ErrorCode> {
    if creator_reputation < MIN_CREATOR_REPUTATION {
        Some(ErrorCode::InsufficientReputation)
    } else if !(MIN_QUESTION_LEN < text_len(data.question@) <= MAX_QUESTION_LEN) {
        Some(ErrorCode::InvalidQuestionLength)
    } else if text_len(data.description@) > MAX_DESCRIPTION_LEN {
        Some(ErrorCode::InvalidDescriptionLength)
    } else if text_len(data.category@) > MAX_CATEGORY_LEN {
        Some(ErrorCode::InvalidCategoryLength)
    } else if data.resolution_date <= now {
        Some(ErrorCode::InvalidResolutionDate)
    } else {
        None
    }
}

/// Opens a market. The initial liquidity is split evenly between the two
/// pools; an odd unit is dropped, so the total pool is twice the half.
pub fn create_market(
    data: MarketData,
    requirements: EvidenceRequirements,
    creator: AccountKey,
    creator_reputation: u32,
    now: i64,
) -> (r: Result<PredictionMarket, ErrorCode>)
    ensures
        r is Ok <==> create_market_error(&data, creator_reputation, now) is None,
        r matches Err(e) ==> create_market_error(&data, creator_reputation, now) == Some(e),
        r matches Ok(m) ==> {
            &&& m.wf()
            &&& m.status == MarketStatus::Active
            &&& m.authority == creator
            &&& m.creator == creator
            &&& m.created_at == now
            &&& m.resolution_date == data.resolution_date
            &&& m.question@ == data.question@
            &&& m.description@ == data.description@
            &&& m.category@ == data.category@
            &&& m.yes_pool == data.initial_liquidity / 2
            &&& m.no_pool == data.initial_liquidity / 2
            &&& m.total_pool == 2 * (data.initial_liquidity / 2)
            &&& m.total_lp_supply == m.total_pool
            &&& m.total_participants == 0
            &&& m.resolution_data is None
            &&& m.moderation_flags@.len() == 0
            &&& m.meta_markets@.len() == 0
            &&& m.oracle_integration is None
            &&& m.reputation_threshold == (if creator_reputation >= TRUSTED_CREATOR_REPUTATION {
                0u8
            } else {
                DEFAULT_REPUTATION_THRESHOLD
            })
            &&& m.human_verified_required == (requirements.government_source_required
                || requirements.scientific_peer_review)
            &&& m.evidence_requirements == requirements
        },
{
    if creator_reputation < MIN_CREATOR_REPUTATION {
        return Err(ErrorCode::InsufficientReputation);
    }
    let qlen = byte_len(&data.question);
    if !(MIN_QUESTION_LEN < qlen && qlen <= MAX_QUESTION_LEN) {
        return Err(ErrorCode::InvalidQuestionLength);
    }
    if byte_len(&data.description) > MAX_DESCRIPTION_LEN {
        return Err(ErrorCode::InvalidDescriptionLength);
    }
    if byte_len(&data.category) > MAX_CATEGORY_LEN {
        return Err(ErrorCode::InvalidCategoryLength);
    }
    if data.resolution_date <= now {
        return Err(ErrorCode::InvalidResolutionDate);
    }
    let half = data.initial_liquidity / 2;
    let human_verified_required = requirements.government_source_required
        || requirements.scientific_peer_review;
    let reputation_threshold = if creator_reputation >= TRUSTED_CREATOR_REPUTATION {
        0u8
    } else {
        DEFAULT_REPUTATION_THRESHOLD
    };
    Ok(
        PredictionMarket {
            authority: creator,
            creator,
            status: MarketStatus::Active,
            created_at: now,
            resolution_date: data.resolution_date,
            question: data.question,
            description: data.description,
            category: data.category,
            evidence_requirements: requirements,
            total_pool: half + half,
            yes_pool: half,
            no_pool: half,
            total_lp_supply: half + half,
            total_participants: 0,
            resolution_data: None,
            moderation_flags: Vec::new(),
            reputation_threshold,
            human_verified_required,
            oracle_integration: None,
            meta_markets: Vec::new(),
        },
    )
}

/// Whether a market may be resolved at `now`: it is active, its date has
/// passed, and an oracle it requires is configured.
pub open spec fn eligible_for_resolution(m: PredictionMarket, now: i64) -> bool {
    &&& now >= m.resolution_date
    &&& !(m.evidence_requirements.oracle_required && m.oracle_integration is None)
    &&& m.status == MarketStatus::Active
}

pub fn is_market_eligible_for_resolution(market: &PredictionMarket, now: i64) -> (r: bool)
    ensures
        r == eligible_for_resolution(*market, now),
{
    if now < market.resolution_date {
        return false;
    }
    if market.evidence_requirements.oracle_required && market.oracle_integration.is_none() {
        return false;
    }
    market.status == MarketStatus::Active
}

} // verus!
