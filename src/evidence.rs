use vstd::prelude::*;
use crate::error::ErrorCode;
use crate::market::{byte_len, text_len, PredictionMarket, MAX_DESCRIPTION_LEN};
use crate::types::{AccountKey, EvidenceType};

verus! {

/// Reputation a user needs to submit evidence.
pub const MIN_SUBMITTER_REPUTATION: u32 = 50;
/// Shortest description of a piece of evidence, exclusive, in bytes.
pub const MIN_EVIDENCE_DESCRIPTION_LEN: usize = 10;

pub struct EvidenceData {
    pub evidence_type: EvidenceType,
    pub source_url: String,
    pub description: String,
    /// 0 to 100.
    pub credibility_score: u8,
    pub verified: bool,
    pub submitted_at: i64,
    pub verifier: Option<AccountKey>,
}

pub struct EvidenceVote {
    pub voter: AccountKey,
    /// -10 to +10.
    pub credibility_score: i8,
    pub reason: String,
    pub voted_at: i64,
}

pub struct Evidence {
    pub market: AccountKey,
    pub submitter: AccountKey,
    pub evidence_data: EvidenceData,
    pub votes: Vec<EvidenceVote>,
    pub total_score: i64,
    pub verified: bool,
}

pub open spec fn submit_evidence_error(m: PredictionMarket, reputation: u32, data: EvidenceData) -> Option<ErrorCode> {
    if reputation < MIN_SUBMITTER_REPUTATION {
        Some(ErrorCode::InsufficientReputation)
    } else if data.source_url@.len() == 0 || !(MIN_EVIDENCE_DESCRIPTION_LEN < text_len(data.description@)
        <= MAX_DESCRIPTION_LEN) || data.credibility_score > 100 {
        Some(ErrorCode::InvalidInputParameters)
    } else if !m.evidence_requirements.required_types@.contains(data.evidence_type) {
        Some(ErrorCode::EvidenceRequirementsNotMet)
    } else {
        None
    }
}

pub fn contains_evidence_type(types: &Vec<EvidenceType>, t: EvidenceType) -> (r: bool)
    ensures
        r == types@.contains(t),
{
    let mut i: usize = 0;
    while i < types.len()
        invariant
            0 <= i <= types@.len(),
            forall|j: int| 0 <= j < i ==> types@[j] != t,
        decreases types@.len() - i,
    {
        if types[i] == t {
            assert(types@[i as int] == t);
            return true;
        }
        i = i + 1;
    }
    false
}

/// Records a piece of evidence for a market, of one of the kinds the market
/// requires.
pub fn submit_evidence(
    market: &PredictionMarket,
    market_key: AccountKey,
    submitter: AccountKey,
    submitter_reputation: u32,
    evidence_data: EvidenceData,
) -> (r: Result<Evidence, ErrorCode>)
    ensures
        r is Ok <==> submit_evidence_error(*market, submitter_reputation, evidence_data) is None,
        r matches Err(e) ==> submit_evidence_error(*market, submitter_reputation, evidence_data) == Some(e),
        r matches Ok(ev) ==> {
            &&& ev.market == market_key
            &&& ev.submitter == submitter
            &&& ev.evidence_data == evidence_data
            &&& ev.votes@.len() == 0
            &&& ev.total_score == 0
            &&& !ev.verified
        },
{
    if submitter_reputation < MIN_SUBMITTER_REPUTATION {
        return Err(ErrorCode::InsufficientReputation);
    }
    let dlen = byte_len(&evidence_data.description);
    if evidence_data.source_url.as_str().is_empty() || !(MIN_EVIDENCE_DESCRIPTION_LEN < dlen && dlen
        <= MAX_DESCRIPTION_LEN) || evidence_data.credibility_score > 100 {
        return Err(ErrorCode::InvalidInputParameters);
    }
    if !contains_evidence_type(&market.evidence_requirements.required_types, evidence_data.evidence_type) {
        return Err(ErrorCode::EvidenceRequirementsNotMet);
    }
    Ok(
        Evidence {
            market: market_key,
            submitter,
            evidence_data,
            votes: Vec::new(),
            total_score: 0,
            verified: false,
        },
    )
}

} // verus!
