use prediction_market::error::ErrorCode;
use prediction_market::market::{EvidenceRequirements, OracleData, OracleIntegration, PredictionMarket};
use prediction_market::resolution::{
    outcome_from_oracle, resolve_by_community_vote, resolve_market, resolve_market_with_oracle,
};
use prediction_market::types::{AccountKey, MarketStatus, Outcome, ResolutionMethod};

fn active_market() -> PredictionMarket {
    PredictionMarket {
        authority: AccountKey::new([1; 32]),
        creator: AccountKey::new([1; 32]),
        status: MarketStatus::Active,
        created_at: 0,
        resolution_date: 100,
        question: String::from("Will the bridge open this year?"),
        description: String::new(),
        category: String::new(),
        evidence_requirements: EvidenceRequirements {
            min_evidence_count: 0,
            required_types: Vec::new(),
            oracle_required: false,
            scientific_peer_review: false,
            government_source_required: false,
        },
        total_pool: 1000,
        yes_pool: 500,
        no_pool: 500,
        total_lp_supply: 1000,
        total_participants: 0,
        resolution_data: None,
        moderation_flags: Vec::new(),
        reputation_threshold: 0,
        human_verified_required: false,
        oracle_integration: None,
        meta_markets: Vec::new(),
    }
}

fn reading(value: &str, confidence: u8) -> OracleData {
    OracleData {
        oracle_provider: String::from("chainlink"),
        data_source: String::from("feed"),
        value: String::from(value),
        confidence,
        timestamp: 100,
    }
}

#[test]
fn oracle_confidence_boundary() {
    let mut m = active_market();
    assert_eq!(
        resolve_market_with_oracle(&mut m, reading("0.9", 79), Some(true), 100),
        Err(ErrorCode::InsufficientOracleConfidence)
    );
    assert_eq!(m.status, MarketStatus::Active);
    assert!(m.resolution_data.is_none());
    assert_eq!(resolve_market_with_oracle(&mut m, reading("0.9", 80), Some(true), 100), Ok(Outcome::Yes));
    assert_eq!(m.status, MarketStatus::Resolved);
    let data = m.resolution_data.as_ref().unwrap();
    assert_eq!(data.outcome, Outcome::Yes);
    assert_eq!(data.resolution_method, ResolutionMethod::Oracle);
    assert_eq!(data.resolved_at, 100);
    assert_eq!(
        resolve_market_with_oracle(&mut m, reading("0.9", 90), Some(true), 101),
        Err(ErrorCode::AlreadyResolved)
    );
}

#[test]
fn oracle_integration_threshold_applies() {
    let mut m = active_market();
    m.oracle_integration = Some(OracleIntegration {
        provider: String::from("pyth"),
        feed_address: AccountKey::new([8; 32]),
        update_frequency: 60,
        threshold_confidence: 95,
    });
    assert_eq!(
        resolve_market_with_oracle(&mut m, reading("0.1", 90), Some(false), 100),
        Err(ErrorCode::InsufficientOracleConfidence)
    );
    assert_eq!(resolve_market_with_oracle(&mut m, reading("0.1", 95), Some(false), 100), Ok(Outcome::No));
}

#[test]
fn oracle_before_date_and_paused() {
    let mut m = active_market();
    assert_eq!(
        resolve_market_with_oracle(&mut m, reading("yes", 90), None, 99),
        Err(ErrorCode::MarketNotExpired)
    );
    m.status = MarketStatus::Paused;
    assert_eq!(
        resolve_market_with_oracle(&mut m, reading("yes", 90), None, 100),
        Err(ErrorCode::MarketNotActive)
    );
}

#[test]
fn oracle_text_keywords_ignore_case() {
    assert_eq!(outcome_from_oracle(&String::from("YES, it opened"), None), Outcome::Yes);
    assert_eq!(outcome_from_oracle(&String::from("Result: TRUE"), None), Outcome::Yes);
    assert_eq!(outcome_from_oracle(&String::from("no"), None), Outcome::No);
    assert_eq!(outcome_from_oracle(&String::from("ye s"), None), Outcome::No);
    assert_eq!(outcome_from_oracle(&String::from("yes"), Some(false)), Outcome::No);
    assert_eq!(outcome_from_oracle(&String::from("0.7"), Some(true)), Outcome::Yes);
}

#[test]
fn authority_resolution() {
    let mut m = active_market();
    let stranger = AccountKey::new([5; 32]);
    let owner = AccountKey::new([1; 32]);
    assert_eq!(resolve_market(&mut m, stranger, Outcome::No, ResolutionMethod::ExpertPanel, 100), Err(ErrorCode::Unauthorized));
    assert_eq!(resolve_market(&mut m, owner, Outcome::No, ResolutionMethod::Oracle, 100), Err(ErrorCode::InvalidInputParameters));
    assert_eq!(resolve_market(&mut m, owner, Outcome::No, ResolutionMethod::ExpertPanel, 99), Err(ErrorCode::MarketNotExpired));
    assert_eq!(resolve_market(&mut m, owner, Outcome::No, ResolutionMethod::ExpertPanel, 100), Ok(()));
    assert_eq!(m.resolution_data.as_ref().unwrap().outcome, Outcome::No);
    assert_eq!(resolve_market(&mut m, owner, Outcome::Yes, ResolutionMethod::ExpertPanel, 100), Err(ErrorCode::AlreadyResolved));
}

#[test]
fn community_vote_resolution() {
    let mut m = active_market();
    assert_eq!(resolve_by_community_vote(&mut m, 300, 300, 100), Err(ErrorCode::InvalidInputParameters));
    assert_eq!(resolve_by_community_vote(&mut m, 300, 301, 99), Err(ErrorCode::MarketNotExpired));
    assert_eq!(resolve_by_community_vote(&mut m, 300, 301, 100), Ok(Outcome::No));
    assert_eq!(m.resolution_data.as_ref().unwrap().resolution_method, ResolutionMethod::CommunityVote);
    assert_eq!(resolve_by_community_vote(&mut m, 900, 1, 100), Err(ErrorCode::AlreadyResolved));
}
