use prediction_market::eligibility::{vote_on_eligibility, EligibilityRegistry};
use prediction_market::error::ErrorCode;
use prediction_market::market::{EvidenceRequirements, PredictionMarket};
use prediction_market::types::{AccountKey, MarketStatus};

fn market() -> PredictionMarket {
    PredictionMarket {
        authority: AccountKey::new([1; 32]),
        creator: AccountKey::new([1; 32]),
        status: MarketStatus::Active,
        created_at: 0,
        resolution_date: 100,
        question: String::from("Will the bridge open this year?"),
        description: String::new(),
        category: String::new(),
        evidence_requirements: EvidenceRequirements {
            min_evidence_count: 0,
            required_types: Vec::new(),
            oracle_required: false,
            scientific_peer_review: false,
            government_source_required: false,
        },
        total_pool: 0,
        yes_pool: 0,
        no_pool: 0,
        total_lp_supply: 0,
        total_participants: 0,
        resolution_data: None,
        moderation_flags: Vec::new(),
        reputation_threshold: 0,
        human_verified_required: false,
        oracle_integration: None,
        meta_markets: Vec::new(),
    }
}

fn registry(threshold: u8) -> EligibilityRegistry {
    EligibilityRegistry {
        market: AccountKey::new([0; 32]),
        total_votes: 0,
        yes_votes: 0,
        no_votes: 0,
        weighted_yes: 0,
        weighted_no: 0,
        threshold,
        eligible: true,
        created_at: 0,
        updated_at: 0,
    }
}

#[test]
fn weighted_no_majority_blacklists_and_yes_restores() {
    let mut m = market();
    let mut reg = registry(40);
    let k = AccountKey::new([7; 32]);
    let ballot = vote_on_eligibility(&mut reg, &mut m, k, AccountKey::new([5; 32]), 300, true, String::from("ballot"), 1).unwrap();
    assert_eq!((ballot.vote, ballot.reputation_weight, ballot.voted_at), (true, 300, 1));
    assert_eq!(ballot.reason, "ballot");
    assert!(reg.eligible);
    // no share 400 / 700 = 57% > 40%
    assert_eq!(vote_on_eligibility(&mut reg, &mut m, k, AccountKey::new([5; 32]), 400, false, String::from("ballot"), 2).map(|b| b.vote), Ok(false));
    assert!(!reg.eligible);
    assert_eq!(m.status, MarketStatus::Blacklisted);
    assert_eq!((reg.total_votes, reg.yes_votes, reg.no_votes), (2, 1, 1));
    assert_eq!((reg.weighted_yes, reg.weighted_no), (300, 400));
    // no share 400 / 1000 = 40%, not above the threshold
    assert!(vote_on_eligibility(&mut reg, &mut m, k, AccountKey::new([5; 32]), 300, true, String::from("ballot"), 3).is_ok());
    assert!(reg.eligible);
    assert_eq!(m.status, MarketStatus::Active);
    assert_eq!(reg.updated_at, 3);
}

#[test]
fn low_reputation_cannot_vote() {
    let mut m = market();
    let mut reg = registry(40);
    assert_eq!(
        vote_on_eligibility(&mut reg, &mut m, AccountKey::new([7; 32]), AccountKey::new([5; 32]), 99, false, String::from("ballot"), 1).err(),
        Some(ErrorCode::InsufficientReputation)
    );
    assert_eq!(reg.total_votes, 0);
}
