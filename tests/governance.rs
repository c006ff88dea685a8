use prediction_market::error::ErrorCode;
use prediction_market::governance::{
    emergency_pause_market, initialize_governance, initiate_emergency_action, sign_emergency_action,
    MultisigGovernance,
};
use prediction_market::market::{EvidenceRequirements, PredictionMarket};
use prediction_market::types::{AccountKey, EmergencyActionType, MarketStatus, ModerationType};

fn market() -> PredictionMarket {
    PredictionMarket {
        authority: AccountKey::new([1; 32]),
        creator: AccountKey::new([1; 32]),
        status: MarketStatus::Active,
        created_at: 0,
        resolution_date: 100,
        question: String::from("Will the bridge open this year?"),
        description: String::new(),
        category: String::new(),
        evidence_requirements: EvidenceRequirements {
            min_evidence_count: 0,
            required_types: Vec::new(),
            oracle_required: false,
            scientific_peer_review: false,
            government_source_required: false,
        },
        total_pool: 0,
        yes_pool: 0,
        no_pool: 0,
        total_lp_supply: 0,
        total_participants: 0,
        resolution_data: None,
        moderation_flags: Vec::new(),
        reputation_threshold: 0,
        human_verified_required: false,
        oracle_integration: None,
        meta_markets: Vec::new(),
    }
}

fn signer(i: u8) -> AccountKey {
    AccountKey::new([100 + i; 32])
}

fn governance(n: u8, threshold: u8) -> MultisigGovernance {
    MultisigGovernance {
        authority: signer(0),
        signers: (0..n).map(signer).collect(),
        threshold,
        trusted_entities: Vec::new(),
        emergency_pause_authority: true,
        created_at: 0,
    }
}

const REASON: &str = "coordinated fraud reported";

#[test]
fn threshold_five_of_nine_executes_once() {
    let gov = governance(9, 5);
    let mut m = market();
    let mut action = emergency_pause_market(&gov, &mut m, AccountKey::new([7; 32]), signer(0), String::from(REASON), 5).unwrap();
    assert!(!action.executed);
    assert_eq!(m.status, MarketStatus::Active);
    for i in 1..4 {
        assert_eq!(sign_emergency_action(&gov, &mut action, &mut m, signer(i), 6), Ok(false));
        assert_eq!(m.status, MarketStatus::Active);
    }
    assert!(action.is_well_formed(&gov));
    // a repeated approval is not counted
    assert_eq!(sign_emergency_action(&gov, &mut action, &mut m, signer(2), 6), Ok(false));
    assert_eq!(action.signatures.len(), 4);
    assert!(!action.executed);
    // the fifth distinct approval executes
    assert_eq!(sign_emergency_action(&gov, &mut action, &mut m, signer(4), 7), Ok(true));
    assert!(action.executed);
    assert_eq!(m.status, MarketStatus::Paused);
    assert_eq!(m.moderation_flags.len(), 1);
    assert_eq!(m.moderation_flags[0].flag_type, ModerationType::Legal);
    assert_eq!(m.moderation_flags[0].reason, format!("Emergency pause: {}", REASON));
    // a sixth approval is recorded but does not execute again
    assert_eq!(sign_emergency_action(&gov, &mut action, &mut m, signer(5), 8), Ok(false));
    assert_eq!(action.signatures.len(), 6);
    assert_eq!(m.moderation_flags.len(), 1);
}

#[test]
fn signer_must_be_registered() {
    let gov = governance(3, 2);
    let mut m = market();
    let outsider = AccountKey::new([9; 32]);
    assert_eq!(
        initiate_emergency_action(&gov, &mut m, AccountKey::new([7; 32]), outsider, EmergencyActionType::BlacklistMarket, String::from(REASON), 5).err(),
        Some(ErrorCode::UnauthorizedSigner)
    );
    let mut action = initiate_emergency_action(&gov, &mut m, AccountKey::new([7; 32]), signer(0), EmergencyActionType::BlacklistMarket, String::from(REASON), 5).unwrap();
    assert_eq!(sign_emergency_action(&gov, &mut action, &mut m, outsider, 6), Err(ErrorCode::UnauthorizedSigner));
    assert_eq!(sign_emergency_action(&gov, &mut action, &mut m, signer(1), 6), Ok(true));
    assert_eq!(m.status, MarketStatus::Blacklisted);
    assert!(m.moderation_flags.is_empty());
}

#[test]
fn single_approval_threshold_executes_at_once() {
    let gov = governance(1, 1);
    let mut m = market();
    let action = emergency_pause_market(&gov, &mut m, AccountKey::new([7; 32]), signer(0), String::from(REASON), 5).unwrap();
    assert!(action.executed);
    assert_eq!(m.status, MarketStatus::Paused);
    assert_eq!(
        emergency_pause_market(&gov, &mut m, AccountKey::new([7; 32]), signer(0), String::from(REASON), 6).err(),
        Some(ErrorCode::MarketAlreadyPaused)
    );
}

#[test]
fn emergency_refusals() {
    let mut gov = governance(2, 2);
    let mut m = market();
    assert_eq!(
        emergency_pause_market(&gov, &mut m, AccountKey::new([7; 32]), signer(0), String::from("too short"), 5).err(),
        Some(ErrorCode::InvalidReasonLength)
    );
    assert_eq!(
        initiate_emergency_action(&gov, &mut m, AccountKey::new([7; 32]), signer(0), EmergencyActionType::FreezeFunds, String::from(REASON), 5).err(),
        Some(ErrorCode::InvalidInputParameters)
    );
    gov.emergency_pause_authority = false;
    assert_eq!(
        emergency_pause_market(&gov, &mut m, AccountKey::new([7; 32]), signer(0), String::from(REASON), 5).err(),
        Some(ErrorCode::UnauthorizedEmergencyAction)
    );
}

#[test]
fn resolved_market_cannot_be_paused() {
    let gov = governance(1, 1);
    let mut m = market();
    m.status = MarketStatus::Resolved;
    m.resolution_data = Some(prediction_market::market::ResolutionData {
        outcome: prediction_market::types::Outcome::Yes,
        resolved_at: 1,
        oracle_data: None,
        resolution_method: prediction_market::types::ResolutionMethod::TimeBased,
    });
    assert_eq!(
        emergency_pause_market(&gov, &mut m, AccountKey::new([7; 32]), signer(0), String::from(REASON), 5).err(),
        Some(ErrorCode::AlreadyResolved)
    );
}

#[test]
fn fresh_governance() {
    let g = initialize_governance(signer(0), Vec::new(), 42);
    assert_eq!(g.threshold, 5);
    assert_eq!(g.signers.len(), 1);
    assert!(g.emergency_pause_authority);
    assert_eq!(g.created_at, 42);
}
