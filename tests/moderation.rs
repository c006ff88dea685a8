use prediction_market::error::ErrorCode;
use prediction_market::evidence::{submit_evidence, EvidenceData};
use prediction_market::market::{EvidenceRequirements, ModerationFlag, PredictionMarket};
use prediction_market::meta::{create_meta_prediction, MetaPredictionData};
use prediction_market::moderation::{is_dangerous_content, report_content, should_trigger_emergency_pause};
use prediction_market::text::contains_bytes;
use prediction_market::types::{AccountKey, EvidenceType, MarketStatus, MetaPredictionType, ModerationType, ReportStatus};

fn market(question: &str) -> PredictionMarket {
    PredictionMarket {
        authority: AccountKey::new([1; 32]),
        creator: AccountKey::new([1; 32]),
        status: MarketStatus::Active,
        created_at: 0,
        resolution_date: 200_000,
        question: String::from(question),
        description: String::from("plain description"),
        category: String::new(),
        evidence_requirements: EvidenceRequirements {
            min_evidence_count: 0,
            required_types: vec![EvidenceType::Scientific],
            oracle_required: false,
            scientific_peer_review: false,
            government_source_required: false,
        },
        total_pool: 0,
        yes_pool: 0,
        no_pool: 0,
        total_lp_supply: 0,
        total_participants: 0,
        resolution_data: None,
        moderation_flags: Vec::new(),
        reputation_threshold: 0,
        human_verified_required: false,
        oracle_integration: None,
        meta_markets: Vec::new(),
    }
}

fn banned() -> Vec<String> {
    vec![String::from("bomb"), String::from("insider trading")]
}

fn flag(t: ModerationType, resolved: bool) -> ModerationFlag {
    ModerationFlag { flag_type: t, reason: String::from("r"), flagged_by: AccountKey::new([2; 32]), flagged_at: 0, resolved, resolution: None }
}

#[test]
fn substring_search() {
    assert!(contains_bytes(b"abcabd", b"abd"));
    assert!(contains_bytes(b"abc", b""));
    assert!(!contains_bytes(b"ab", b"abc"));
    assert!(!contains_bytes(b"abcab", b"abd"));
}

#[test]
fn dangerous_content_ignores_case() {
    assert!(is_dangerous_content("Profits from INSIDER Trading?", &banned()));
    assert!(is_dangerous_content("Will the Bomb squad arrive?", &banned()));
    assert!(!is_dangerous_content("Will the bridge open?", &banned()));
    assert!(!is_dangerous_content("bomb", &Vec::new()));
}

#[test]
fn reports_flag_and_pause() {
    let k = AccountKey::new([7; 32]);
    let reporter = AccountKey::new([3; 32]);
    let mut m = market("Will the bridge open this year?");
    assert_eq!(report_content(&mut m, k, reporter, 24, ModerationType::Legal, String::from("a legal concern here"), &banned(), 1).err(), Some(ErrorCode::InsufficientReputation));
    assert_eq!(report_content(&mut m, k, reporter, 30, ModerationType::Legal, String::from("short"), &banned(), 1).err(), Some(ErrorCode::InvalidReasonLength));
    let report = report_content(&mut m, k, reporter, 30, ModerationType::Community, String::from("community objects to it"), &banned(), 1).unwrap();
    assert_eq!(report.status, ReportStatus::Pending);
    assert_eq!(m.status, MarketStatus::Active);
    assert_eq!(m.moderation_flags.len(), 1);
    report_content(&mut m, k, reporter, 30, ModerationType::Automatic, String::from("automatic screening run"), &banned(), 2).unwrap();
    assert_eq!(m.status, MarketStatus::Active);
    report_content(&mut m, k, reporter, 30, ModerationType::Legal, String::from("a legal concern here"), &banned(), 3).unwrap();
    assert_eq!(m.status, MarketStatus::Paused);
    assert_eq!(m.moderation_flags.len(), 3);
    let mut bad = market("Will the BOMB threat be real?");
    report_content(&mut bad, k, reporter, 30, ModerationType::Automatic, String::from("automatic screening run"), &banned(), 2).unwrap();
    assert_eq!(bad.status, MarketStatus::Paused);
}

#[test]
fn emergency_pause_triggers() {
    let mut m = market("Will the bridge open this year?");
    assert!(!should_trigger_emergency_pause(&m, &banned()));
    m.moderation_flags = vec![flag(ModerationType::Legal, false), flag(ModerationType::Legal, true), flag(ModerationType::Legal, false)];
    assert!(!should_trigger_emergency_pause(&m, &banned()));
    m.moderation_flags.push(flag(ModerationType::Legal, false));
    assert!(should_trigger_emergency_pause(&m, &banned()));
    let mut large = market("Will the bridge open this year?");
    large.moderation_flags = (0..5).map(|_| flag(ModerationType::Community, false)).collect();
    assert!(!should_trigger_emergency_pause(&large, &banned()));
    large.total_participants = 1001;
    large.total_pool = 1_000_000_001;
    large.yes_pool = 1_000_000_001;
    assert!(should_trigger_emergency_pause(&large, &banned()));
    assert!(should_trigger_emergency_pause(&market("insider trading pays?"), &banned()));
}

#[test]
fn evidence_submission() {
    let m = market("Will the bridge open this year?");
    let data = |t: EvidenceType, url: &str, score: u8| EvidenceData {
        evidence_type: t,
        source_url: String::from(url),
        description: String::from("peer reviewed study"),
        credibility_score: score,
        verified: false,
        submitted_at: 0,
        verifier: None,
    };
    let k = AccountKey::new([7; 32]);
    let s = AccountKey::new([4; 32]);
    assert_eq!(submit_evidence(&m, k, s, 49, data(EvidenceType::Scientific, "u", 50)).err(), Some(ErrorCode::InsufficientReputation));
    assert_eq!(submit_evidence(&m, k, s, 50, data(EvidenceType::Scientific, "", 50)).err(), Some(ErrorCode::InvalidInputParameters));
    assert_eq!(submit_evidence(&m, k, s, 50, data(EvidenceType::Scientific, "u", 101)).err(), Some(ErrorCode::InvalidInputParameters));
    assert_eq!(submit_evidence(&m, k, s, 50, data(EvidenceType::Media, "u", 50)).err(), Some(ErrorCode::EvidenceRequirementsNotMet));
    let ev = submit_evidence(&m, k, s, 50, data(EvidenceType::Scientific, "u", 50)).unwrap();
    assert!(!ev.verified);
    assert!(ev.votes.is_empty());
}

#[test]
fn meta_prediction_resolves_a_day_early() {
    let mut parent = market("Will the bridge open this year?");
    let data = || MetaPredictionData {
        question: String::from("Will the press call it right?"),
        description: String::new(),
        prediction_type: MetaPredictionType::MediaAccuracy,
        media_analysis: None,
    };
    let (pk, mk, c) = (AccountKey::new([1; 32]), AccountKey::new([2; 32]), AccountKey::new([3; 32]));
    assert_eq!(create_meta_prediction(&mut parent, pk, mk, c, 99, data(), 0).err(), Some(ErrorCode::InsufficientReputation));
    assert_eq!(create_meta_prediction(&mut parent, pk, mk, c, 100, data(), 113_600).err(), Some(ErrorCode::InvalidResolutionDate));
    let meta = create_meta_prediction(&mut parent, pk, mk, c, 100, data(), 113_599).unwrap();
    assert_eq!(meta.resolution_date, 113_600);
    assert_eq!(meta.status, MarketStatus::Active);
    assert_eq!(parent.meta_markets.len(), 1);
    parent.status = MarketStatus::Paused;
    assert_eq!(create_meta_prediction(&mut parent, pk, mk, c, 100, data(), 0).err(), Some(ErrorCode::ParentMarketNotActive));
}
