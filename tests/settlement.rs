use prediction_market::error::ErrorCode;
use prediction_market::market::{EvidenceRequirements, PredictionMarket, ResolutionData};
use prediction_market::position::UserPosition;
use prediction_market::settlement::{calculate_payout, claim_winnings, compute_payout, Payout, PayoutPolicy};
use prediction_market::types::{AccountKey, MarketStatus, Outcome, ResolutionMethod};

fn resolved_market(yes: u64, no: u64, outcome: Outcome) -> PredictionMarket {
    PredictionMarket {
        authority: AccountKey::new([1; 32]),
        creator: AccountKey::new([1; 32]),
        status: MarketStatus::Resolved,
        created_at: 0,
        resolution_date: 100,
        question: String::from("Will the bridge open this year?"),
        description: String::new(),
        category: String::new(),
        evidence_requirements: EvidenceRequirements {
            min_evidence_count: 0,
            required_types: Vec::new(),
            oracle_required: false,
            scientific_peer_review: false,
            government_source_required: false,
        },
        total_pool: yes + no,
        yes_pool: yes,
        no_pool: no,
        total_lp_supply: yes + no,
        total_participants: 2,
        resolution_data: Some(ResolutionData {
            outcome,
            resolved_at: 100,
            oracle_data: None,
            resolution_method: ResolutionMethod::ExpertPanel,
        }),
        moderation_flags: Vec::new(),
        reputation_threshold: 0,
        human_verified_required: false,
        oracle_integration: None,
        meta_markets: Vec::new(),
    }
}

fn position(outcome: Outcome, amount: u64) -> UserPosition {
    UserPosition {
        user: AccountKey::new([2; 32]),
        market: AccountKey::new([3; 32]),
        outcome,
        amount,
        entry_price: 5000,
        created_at: 0,
        last_update: 0,
        claimed: false,
    }
}

#[test]
fn claim_pays_once() {
    let m = resolved_market(1_000_000, 500_000, Outcome::Yes);
    let mut pos = position(Outcome::Yes, 100_000);
    let first = claim_winnings(&m, &mut pos, PayoutPolicy::FeeAdjusted);
    assert_eq!(first, Ok(Payout { gross: 150_000, fee: 750, net: 149_250 }));
    assert!(pos.claimed);
    let second = claim_winnings(&m, &mut pos, PayoutPolicy::FeeAdjusted);
    assert_eq!(second, Err(ErrorCode::AlreadyClaimed));
    assert_eq!(pos.amount, 100_000);
}

#[test]
fn pot_split_claim() {
    let m = resolved_market(1_000_000, 500_000, Outcome::Yes);
    let mut pos = position(Outcome::Yes, 100_000);
    assert_eq!(
        claim_winnings(&m, &mut pos, PayoutPolicy::PotSplit),
        Ok(Payout { gross: 150_000, fee: 0, net: 150_000 })
    );
}

#[test]
fn losing_and_unresolved_claims() {
    let m = resolved_market(1_000, 500, Outcome::No);
    let mut pos = position(Outcome::Yes, 100);
    assert_eq!(claim_winnings(&m, &mut pos, PayoutPolicy::FeeAdjusted), Err(ErrorCode::PositionNotWinning));
    assert!(!pos.claimed);
    let mut open = resolved_market(1_000, 500, Outcome::Yes);
    open.status = MarketStatus::Active;
    open.resolution_data = None;
    assert_eq!(claim_winnings(&open, &mut pos, PayoutPolicy::FeeAdjusted), Err(ErrorCode::MarketNotResolved));
    let empty_side = resolved_market(0, 500, Outcome::Yes);
    assert_eq!(claim_winnings(&empty_side, &mut pos, PayoutPolicy::PotSplit), Err(ErrorCode::NoWinnings));
    let other = resolved_market(10, 10, Outcome::Other(2));
    let mut pos_other = position(Outcome::Other(2), 10);
    assert_eq!(claim_winnings(&other, &mut pos_other, PayoutPolicy::PotSplit), Err(ErrorCode::InvalidInputParameters));
}

#[test]
fn payout_formulas() {
    assert_eq!(compute_payout(PayoutPolicy::PotSplit, 7, 10, 3), Ok(Payout { gross: 23, fee: 0, net: 23 }));
    // 7 + 7*7/3 = 7 + 16 = 23; fee 23*50/10000 = 0
    assert_eq!(compute_payout(PayoutPolicy::FeeAdjusted, 7, 10, 3), Ok(Payout { gross: 23, fee: 0, net: 23 }));
    assert_eq!(compute_payout(PayoutPolicy::FeeAdjusted, 10_000, 30_000, 10_000), Ok(Payout { gross: 30_000, fee: 150, net: 29_850 }));
    assert_eq!(compute_payout(PayoutPolicy::PotSplit, 1, 10, 0), Err(ErrorCode::NoWinnings));
    assert_eq!(compute_payout(PayoutPolicy::PotSplit, u64::MAX, u64::MAX, 1), Err(ErrorCode::MathOverflow));
    assert_eq!(compute_payout(PayoutPolicy::FeeAdjusted, u64::MAX / 40, u64::MAX, u64::MAX / 2), Err(ErrorCode::MathOverflow));
}

#[test]
fn calculate_payout_pot_split() {
    let m = resolved_market(400, 600, Outcome::Yes);
    assert_eq!(calculate_payout(100, &Outcome::Yes, &m), Ok(250));
    assert_eq!(calculate_payout(100, &Outcome::No, &m), Ok(166));
    assert_eq!(calculate_payout(100, &Outcome::Other(1), &m), Err(ErrorCode::InvalidInputParameters));
}
