use prediction_market::error::ErrorCode;
use prediction_market::profile::{
    apply_accuracy_after_claim, apply_accuracy_after_update, award_badge, calculate_quadratic_voting_weight, update_reputation, validate_human_proof,
    verify_human_identity, HumanProofData, UserProfile,
};
use prediction_market::types::{AccountKey, Badge, HumanProofType};

fn profile(reputation: u32) -> UserProfile {
    UserProfile {
        user: AccountKey::new([1; 32]),
        reputation_score: reputation,
        total_predictions: 10,
        correct_predictions: 3,
        accuracy_rate: 30,
        human_verified: false,
        human_proof: None,
        created_at: 0,
        last_activity: 0,
        badges: Vec::new(),
    }
}

fn sample_proof(t: HumanProofType, id: &str, expires_at: Option<i64>) -> HumanProofData {
    HumanProofData { proof_type: t, proof_id: String::from(id), verified_at: 5, verifier: AccountKey::new([9; 32]), expires_at }
}

#[test]
fn reputation_table() {
    let mut p = profile(100);
    assert_eq!(update_reputation(&mut p, 101, 1), Err(ErrorCode::InvalidAccuracyScore));
    update_reputation(&mut p, 95, 1).unwrap();
    assert_eq!((p.reputation_score, p.correct_predictions), (125, 4));
    update_reputation(&mut p, 85, 1).unwrap();
    assert_eq!(p.reputation_score, 140);
    update_reputation(&mut p, 70, 1).unwrap();
    assert_eq!((p.reputation_score, p.correct_predictions), (145, 6));
    update_reputation(&mut p, 65, 1).unwrap();
    assert_eq!((p.reputation_score, p.correct_predictions), (145, 6));
    update_reputation(&mut p, 10, 2).unwrap();
    assert_eq!(p.reputation_score, 135);
    assert_eq!(p.last_activity, 2);
    let mut low = profile(4);
    update_reputation(&mut low, 0, 1).unwrap();
    assert_eq!(low.reputation_score, 0);
    let mut high = profile(u32::MAX - 1);
    update_reputation(&mut high, 100, 1).unwrap();
    assert_eq!(high.reputation_score, u32::MAX);
}

#[test]
fn identity_verification() {
    let mut p = profile(10);
    let verifier = AccountKey::new([9; 32]);
    assert_eq!(verify_human_identity(&mut p, sample_proof(HumanProofType::BrightID, "abc", None), AccountKey::new([8; 32]), 10), Err(ErrorCode::UnauthorizedVerifier));
    assert_eq!(verify_human_identity(&mut p, sample_proof(HumanProofType::BrightID, "", None), verifier, 10), Err(ErrorCode::InvalidProofId));
    assert_eq!(verify_human_identity(&mut p, sample_proof(HumanProofType::BrightID, "abc", None), verifier, 4), Err(ErrorCode::InvalidVerificationTime));
    assert_eq!(verify_human_identity(&mut p, sample_proof(HumanProofType::BrightID, "abc", Some(10)), verifier, 10), Err(ErrorCode::VerificationExpired));
    assert!(!p.human_verified);
    assert_eq!(verify_human_identity(&mut p, sample_proof(HumanProofType::BrightID, "abc", Some(11)), verifier, 10), Ok(()));
    assert!(p.human_verified);
    assert_eq!(p.reputation_score, 85);
    assert_eq!(p.badges, vec![Badge::EarlyAdopter]);
    assert_eq!(verify_human_identity(&mut p, sample_proof(HumanProofType::ProofOfHumanity, "abc", None), verifier, 10), Ok(()));
    assert_eq!(p.reputation_score, 185);
    assert_eq!(p.badges, vec![Badge::EarlyAdopter]);
}

#[test]
fn badges_are_not_repeated() {
    let mut p = profile(0);
    award_badge(&mut p, Badge::HighAccuracy);
    award_badge(&mut p, Badge::OracleValidator);
    award_badge(&mut p, Badge::HighAccuracy);
    assert_eq!(p.badges, vec![Badge::HighAccuracy, Badge::OracleValidator]);
}

#[test]
fn proof_shapes() {
    let addr = format!("0x{}", "a".repeat(40));
    assert!(validate_human_proof(&sample_proof(HumanProofType::ProofOfHumanity, &addr, None), 0));
    assert!(!validate_human_proof(&sample_proof(HumanProofType::ProofOfHumanity, &addr[..41], None), 0));
    let bad_prefix = format!("1x{}", "a".repeat(40));
    assert!(!validate_human_proof(&sample_proof(HumanProofType::ProofOfHumanity, &bad_prefix, None), 0));
    assert!(validate_human_proof(&sample_proof(HumanProofType::BrightID, &"b".repeat(20), None), 0));
    assert!(!validate_human_proof(&sample_proof(HumanProofType::BrightID, &"b".repeat(19), None), 0));
    assert!(validate_human_proof(&sample_proof(HumanProofType::GitcoinPassport, "18446744073709551615", None), 0));
    assert!(!validate_human_proof(&sample_proof(HumanProofType::GitcoinPassport, "18446744073709551616", None), 0));
    assert!(!validate_human_proof(&sample_proof(HumanProofType::GitcoinPassport, "12a", None), 0));
    assert!(!validate_human_proof(&sample_proof(HumanProofType::GitcoinPassport, "12", Some(5)), 6));
    assert!(validate_human_proof(&sample_proof(HumanProofType::GitcoinPassport, "12", Some(5)), 5));
}

#[test]
fn quadratic_weight_is_integer_square_root() {
    assert_eq!(calculate_quadratic_voting_weight(0), 0);
    assert_eq!(calculate_quadratic_voting_weight(15), 3);
    assert_eq!(calculate_quadratic_voting_weight(16), 4);
    assert_eq!(calculate_quadratic_voting_weight(10_000), 100);
    assert_eq!(calculate_quadratic_voting_weight(u32::MAX), 65535);
}

#[test]
fn accuracy_badge_rules() {
    let mut p = profile(0);
    apply_accuracy_after_claim(&mut p, Some(80));
    assert_eq!(p.accuracy_rate, 80);
    assert_eq!(p.badges, vec![Badge::HighAccuracy]);
    let mut few = profile(0);
    few.total_predictions = 9;
    apply_accuracy_after_claim(&mut few, Some(100));
    assert!(few.badges.is_empty());
    let mut q = profile(0);
    apply_accuracy_after_update(&mut q, Some(84));
    assert!(q.badges.is_empty());
    apply_accuracy_after_update(&mut q, None);
    assert_eq!(q.accuracy_rate, 84);
    apply_accuracy_after_update(&mut q, Some(85));
    assert_eq!(q.badges, vec![Badge::HighAccuracy]);
}
