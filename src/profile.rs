use vstd::prelude::*;
use crate::error::ErrorCode;
use crate::text::utf8_of;
use crate::types::{AccountKey, Badge, HumanProofType};

verus! {

pub struct HumanProofData {
    pub proof_type: HumanProofType,
    pub proof_id: String,
    pub verified_at: i64,
    pub verifier: AccountKey,
    pub expires_at: Option<i64>,
}

/// What the identity and reputation collaborator knows of a user.
pub struct UserProfile {
    pub user: AccountKey,
    pub reputation_score: u32,
    pub total_predictions: u32,
    pub correct_predictions: u32,
    /// Percentage of correct predictions.
    pub accuracy_rate: u8,
    pub human_verified: bool,
    pub human_proof: Option<HumanProofData>,
    pub created_at: i64,
    pub last_activity: i64,
    pub badges: Vec<Badge>,
}

} // verus!

verus! {

/// Whether a text reads as a `u64` by std's integer parsing.
pub uninterp spec fn parses_as_u64(s: Seq<char>) -> bool;

/// Relies on `str::parse::<u64>`: whether it accepts the text depends on the
/// text alone.
#[verifier::external_body]
fn is_u64_text(s: &str) -> (r: bool)
    ensures
        r == parses_as_u64(s@),
{
    s.parse::<u64>().is_ok()
}

/// `badges` with `b` added unless it is already there.
pub open spec fn with_badge(badges: Seq<Badge>, b: Badge) -> Seq<Badge> {
    if badges.contains(b) {
        badges
    } else {
        badges.push(b)
    }
}

/// Adds a badge to a profile unless it already holds it.
pub fn award_badge(profile: &mut UserProfile, badge: Badge)
    ensures
        final(profile).badges@ == with_badge(old(profile).badges@, badge),
        *final(profile) == (UserProfile { badges: final(profile).badges, ..*old(profile) }),
{
    let mut i: usize = 0;
    while i < profile.badges.len()
        invariant
            0 <= i <= profile.badges@.len(),
            *profile == *old(profile),
            forall|j: int| 0 <= j < i ==> profile.badges@[j] != badge,
        decreases profile.badges@.len() - i,
    {
        if profile.badges[i] == badge {
            assert(profile.badges@[i as int] == badge);
            return;
        }
        i = i + 1;
    }
    profile.badges.push(badge);
}

/// Accuracy rate, in percent, that earns the high-accuracy badge on a claim,
/// given enough predictions.
pub const CLAIM_BADGE_RATE: u8 = 80;
/// Predictions a user needs before a claim can earn the high-accuracy badge.
pub const CLAIM_BADGE_MIN_PREDICTIONS: u32 = 10;
/// Accuracy rate, in percent, that earns the high-accuracy badge on a
/// reputation update.
pub const UPDATE_BADGE_RATE: u8 = 85;

/// The accuracy rate once a freshly computed `rate` (if any) is stored.
pub open spec fn rate_after(old_rate: u8, rate: Option<u8>) -> u8 {
    match rate {
        Some(x) => x,
        None => old_rate,
    }
}

/// Stores a freshly computed accuracy rate, if there is one, after a claim,
/// and awards the high-accuracy badge for a rate of 80% or more over ten or
/// more predictions.
pub fn apply_accuracy_after_claim(profile: &mut UserProfile, rate: Option<u8>)
    ensures
        final(profile).accuracy_rate == rate_after(old(profile).accuracy_rate, rate),
        final(profile).badges@ == (if final(profile).accuracy_rate >= CLAIM_BADGE_RATE
            && old(profile).total_predictions >= CLAIM_BADGE_MIN_PREDICTIONS {
            with_badge(old(profile).badges@, Badge::HighAccuracy)
        } else {
            old(profile).badges@
        }),
        *final(profile) == (UserProfile {
            accuracy_rate: final(profile).accuracy_rate,
            badges: final(profile).badges,
            ..*old(profile)
        }),
{
    if let Some(x) = rate {
        profile.accuracy_rate = x;
    }
    if profile.accuracy_rate >= CLAIM_BADGE_RATE && profile.total_predictions >= CLAIM_BADGE_MIN_PREDICTIONS {
        award_badge(profile, Badge::HighAccuracy);
    }
}

/// Stores a freshly computed accuracy rate, if there is one, after a
/// reputation update, and awards the high-accuracy badge for a rate of 85% or
/// more.
pub fn apply_accuracy_after_update(profile: &mut UserProfile, rate: Option<u8>)
    ensures
        final(profile).accuracy_rate == rate_after(old(profile).accuracy_rate, rate),
        final(profile).badges@ == (if final(profile).accuracy_rate >= UPDATE_BADGE_RATE {
            with_badge(old(profile).badges@, Badge::HighAccuracy)
        } else {
            old(profile).badges@
        }),
        *final(profile) == (UserProfile {
            accuracy_rate: final(profile).accuracy_rate,
            badges: final(profile).badges,
            ..*old(profile)
        }),
{
    if let Some(x) = rate {
        profile.accuracy_rate = x;
    }
    if profile.accuracy_rate >= UPDATE_BADGE_RATE {
        award_badge(profile, Badge::HighAccuracy);
    }
}

/// Reputation change for an accuracy score (in percent).
pub open spec fn reputation_delta(score: u8) -> int {
    if score >= 90 {
        25
    } else if score >= 80 {
        15
    } else if score >= 70 {
        5
    } else if score >= 60 {
        0
    } else {
        -10
    }
}

/// `score + delta`, held within the range of `u32`.
pub open spec fn saturating_apply(score: u32, delta: int) -> u32 {
    let v = score + delta;
    if v < 0 {
        0
    } else if v > u32::MAX {
        u32::MAX
    } else {
        v as u32
    }
}

pub open spec fn update_reputation_error(p: UserProfile, score: u8) -> Option<ErrorCode> {
    if score > 100 {
        Some(ErrorCode::InvalidAccuracyScore)
    } else if score >= 70 && p.correct_predictions == u32::MAX {
        Some(ErrorCode::MathOverflow)
    } else {
        None
    }
}

/// Adjusts reputation for an accuracy score and counts a correct prediction
/// for a score of 70 or more. The accuracy rate itself is the caller's to
/// recompute.
pub fn update_reputation(profile: &mut UserProfile, accuracy_score: u8, now: i64) -> (r: Result<(), ErrorCode>)
    ensures
        r is Ok <==> update_reputation_error(*old(profile), accuracy_score) is None,
        r matches Err(e) ==> {
            &&& update_reputation_error(*old(profile), accuracy_score) == Some(e)
            &&& *final(profile) == *old(profile)
        },
        r is Ok ==> *final(profile) == (UserProfile {
            reputation_score: saturating_apply(old(profile).reputation_score, reputation_delta(accuracy_score)),
            correct_predictions: if accuracy_score >= 70 {
                (old(profile).correct_predictions + 1) as u32
            } else {
                old(profile).correct_predictions
            },
            last_activity: now,
            ..*old(profile)
        }),
{
    if accuracy_score > 100 {
        return Err(ErrorCode::InvalidAccuracyScore);
    }
    if accuracy_score >= 70 && profile.correct_predictions == u32::MAX {
        return Err(ErrorCode::MathOverflow);
    }
    if accuracy_score >= 90 {
        profile.reputation_score = profile.reputation_score.saturating_add(25);
    } else if accuracy_score >= 80 {
        profile.reputation_score = profile.reputation_score.saturating_add(15);
    } else if accuracy_score >= 70 {
        profile.reputation_score = profile.reputation_score.saturating_add(5);
    } else if accuracy_score < 60 {
        profile.reputation_score = profile.reputation_score.saturating_sub(10);
    }
    if accuracy_score >= 70 {
        profile.correct_predictions = profile.correct_predictions + 1;
    }
    profile.last_activity = now;
    Ok(())
}

/// Reputation a correct prediction earns.
pub const WIN_REPUTATION_BONUS: u32 = 10;

/// Counts a correct prediction once its winnings are claimed: one more
/// correct prediction and ten more reputation, held at the top of the range.
/// The accuracy rate is the caller's to recompute.
pub fn record_win(profile: &mut UserProfile) -> (r: Result<(), ErrorCode>)
    ensures
        r is Err <==> old(profile).correct_predictions == u32::MAX,
        r is Err ==> r == Err::<(), ErrorCode>(ErrorCode::MathOverflow) && *final(profile) == *old(profile),
        r is Ok ==> *final(profile) == (UserProfile {
            correct_predictions: (old(profile).correct_predictions + 1) as u32,
            reputation_score: saturating_apply(old(profile).reputation_score, WIN_REPUTATION_BONUS as int),
            ..*old(profile)
        }),
{
    if profile.correct_predictions == u32::MAX {
        return Err(ErrorCode::MathOverflow);
    }
    profile.correct_predictions = profile.correct_predictions + 1;
    profile.reputation_score = profile.reputation_score.saturating_add(WIN_REPUTATION_BONUS);
    Ok(())
}

/// Reputation granted for a verified proof of personhood of each kind.
pub open spec fn proof_bonus(t: HumanProofType) -> int {
    match t {
        HumanProofType::ProofOfHumanity => 100,
        HumanProofType::BrightID => 75,
        HumanProofType::GitcoinPassport => 50,
    }
}

pub open spec fn verify_identity_error(proof: HumanProofData, verifier: AccountKey, now: i64) -> Option<ErrorCode> {
    if verifier.bytes@ != proof.verifier.bytes@ {
        Some(ErrorCode::UnauthorizedVerifier)
    } else if proof.proof_id@.len() == 0 {
        Some(ErrorCode::InvalidProofId)
    } else if proof.verified_at > now {
        Some(ErrorCode::InvalidVerificationTime)
    } else if proof.expires_at is Some && proof.expires_at->0 <= now {
        Some(ErrorCode::VerificationExpired)
    } else {
        None
    }
}

/// Records a proof of personhood vouched for by `verifier`: the profile is
/// marked verified, gains the proof's reputation bonus and the early-adopter
/// badge.
pub fn verify_human_identity(profile: &mut UserProfile, proof: HumanProofData, verifier: AccountKey, now: i64) -> (r: Result<(), ErrorCode>)
    ensures
        r is Ok <==> verify_identity_error(proof, verifier, now) is None,
        r matches Err(e) ==> {
            &&& verify_identity_error(proof, verifier, now) == Some(e)
            &&& *final(profile) == *old(profile)
        },
        r is Ok ==> {
            &&& final(profile).badges@ == with_badge(old(profile).badges@, Badge::EarlyAdopter)
            &&& *final(profile) == (UserProfile {
                reputation_score: saturating_apply(old(profile).reputation_score, proof_bonus(proof.proof_type)),
                human_verified: true,
                human_proof: Some(proof),
                last_activity: now,
                badges: final(profile).badges,
                ..*old(profile)
            })
        },
{
    if !verifier.same_as(&proof.verifier) {
        return Err(ErrorCode::UnauthorizedVerifier);
    }
    if proof.proof_id.as_str().is_empty() {
        return Err(ErrorCode::InvalidProofId);
    }
    if proof.verified_at > now {
        return Err(ErrorCode::InvalidVerificationTime);
    }
    if let Some(expires_at) = proof.expires_at {
        if expires_at <= now {
            return Err(ErrorCode::VerificationExpired);
        }
    }
    let bonus: u32 = match proof.proof_type {
        HumanProofType::ProofOfHumanity => 100,
        HumanProofType::BrightID => 75,
        HumanProofType::GitcoinPassport => 50,
    };
    profile.reputation_score = profile.reputation_score.saturating_add(bonus);
    profile.human_verified = true;
    profile.human_proof = Some(proof);
    profile.last_activity = now;
    award_badge(profile, Badge::EarlyAdopter);
    Ok(())
}

/// Whether a proof identifier has the shape its kind requires: a
/// Proof-of-Humanity address is 42 bytes starting with "0x", a BrightID is at
/// least 20 bytes, a Gitcoin Passport id is a `u64` number.
pub open spec fn proof_id_well_formed(t: HumanProofType, id: Seq<char>) -> bool {
    let b = utf8_of(id);
    match t {
        HumanProofType::ProofOfHumanity => b.len() == 42 && b[0] == 48u8 && b[1] == 120u8,
        HumanProofType::BrightID => b.len() >= 20,
        HumanProofType::GitcoinPassport => parses_as_u64(id),
    }
}

/// Whether a stored proof still counts at `now`: it has not expired and its
/// identifier is well formed for its kind.
pub fn validate_human_proof(proof: &HumanProofData, now: i64) -> (r: bool)
    ensures
        r == (!(proof.expires_at is Some && now > proof.expires_at->0) && proof_id_well_formed(
            proof.proof_type,
            proof.proof_id@,
        )),
{
    if let Some(expires_at) = proof.expires_at {
        if now > expires_at {
            return false;
        }
    }
    let bytes = proof.proof_id.as_str().as_bytes();
    match proof.proof_type {
        HumanProofType::ProofOfHumanity => bytes.len() == 42 && bytes[0] == 48u8 && bytes[1] == 120u8,
        HumanProofType::BrightID => bytes.len() >= 20,
        HumanProofType::GitcoinPassport => is_u64_text(proof.proof_id.as_str()),
    }
}

/// Integer square root: the largest `r` with `r * r <= n`.
pub open spec fn is_isqrt(r: int, n: int) -> bool {
    0 <= r && r * r <= n < (r + 1) * (r + 1)
}

/// Voting weight of a reputation under quadratic voting: its square root,
/// rounded down.
pub fn calculate_quadratic_voting_weight(reputation: u32) -> (r: u64)
    ensures
        is_isqrt(r as int, reputation as int),
{
    let n = reputation as u64;
    let mut lo: u64 = 0;
    let mut hi: u64 = 65536;
    assert(65536 * 65536 > u32::MAX) by (nonlinear_arith);
    while hi - lo > 1
        invariant
            lo < hi <= 65536,
            lo * lo <= n,
            n < hi * hi,
            n <= u32::MAX,
        decreases hi - lo,
    {
        let mid = lo + (hi - lo) / 2;
        assert(mid * mid <= 65536 * 65536) by (nonlinear_arith)
            requires
                mid <= 65536,
        ;
        if mid * mid <= n {
            lo = mid;
        } else {
            hi = mid;
        }
    }
    assert(hi == lo + 1);
    lo
}

} // verus!
