use vstd::prelude::*;
use crate::error::ErrorCode;
use crate::market::{byte_len, text_len, ModerationFlag, PredictionMarket, MAX_QUESTION_LEN, MIN_QUESTION_LEN};
use crate::text::{contains_any_keyword, contains_keyword, lower_of};
use crate::types::{AccountKey, MarketStatus, ModerationAction, ModerationType, ReportStatus};

verus! {

/// Reputation a user needs to report content.
pub const MIN_REPORTER_REPUTATION: u32 = 25;

pub struct ModerationResult {
    pub action_taken: ModerationAction,
    pub moderator: AccountKey,
    pub resolved_at: i64,
    pub explanation: String,
}

pub struct ContentReport {
    pub reporter: AccountKey,
    pub market: AccountKey,
    pub report_type: ModerationType,
    pub reason: String,
    pub created_at: i64,
    pub status: ReportStatus,
    pub moderation_result: Option<ModerationResult>,
}

/// Whether a text, in any letter case, contains one of the banned `patterns`
/// (each given in lower case).
pub fn is_dangerous_content(text: &str, patterns: &Vec<String>) -> (r: bool)
    ensures
        r == contains_any_keyword(lower_of(text@), patterns@),
{
    contains_keyword(text, patterns)
}

/// Whether a market's question or description holds banned content.
pub open spec fn market_text_banned(m: PredictionMarket, patterns: Seq<String>) -> bool {
    contains_any_keyword(lower_of(m.question@), patterns) || contains_any_keyword(
        lower_of(m.description@),
        patterns,
    )
}

pub open spec fn report_error(reporter_reputation: u32, reason: Seq<char>) -> Option<ErrorCode> {
    if reporter_reputation < MIN_REPORTER_REPUTATION {
        Some(ErrorCode::InsufficientReputation)
    } else if !(MIN_QUESTION_LEN < text_len(reason) <= MAX_QUESTION_LEN) {
        Some(ErrorCode::InvalidReasonLength)
    } else {
        None
    }
}

/// Whether a report of this type pauses the market at once: a legal report
/// always does, an automatic one when the market's text holds banned content.
pub open spec fn report_pauses(m: PredictionMarket, t: ModerationType, patterns: Seq<String>) -> bool {
    match t {
        ModerationType::Legal => true,
        ModerationType::Automatic => market_text_banned(m, patterns),
        ModerationType::Community => false,
    }
}

/// Files a content report on `market` and flags the market with it. A legal
/// report, or an automatic one on a market whose text holds one of the banned
/// `patterns`, pauses an active market; a community report waits for a vote.
pub fn report_content(
    market: &mut PredictionMarket,
    market_key: AccountKey,
    reporter: AccountKey,
    reporter_reputation: u32,
    report_type: ModerationType,
    reason: String,
    patterns: &Vec<String>,
    now: i64,
) -> (r: Result<ContentReport, ErrorCode>)
    requires
        old(market).wf(),
    ensures
        final(market).wf(),
        r is Ok <==> report_error(reporter_reputation, reason@) is None,
        r matches Err(e) ==> {
            &&& report_error(reporter_reputation, reason@) == Some(e)
            &&& *final(market) == *old(market)
        },
        r matches Ok(report) ==> {
            let pauses = report_pauses(*old(market), report_type, patterns@) && old(market).status
                == MarketStatus::Active;
            &&& report == (ContentReport {
                reporter,
                market: market_key,
                report_type,
                reason,
                created_at: now,
                status: ReportStatus::Pending,
                moderation_result: None,
            })
            &&& final(market).moderation_flags@ == old(market).moderation_flags@.push(
                ModerationFlag {
                    flag_type: report_type,
                    reason,
                    flagged_by: reporter,
                    flagged_at: now,
                    resolved: false,
                    resolution: None,
                },
            )
            &&& *final(market) == (PredictionMarket {
                status: if pauses { MarketStatus::Paused } else { old(market).status },
                moderation_flags: final(market).moderation_flags,
                ..*old(market)
            })
        },
{
    if reporter_reputation < MIN_REPORTER_REPUTATION {
        return Err(ErrorCode::InsufficientReputation);
    }
    let len = byte_len(&reason);
    if !(MIN_QUESTION_LEN < len && len <= MAX_QUESTION_LEN) {
        return Err(ErrorCode::InvalidReasonLength);
    }
    let pauses = match report_type {
        ModerationType::Legal => true,
        ModerationType::Automatic => is_dangerous_content(market.question.as_str(), patterns)
            || is_dangerous_content(market.description.as_str(), patterns),
        ModerationType::Community => false,
    };
    market.moderation_flags.push(
        ModerationFlag {
            flag_type: report_type,
            reason: reason.clone(),
            flagged_by: reporter,
            flagged_at: now,
            resolved: false,
            resolution: None,
        },
    );
    if pauses && market.status == MarketStatus::Active {
        market.status = MarketStatus::Paused;
    }
    Ok(
        ContentReport {
            reporter,
            market: market_key,
            report_type,
            reason,
            created_at: now,
            status: ReportStatus::Pending,
            moderation_result: None,
        },
    )
}

/// Unresolved flags of type `t` among `flags`.
pub open spec fn open_flags(flags: Seq<ModerationFlag>, t: ModerationType) -> nat
    decreases flags.len(),
{
    if flags.len() == 0 {
        0
    } else {
        open_flags(flags.drop_last(), t) + if flags.last().flag_type == t && !flags.last().resolved {
            1nat
        } else {
            0nat
        }
    }
}

pub fn count_open_flags(flags: &Vec<ModerationFlag>, t: ModerationType) -> (r: usize)
    ensures
        r == open_flags(flags@, t),
{
    let mut count: usize = 0;
    let mut i: usize = 0;
    while i < flags.len()
        invariant
            0 <= i <= flags@.len(),
            count == open_flags(flags@.subrange(0, i as int), t),
            count <= i,
        decreases flags@.len() - i,
    {
        assert(flags@.subrange(0, i + 1).drop_last() =~= flags@.subrange(0, i as int));
        if flags[i].flag_type == t && !flags[i].resolved {
            count = count + 1;
        }
        i = i + 1;
    }
    assert(flags@.subrange(0, flags@.len() as int) =~= flags@);
    count
}

/// A market with more participants than this, and a total pool above
/// `LARGE_MARKET_POOL`, counts as large.
pub const LARGE_MARKET_PARTICIPANTS: u32 = 1000;
/// Pool size, in lamports, above which a market with many participants counts
/// as large.
pub const LARGE_MARKET_POOL: u64 = 1_000_000_000;

/// Whether a market calls for an emergency pause: three open legal flags,
/// banned content in its text, or, for a large market, five open community
/// flags.
pub open spec fn emergency_pause_due(m: PredictionMarket, patterns: Seq<String>) -> bool {
    ||| open_flags(m.moderation_flags@, ModerationType::Legal) >= 3
    ||| market_text_banned(m, patterns)
    ||| (m.total_participants > LARGE_MARKET_PARTICIPANTS && m.total_pool > LARGE_MARKET_POOL
        && open_flags(m.moderation_flags@, ModerationType::Community) >= 5)
}

pub fn should_trigger_emergency_pause(market: &PredictionMarket, patterns: &Vec<String>) -> (r: bool)
    ensures
        r == emergency_pause_due(*market, patterns@),
{
    if count_open_flags(&market.moderation_flags, ModerationType::Legal) >= 3 {
        return true;
    }
    if is_dangerous_content(market.question.as_str(), patterns) || is_dangerous_content(
        market.description.as_str(),
        patterns,
    ) {
        return true;
    }
    if market.total_participants > LARGE_MARKET_PARTICIPANTS && market.total_pool > LARGE_MARKET_POOL {
        if count_open_flags(&market.moderation_flags, ModerationType::Community) >= 5 {
            return true;
        }
    }
    false
}

} // verus!
