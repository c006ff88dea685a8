//! The single-pot variant of the engine: bets go straight into a Yes or a No
//! total, a market resolves by its authority or by comparing an oracle price
//! with a registered threshold, and winners split the whole pot.
use vstd::prelude::*;
use crate::amm::lemma_mul_u64_fits;
use crate::error::ErrorCode;
use crate::market::{byte_len, text_len, MAX_DESCRIPTION_LEN, MAX_QUESTION_LEN, MIN_QUESTION_LEN};
use crate::settlement::pot_split;
use crate::types::AccountKey;

verus! {

/// The smallest bet, in lamports.
pub const MIN_BET: u64 = 10_000_000;

/// Comparison codes of an oracle-resolved market.
pub const COMPARE_ABOVE: u8 = 0;
pub const COMPARE_BELOW: u8 = 1;
pub const COMPARE_EQUALS: u8 = 2;

/// Counters kept for the whole deployment.
pub struct GlobalState {
    pub authority: AccountKey,
    pub total_markets: u64,
    pub total_volume: u64,
}

pub struct Market {
    pub authority: AccountKey,
    pub question: String,
    pub description: String,
    pub end_time: i64,
    pub created_at: i64,
    pub yes_amount: u64,
    pub no_amount: u64,
    pub resolved: bool,
    pub winning_outcome: bool,
    pub oracle_enabled: bool,
    pub oracle_feed_id: [u8; 32],
    pub oracle_threshold: i64,
    /// 0: Yes when the price is above the threshold; 1: below; 2: equal.
    pub oracle_comparison: u8,
}

/// One user's bet on one market.
pub struct Bet {
    pub user: AccountKey,
    pub market: AccountKey,
    pub amount: u64,
    pub outcome: bool,
    pub claimed: bool,
    pub timestamp: i64,
}

/// Fresh counters owned by `authority`.
pub fn initialize(authority: AccountKey) -> (r: GlobalState)
    ensures
        r.authority == authority,
        r.total_markets == 0,
        r.total_volume == 0,
{
    GlobalState { authority, total_markets: 0, total_volume: 0 }
}

pub open spec fn create_market_error(
    question: Seq<char>,
    description: Seq<char>,
    end_time: i64,
    oracle_enabled: bool,
    feed_id: Option<[u8; 32]>,
    threshold: Option<i64>,
    comparison: Option<u8>,
    now: i64,
) -> Option<ErrorCode> {
    if text_len(question) > MAX_QUESTION_LEN {
        Some(ErrorCode::QuestionTooLong)
    } else if text_len(question) <= MIN_QUESTION_LEN {
        Some(ErrorCode::InvalidQuestionLength)
    } else if text_len(description) > MAX_DESCRIPTION_LEN {
        Some(ErrorCode::InvalidDescriptionLength)
    } else if end_time <= now {
        Some(ErrorCode::InvalidEndTime)
    } else if oracle_enabled && feed_id is None {
        Some(ErrorCode::OracleFeedIdRequired)
    } else if oracle_enabled && threshold is None {
        Some(ErrorCode::OracleThresholdRequired)
    } else if oracle_enabled && comparison is None {
        Some(ErrorCode::OracleComparisonRequired)
    } else if oracle_enabled && comparison->0 > COMPARE_EQUALS {
        Some(ErrorCode::InvalidOracleComparison)
    } else {
        None
    }
}

/// Opens a market that closes to bets at `end_time`. The question must be
/// longer than 10 and at most 200 bytes, the description at most 500 bytes.
/// An oracle-resolved
/// market needs its price feed, threshold and comparison; a manual one keeps
/// zeros there.
pub fn create_market(
    authority: AccountKey,
    question: String,
    description: String,
    end_time: i64,
    oracle_enabled: bool,
    oracle_feed_id: Option<[u8; 32]>,
    oracle_threshold: Option<i64>,
    oracle_comparison: Option<u8>,
    now: i64,
) -> (r: Result<Market, ErrorCode>)
    ensures
        r is Ok <==> create_market_error(question@, description@, end_time, oracle_enabled, oracle_feed_id, oracle_threshold, oracle_comparison, now) is None,
        r matches Err(e) ==> create_market_error(question@, description@, end_time, oracle_enabled, oracle_feed_id, oracle_threshold, oracle_comparison, now) == Some(e),
        r matches Ok(m) ==> {
            &&& m.authority == authority
            &&& m.question == question
            &&& m.description == description
            &&& m.end_time == end_time
            &&& m.created_at == now
            &&& m.yes_amount == 0
            &&& m.no_amount == 0
            &&& !m.resolved
            &&& !m.winning_outcome
            &&& m.oracle_enabled == oracle_enabled
            &&& oracle_enabled ==> {
                &&& m.oracle_feed_id == oracle_feed_id->0
                &&& m.oracle_threshold == oracle_threshold->0
                &&& m.oracle_comparison == oracle_comparison->0
            }
            &&& !oracle_enabled ==> {
                &&& forall|i: int| 0 <= i < 32 ==> #[trigger] m.oracle_feed_id@[i] == 0
                &&& m.oracle_threshold == 0
                &&& m.oracle_comparison == 0
            }
        },
{
    let qlen = byte_len(&question);
    if qlen > MAX_QUESTION_LEN {
        return Err(ErrorCode::QuestionTooLong);
    }
    if qlen <= MIN_QUESTION_LEN {
        return Err(ErrorCode::InvalidQuestionLength);
    }
    if byte_len(&description) > MAX_DESCRIPTION_LEN {
        return Err(ErrorCode::InvalidDescriptionLength);
    }
    if end_time <= now {
        return Err(ErrorCode::InvalidEndTime);
    }
    let mut feed: [u8; 32] = [0u8; 32];
    let mut threshold: i64 = 0;
    let mut comparison: u8 = 0;
    if oracle_enabled {
        match oracle_feed_id {
            Some(f) => {
                feed = f;
            },
            None => {
                return Err(ErrorCode::OracleFeedIdRequired);
            },
        }
        match oracle_threshold {
            Some(t) => {
                threshold = t;
            },
            None => {
                return Err(ErrorCode::OracleThresholdRequired);
            },
        }
        match oracle_comparison {
            Some(c) => {
                comparison = c;
            },
            None => {
                return Err(ErrorCode::OracleComparisonRequired);
            },
        }
        if comparison > COMPARE_EQUALS {
            return Err(ErrorCode::InvalidOracleComparison);
        }
    }
    Ok(
        Market {
            authority,
            question,
            description,
            end_time,
            created_at: now,
            yes_amount: 0,
            no_amount: 0,
            resolved: false,
            winning_outcome: false,
            oracle_enabled,
            oracle_feed_id: feed,
            oracle_threshold: threshold,
            oracle_comparison: comparison,
        },
    )
}

pub open spec fn place_bet_error(m: Market, amount: u64, bet_yes: bool, now: i64) -> Option<ErrorCode> {
    if m.resolved {
        Some(ErrorCode::MarketResolved)
    } else if now >= m.end_time {
        Some(ErrorCode::MarketExpired)
    } else if amount < MIN_BET {
        Some(ErrorCode::BetTooSmall)
    } else if (bet_yes && m.yes_amount + amount > u64::MAX) || (!bet_yes && m.no_amount + amount
        > u64::MAX) {
        Some(ErrorCode::MathOverflow)
    } else {
        None
    }
}

/// Places a bet of `amount` on Yes (`bet_yes`) or No and returns its record.
pub fn place_bet(
    market: &mut Market,
    market_key: AccountKey,
    user: AccountKey,
    amount: u64,
    bet_yes: bool,
    now: i64,
) -> (r: Result<Bet, ErrorCode>)
    ensures
        r is Ok <==> place_bet_error(*old(market), amount, bet_yes, now) is None,
        r matches Err(e) ==> {
            &&& place_bet_error(*old(market), amount, bet_yes, now) == Some(e)
            &&& *final(market) == *old(market)
        },
        r matches Ok(b) ==> {
            &&& b == (Bet { user, market: market_key, amount, outcome: bet_yes, claimed: false, timestamp: now })
            &&& *final(market) == (Market {
                yes_amount: if bet_yes { (old(market).yes_amount + amount) as u64 } else { old(market).yes_amount },
                no_amount: if bet_yes { old(market).no_amount } else { (old(market).no_amount + amount) as u64 },
                ..*old(market)
            })
        },
{
    if market.resolved {
        return Err(ErrorCode::MarketResolved);
    }
    if now >= market.end_time {
        return Err(ErrorCode::MarketExpired);
    }
    if amount < MIN_BET {
        return Err(ErrorCode::BetTooSmall);
    }
    if bet_yes {
        if market.yes_amount > u64::MAX - amount {
            return Err(ErrorCode::MathOverflow);
        }
        market.yes_amount = market.yes_amount + amount;
    } else {
        if market.no_amount > u64::MAX - amount {
            return Err(ErrorCode::MathOverflow);
        }
        market.no_amount = market.no_amount + amount;
    }
    Ok(Bet { user, market: market_key, amount, outcome: bet_yes, claimed: false, timestamp: now })
}

pub open spec fn resolve_market_error(m: Market, caller: AccountKey, now: i64) -> Option<ErrorCode> {
    if m.resolved {
        Some(ErrorCode::AlreadyResolved)
    } else if now < m.end_time {
        Some(ErrorCode::MarketNotExpired)
    } else if caller.bytes@ != m.authority.bytes@ {
        Some(ErrorCode::Unauthorized)
    } else if m.oracle_enabled {
        Some(ErrorCode::MustUseOracle)
    } else {
        None
    }
}

/// Resolves a manual market by its authority's decision.
pub fn resolve_market(market: &mut Market, caller: AccountKey, outcome: bool, now: i64) -> (r: Result<
    (),
    ErrorCode,
>)
    ensures
        r is Ok <==> resolve_market_error(*old(market), caller, now) is None,
        r matches Err(e) ==> {
            &&& resolve_market_error(*old(market), caller, now) == Some(e)
            &&& *final(market) == *old(market)
        },
        r is Ok ==> *final(market) == (Market { resolved: true, winning_outcome: outcome, ..*old(market) }),
{
    if market.resolved {
        return Err(ErrorCode::AlreadyResolved);
    }
    if now < market.end_time {
        return Err(ErrorCode::MarketNotExpired);
    }
    if !caller.same_as(&market.authority) {
        return Err(ErrorCode::Unauthorized);
    }
    if market.oracle_enabled {
        return Err(ErrorCode::MustUseOracle);
    }
    market.resolved = true;
    market.winning_outcome = outcome;
    Ok(())
}

/// The outcome that `price` gives under a threshold comparison, if the
/// comparison code is known.
pub open spec fn compare_outcome(price: i64, threshold: i64, comparison: u8) -> Option<bool> {
    if comparison == COMPARE_ABOVE {
        Some(price > threshold)
    } else if comparison == COMPARE_BELOW {
        Some(price < threshold)
    } else if comparison == COMPARE_EQUALS {
        Some(price == threshold)
    } else {
        None
    }
}

pub open spec fn resolve_with_oracle_error(m: Market, price: i64, now: i64) -> Option<ErrorCode> {
    if m.resolved {
        Some(ErrorCode::AlreadyResolved)
    } else if now < m.end_time {
        Some(ErrorCode::MarketNotExpired)
    } else if !m.oracle_enabled {
        Some(ErrorCode::OracleNotEnabled)
    } else if compare_outcome(price, m.oracle_threshold, m.oracle_comparison) is None {
        Some(ErrorCode::InvalidOracleComparison)
    } else {
        None
    }
}

/// Resolves an oracle market from a fresh price of its feed, by comparing it
/// with the registered threshold; returns the winning side.
pub fn resolve_with_oracle(market: &mut Market, price: i64, now: i64) -> (r: Result<bool, ErrorCode>)
    ensures
        r is Ok <==> resolve_with_oracle_error(*old(market), price, now) is None,
        r matches Err(e) ==> {
            &&& resolve_with_oracle_error(*old(market), price, now) == Some(e)
            &&& *final(market) == *old(market)
        },
        r matches Ok(outcome) ==> {
            &&& Some(outcome) == compare_outcome(price, old(market).oracle_threshold, old(market).oracle_comparison)
            &&& *final(market) == (Market { resolved: true, winning_outcome: outcome, ..*old(market) })
        },
{
    if market.resolved {
        return Err(ErrorCode::AlreadyResolved);
    }
    if now < market.end_time {
        return Err(ErrorCode::MarketNotExpired);
    }
    if !market.oracle_enabled {
        return Err(ErrorCode::OracleNotEnabled);
    }
    let threshold = market.oracle_threshold;
    let outcome = if market.oracle_comparison == COMPARE_ABOVE {
        price > threshold
    } else if market.oracle_comparison == COMPARE_BELOW {
        price < threshold
    } else if market.oracle_comparison == COMPARE_EQUALS {
        price == threshold
    } else {
        return Err(ErrorCode::InvalidOracleComparison);
    };
    market.resolved = true;
    market.winning_outcome = outcome;
    Ok(outcome)
}

pub open spec fn claim_winnings_error(m: Market, bet: Bet) -> Option<ErrorCode> {
    let total = m.yes_amount + m.no_amount;
    let winning = if m.winning_outcome { m.yes_amount } else { m.no_amount };
    if !m.resolved {
        Some(ErrorCode::MarketNotResolved)
    } else if bet.outcome != m.winning_outcome {
        Some(ErrorCode::WrongOutcome)
    } else if bet.claimed {
        Some(ErrorCode::AlreadyClaimed)
    } else if total > u64::MAX {
        Some(ErrorCode::MathOverflow)
    } else if winning == 0 {
        Some(ErrorCode::NoWinnings)
    } else if pot_split(bet.amount as int, total, winning as int) > u64::MAX {
        Some(ErrorCode::MathOverflow)
    } else if pot_split(bet.amount as int, total, winning as int) == 0 {
        Some(ErrorCode::NoWinnings)
    } else {
        None
    }
}

/// Pays a winning bet its share of the whole pot and marks it claimed.
pub fn claim_winnings(market: &Market, bet: &mut Bet) -> (r: Result<u64, ErrorCode>)
    ensures
        r is Ok <==> claim_winnings_error(*market, *old(bet)) is None,
        r matches Err(e) ==> {
            &&& claim_winnings_error(*market, *old(bet)) == Some(e)
            &&& *final(bet) == *old(bet)
        },
        r matches Ok(w) ==> {
            &&& w == pot_split(
                old(bet).amount as int,
                market.yes_amount + market.no_amount,
                (if market.winning_outcome { market.yes_amount } else { market.no_amount }) as int,
            )
            &&& *final(bet) == (Bet { claimed: true, ..*old(bet) })
        },
{
    if !market.resolved {
        return Err(ErrorCode::MarketNotResolved);
    }
    if bet.outcome != market.winning_outcome {
        return Err(ErrorCode::WrongOutcome);
    }
    if bet.claimed {
        return Err(ErrorCode::AlreadyClaimed);
    }
    if market.yes_amount > u64::MAX - market.no_amount {
        return Err(ErrorCode::MathOverflow);
    }
    let total = market.yes_amount + market.no_amount;
    let winning = if market.winning_outcome {
        market.yes_amount
    } else {
        market.no_amount
    };
    if winning == 0 {
        return Err(ErrorCode::NoWinnings);
    }
    proof {
        lemma_mul_u64_fits(bet.amount as int, total as int);
    }
    let wide = (bet.amount as u128) * (total as u128) / (winning as u128);
    if wide > u64::MAX as u128 {
        return Err(ErrorCode::MathOverflow);
    }
    if wide == 0 {
        return Err(ErrorCode::NoWinnings);
    }
    bet.claimed = true;
    Ok(wide as u64)
}

pub open spec fn add_to_bet_error(m: Market, bet: Bet, amount: u64, bet_yes: bool, now: i64) -> Option<ErrorCode> {
    if amount == 0 {
        Some(ErrorCode::InvalidAmount)
    } else if m.resolved {
        Some(ErrorCode::MarketResolved)
    } else if now >= m.end_time {
        Some(ErrorCode::MarketExpired)
    } else if !bet.user.spec_is_default() && bet.outcome != bet_yes {
        Some(ErrorCode::InvalidInputParameters)
    } else if bet.amount + amount > u64::MAX || (bet_yes && m.yes_amount + amount > u64::MAX) || (!bet_yes
        && m.no_amount + amount > u64::MAX) {
        Some(ErrorCode::MathOverflow)
    } else {
        None
    }
}

/// Adds `amount` to `user`'s one bet on `market`, opening it if `bet` is a
/// fresh record (all-zero user). Any positive amount is accepted; a bet on the
/// other side of an open one is refused.
pub fn add_to_bet(
    market: &mut Market,
    bet: &mut Bet,
    market_key: AccountKey,
    user: AccountKey,
    amount: u64,
    bet_yes: bool,
    now: i64,
) -> (r: Result<(), ErrorCode>)
    ensures
        r is Ok <==> add_to_bet_error(*old(market), *old(bet), amount, bet_yes, now) is None,
        r matches Err(e) ==> {
            &&& add_to_bet_error(*old(market), *old(bet), amount, bet_yes, now) == Some(e)
            &&& *final(market) == *old(market)
            &&& *final(bet) == *old(bet)
        },
        r is Ok ==> {
            &&& *final(bet) == (Bet {
                user,
                market: market_key,
                amount: (old(bet).amount + amount) as u64,
                outcome: bet_yes,
                claimed: false,
                ..*old(bet)
            })
            &&& *final(market) == (Market {
                yes_amount: if bet_yes { (old(market).yes_amount + amount) as u64 } else { old(market).yes_amount },
                no_amount: if bet_yes { old(market).no_amount } else { (old(market).no_amount + amount) as u64 },
                ..*old(market)
            })
        },
{
    if amount == 0 {
        return Err(ErrorCode::InvalidAmount);
    }
    if market.resolved {
        return Err(ErrorCode::MarketResolved);
    }
    if now >= market.end_time {
        return Err(ErrorCode::MarketExpired);
    }
    if !bet.user.is_default() && bet.outcome != bet_yes {
        return Err(ErrorCode::InvalidInputParameters);
    }
    if bet.amount > u64::MAX - amount {
        return Err(ErrorCode::MathOverflow);
    }
    if bet_yes {
        if market.yes_amount > u64::MAX - amount {
            return Err(ErrorCode::MathOverflow);
        }
        market.yes_amount = market.yes_amount + amount;
    } else {
        if market.no_amount > u64::MAX - amount {
            return Err(ErrorCode::MathOverflow);
        }
        market.no_amount = market.no_amount + amount;
    }
    bet.user = user;
    bet.market = market_key;
    bet.amount = bet.amount + amount;
    bet.outcome = bet_yes;
    bet.claimed = false;
    Ok(())
}

pub open spec fn claim_own_bet_error(m: Market, bet: Bet, caller: AccountKey) -> Option<ErrorCode> {
    let total = m.yes_amount + m.no_amount;
    let winning = if m.winning_outcome { m.yes_amount } else { m.no_amount };
    if !m.resolved {
        Some(ErrorCode::MarketNotResolved)
    } else if bet.claimed {
        Some(ErrorCode::AlreadyClaimed)
    } else if bet.user.bytes@ != caller.bytes@ {
        Some(ErrorCode::Unauthorized)
    } else if bet.outcome != m.winning_outcome {
        Some(ErrorCode::WrongOutcome)
    } else if total > u64::MAX {
        Some(ErrorCode::MathOverflow)
    } else if winning == 0 {
        Some(ErrorCode::NoWinnings)
    } else if pot_split(bet.amount as int, total, winning as int) > u64::MAX {
        Some(ErrorCode::MathOverflow)
    } else {
        None
    }
}

/// Pays the owner of a winning bet its share of the whole pot and marks it
/// claimed; only the bet's own user may claim it.
pub fn claim_own_bet(market: &Market, bet: &mut Bet, caller: AccountKey) -> (r: Result<u64, ErrorCode>)
    ensures
        r is Ok <==> claim_own_bet_error(*market, *old(bet), caller) is None,
        r matches Err(e) ==> {
            &&& claim_own_bet_error(*market, *old(bet), caller) == Some(e)
            &&& *final(bet) == *old(bet)
        },
        r matches Ok(w) ==> {
            &&& w == pot_split(
                old(bet).amount as int,
                market.yes_amount + market.no_amount,
                (if market.winning_outcome { market.yes_amount } else { market.no_amount }) as int,
            )
            &&& *final(bet) == (Bet { claimed: true, ..*old(bet) })
        },
{
    if !market.resolved {
        return Err(ErrorCode::MarketNotResolved);
    }
    if bet.claimed {
        return Err(ErrorCode::AlreadyClaimed);
    }
    if !bet.user.same_as(&caller) {
        return Err(ErrorCode::Unauthorized);
    }
    if bet.outcome != market.winning_outcome {
        return Err(ErrorCode::WrongOutcome);
    }
    if market.yes_amount > u64::MAX - market.no_amount {
        return Err(ErrorCode::MathOverflow);
    }
    let total = market.yes_amount + market.no_amount;
    let winning = if market.winning_outcome {
        market.yes_amount
    } else {
        market.no_amount
    };
    if winning == 0 {
        return Err(ErrorCode::NoWinnings);
    }
    proof {
        lemma_mul_u64_fits(bet.amount as int, total as int);
    }
    let wide = (bet.amount as u128) * (total as u128) / (winning as u128);
    if wide > u64::MAX as u128 {
        return Err(ErrorCode::MathOverflow);
    }
    bet.claimed = true;
    Ok(wide as u64)
}

} // verus!
